//! Laws relating the three conversions, stated over possible results of the
//! conversions themselves.
use std::borrow::Cow;
use vstd::prelude::*;
use crate::{CowExt, data_of, items_cloned, items_of, owned_data};

verus! {

/// A shallow clone of a borrowed value is still borrowed, and refers to the
/// same data.
pub proof fn lemma_clone_s_keeps_borrowed<'a, T: Clone>(v: Cow<'a, T>, r: Cow<'a, T>)
    requires
        v is Borrowed,
        call_ensures(<Cow<'a, T> as CowExt<'a, T>>::clone_s, (&v,), r),
    ensures
        r is Borrowed,
        data_of(r) == data_of(v),
{
}

/// A shallow clone of an owned value borrows that owned data rather than
/// copying it.
pub proof fn lemma_clone_s_borrows_owned<'a, T: Clone>(v: Cow<'a, T>, r: Cow<'a, T>)
    requires
        v is Owned,
        call_ensures(<Cow<'a, T> as CowExt<'a, T>>::clone_s, (&v,), r),
    ensures
        r is Borrowed,
        owned_data(v) == Some(data_of(r)),
{
}

/// A deep clone always holds its data as owned.
pub proof fn lemma_clone_l_owns<'a, 'b, T: Clone>(v: Cow<'a, T>, r: Cow<'b, T>)
    requires
        call_ensures(<Cow<'a, T> as CowExt<'a, T>>::clone_l, (&v,), r),
    ensures
        r is Owned,
{
}

/// The data of a deep clone is a clone of the original data.
pub proof fn lemma_clone_l_copies<'a, 'b, T: Clone>(v: Cow<'a, T>, r: Cow<'b, T>)
    requires
        call_ensures(<Cow<'a, T> as CowExt<'a, T>>::clone_l, (&v,), r),
    ensures
        cloned(data_of(v), data_of(r)),
{
}

/// Converting an owned value to a static one moves the owned data as it is.
pub proof fn lemma_into_static_moves_owned<'a, T: Clone + 'static>(
    v: Cow<'a, T>,
    r: Cow<'static, T>,
)
    requires
        v is Owned,
        call_ensures(<Cow<'a, T> as CowExt<'a, T>>::into_cow_static, (v,), r),
    ensures
        r is Owned,
        owned_data(r) == owned_data(v),
{
}

/// Converting a borrowed value to a static one owns a clone of the borrowed
/// data.
pub proof fn lemma_into_static_copies_borrowed<'a, T: Clone + 'static>(
    v: Cow<'a, T>,
    r: Cow<'static, T>,
)
    requires
        v is Borrowed,
        call_ensures(<Cow<'a, T> as CowExt<'a, T>>::into_cow_static, (v,), r),
    ensures
        r is Owned,
        cloned(data_of(v), data_of(r)),
{
}

/// A deep clone holds a clone of the original data, and converting it to a
/// static value keeps exactly that data.
pub proof fn lemma_round_trip<'a, 'b, T: Clone + 'static>(
    v: Cow<'a, T>,
    w: Cow<'b, T>,
    z: Cow<'static, T>,
)
    requires
        call_ensures(<Cow<'a, T> as CowExt<'a, T>>::clone_l, (&v,), w),
        call_ensures(<Cow<'b, T> as CowExt<'b, T>>::into_cow_static, (w,), z),
    ensures
        cloned(data_of(v), data_of(w)),
        data_of(z) == data_of(w),
        z is Owned,
{
}

/// A deep clone of a string holds the same text.
pub proof fn lemma_str_clone_l_equal<'a, 'b>(v: Cow<'a, str>, r: Cow<'b, str>)
    requires
        call_ensures(<Cow<'a, str> as CowExt<'a, str>>::clone_l, (&v,), r),
    ensures
        r is Owned,
        r@ == v@,
{
}

/// Converting a borrowed string to a static one owns the same text.
pub proof fn lemma_str_into_static_equal<'a>(v: Cow<'a, str>, r: Cow<'static, str>)
    requires
        v is Borrowed,
        call_ensures(<Cow<'a, str> as CowExt<'a, str>>::into_cow_static, (v,), r),
    ensures
        r is Owned,
        r@ == v@,
{
}

/// A deep clone of a string, and that clone converted to a static value, both
/// hold the original text.
pub proof fn lemma_str_round_trip<'a, 'b>(
    v: Cow<'a, str>,
    w: Cow<'b, str>,
    z: Cow<'static, str>,
)
    requires
        call_ensures(<Cow<'a, str> as CowExt<'a, str>>::clone_l, (&v,), w),
        call_ensures(<Cow<'b, str> as CowExt<'b, str>>::into_cow_static, (w,), z),
    ensures
        w@ == v@,
        z@ == v@,
        z is Owned,
{
}

/// A deep clone of a slice holds an item-by-item clone of the original items,
/// and converting it to a static value keeps exactly those items.
pub proof fn lemma_slice_round_trip<'a, 'b, E: Clone + 'static>(
    v: Cow<'a, [E]>,
    w: Cow<'b, [E]>,
    z: Cow<'static, [E]>,
)
    requires
        call_ensures(<Cow<'a, [E]> as CowExt<'a, [E]>>::clone_l, (&v,), w),
        call_ensures(<Cow<'b, [E]> as CowExt<'b, [E]>>::into_cow_static, (w,), z),
    ensures
        items_cloned(items_of(v), items_of(w)),
        items_of(z) == items_of(w),
        z is Owned,
{
}

} // verus!
