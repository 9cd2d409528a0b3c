//! Conversions of a copy-on-write value that choose whether its data is
//! cloned and which lifetime the result carries.
//!
//! The conversions are given for copy-on-write values of any cloneable sized
//! type, of `str`, and of slices of cloneable items: for these the copy that
//! `ToOwned` makes is known, so the contracts can say what the result holds.
use std::borrow::Cow;
use vstd::prelude::*;

pub mod laws;

verus! {

/// The data a copy-on-write value of a cloneable type holds, whichever variant holds it.
pub open spec fn data_of<'a, T: Clone>(c: Cow<'a, T>) -> T {
    match c {
        Cow::Borrowed(b) => *b,
        Cow::Owned(o) => o,
    }
}

/// The items a copy-on-write slice holds, whichever variant holds them.
pub open spec fn items_of<'a, E: Clone>(c: Cow<'a, [E]>) -> Seq<E> {
    match c {
        Cow::Borrowed(b) => b@,
        Cow::Owned(o) => o@,
    }
}

/// `r` is an item-by-item clone of `s`.
pub open spec fn items_cloned<E: Clone>(s: Seq<E>, r: Seq<E>) -> bool {
    &&& r.len() == s.len()
    &&& forall|i: int| 0 <= i < s.len() ==> cloned(#[trigger] s[i], r[i])
}

/// The owned data of a copy-on-write value, if it holds its data as owned.
pub open spec fn owned_data<'a, B: ?Sized + ToOwned>(c: Cow<'a, B>) -> Option<B::Owned> {
    match c {
        Cow::Owned(o) => Some(o),
        Cow::Borrowed(_) => None,
    }
}

/// Conversions of a `Cow` that control whether its data is cloned.
pub trait CowExt<'a, T: ?Sized + ToOwned>: Sized {
    /// Clones as a `Cow` with a shorter lifetime.
    ///
    /// A shallow clone: the borrowed variant is re-borrowed for the shorter
    /// lifetime, and the owned variant is borrowed. The data is never cloned.
    fn clone_s<'b: 'a>(&'b self) -> Cow<'b, T>;

    /// Clones as a `Cow` with a longer lifetime.
    ///
    /// A deep clone: the data is always cloned into a new owned value, whether
    /// it was borrowed or owned.
    fn clone_l<'b>(&self) -> Cow<'b, T>
    where
        'a: 'b,
    ;

    /// Converts into a `Cow` with the static lifetime.
    ///
    /// Borrowed data is cloned into a new owned value; owned data is moved
    /// into the result as it is.
    fn into_cow_static(self) -> Cow<'static, T>;
}

// For a sized type, the owned copy that `ToOwned` makes is a clone.
impl<'a, T: Clone> CowExt<'a, T> for Cow<'a, T> {
    fn clone_s<'b: 'a>(&'b self) -> (r: Cow<'b, T>)
        ensures
            r is Borrowed,
            data_of(r) == data_of(*self),
    {
        match self {
            Cow::Borrowed(b) => Cow::Borrowed(*b),
            Cow::Owned(o) => Cow::Borrowed(o),
        }
    }

    fn clone_l<'b>(&self) -> (r: Cow<'b, T>)
    where
        'a: 'b,
        ensures
            r is Owned,
            cloned(data_of(*self), data_of(r)),
    {
        match self {
            Cow::Borrowed(b) => Cow::Owned((*b).clone()),
            Cow::Owned(o) => Cow::Owned(o.clone()),
        }
    }

    fn into_cow_static(self) -> (r: Cow<'static, T>)
        ensures
            r is Owned,
            cloned(data_of(self), data_of(r)),
            self is Owned ==> owned_data(r) == owned_data(self),
    {
        match self {
            Cow::Borrowed(b) => Cow::Owned(b.clone()),
            Cow::Owned(o) => Cow::Owned(o),
        }
    }
}

// A string's owned copy is a `String` holding the same characters.
impl<'a> CowExt<'a, str> for Cow<'a, str> {
    fn clone_s<'b: 'a>(&'b self) -> (r: Cow<'b, str>)
        ensures
            r is Borrowed,
            r@ == self@,
    {
        match self {
            Cow::Borrowed(b) => Cow::Borrowed(*b),
            Cow::Owned(o) => Cow::Borrowed(o.as_str()),
        }
    }

    fn clone_l<'b>(&self) -> (r: Cow<'b, str>)
    where
        'a: 'b,
        ensures
            r is Owned,
            r@ == self@,
    {
        match self {
            Cow::Borrowed(b) => Cow::Owned((*b).to_owned()),
            Cow::Owned(o) => Cow::Owned(o.as_str().to_owned()),
        }
    }

    fn into_cow_static(self) -> (r: Cow<'static, str>)
        ensures
            r is Owned,
            r@ == self@,
            self is Owned ==> owned_data(r) == owned_data(self),
    {
        match self {
            Cow::Borrowed(b) => Cow::Owned(b.to_owned()),
            Cow::Owned(o) => Cow::Owned(o),
        }
    }
}

/// Copies a slice into a new vector, cloning each item.
fn copy_items<E: Clone>(s: &[E]) -> (r: Vec<E>)
    ensures
        items_cloned(s@, r@),
{
    let mut r: Vec<E> = Vec::with_capacity(s.len());
    let mut i: usize = 0;
    while i < s.len()
        invariant
            i <= s@.len(),
            items_cloned(s@.subrange(0, i as int), r@),
        decreases s@.len() - i,
    {
        r.push(s[i].clone());
        i += 1;
    }
    proof {
        assert(s@.subrange(0, s@.len() as int) == s@);
    }
    r
}

// A slice's owned copy is a vector of clones of its items.
impl<'a, E: Clone> CowExt<'a, [E]> for Cow<'a, [E]> {
    fn clone_s<'b: 'a>(&'b self) -> (r: Cow<'b, [E]>)
        ensures
            r is Borrowed,
            items_of(r) == items_of(*self),
    {
        match self {
            Cow::Borrowed(b) => Cow::Borrowed(*b),
            Cow::Owned(o) => Cow::Borrowed(o.as_slice()),
        }
    }

    fn clone_l<'b>(&self) -> (r: Cow<'b, [E]>)
    where
        'a: 'b,
        ensures
            r is Owned,
            items_cloned(items_of(*self), items_of(r)),
    {
        match self {
            Cow::Borrowed(b) => Cow::Owned(copy_items(*b)),
            Cow::Owned(o) => Cow::Owned(copy_items(o.as_slice())),
        }
    }

    fn into_cow_static(self) -> (r: Cow<'static, [E]>)
        ensures
            r is Owned,
            items_cloned(items_of(self), items_of(r)),
            self is Owned ==> owned_data(r) == owned_data(self),
    {
        match self {
            Cow::Borrowed(b) => Cow::Owned(copy_items(b)),
            Cow::Owned(o) => Cow::Owned(o),
        }
    }
}

} // verus!
