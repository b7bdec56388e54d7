//! Lending a prefix of a session out while the rest of it waits.
use vstd::prelude::*;

use core::marker::PhantomData;

use crate::session::{End, Return, Session};

verus! {

/// `prefix` followed by `rest` owes exactly what `whole` owes; the prefix
/// hands control back to its lender, and the rest ends as `whole` did.
pub open spec fn is_split_of<W: Session, P: Session, R: Session>(whole: W, prefix: P, rest: R) -> bool {
    &&& prefix.steps() + rest.steps() == whole.steps()
    &&& prefix.returns_to_lender()
    &&& rest.returns_to_lender() == whole.returns_to_lender()
}

/// Splitting at any prefix length `k` partitions the steps: the prefix owes
/// the first `k` sends and receives of the whole, the rest owes the others,
/// in the same order. Which endpoint each lent step uses is stated step by
/// step by the `Split` impls of [`Snd`](crate::Snd) and [`Recv`](crate::Recv):
/// a lent step keeps the endpoint of the step it came from, and an empty split
/// hands the original value back as the remainder.
pub proof fn lemma_split_partitions<W: Session, P: Session, R: Session>(whole: W, prefix: P, rest: R)
    requires
        is_split_of(whole, prefix, rest),
    ensures
        prefix.steps().len() <= whole.steps().len(),
        prefix.steps() == whole.steps().take(prefix.steps().len() as int),
        rest.steps() == whole.steps().skip(prefix.steps().len() as int),
{
    let k = prefix.steps().len() as int;
    assert(prefix.steps() =~= whole.steps().take(k));
    assert(rest.steps() =~= whole.steps().skip(k));
}

/// Splitting off an empty prefix lends nothing: the prefix is the bare
/// [`Return`] marker and the rest owes what the whole owed.
pub proof fn lemma_empty_split<W: Session, R: Session>(whole: W, prefix: Return<'static>, rest: R)
    requires
        is_split_of(whole, prefix, rest),
    ensures
        prefix.steps().len() == 0,
        rest.steps() == whole.steps(),
        rest.returns_to_lender() == whole.returns_to_lender(),
{
    assert(rest.steps() =~= whole.steps());
}

/// Splits a session into a borrowed prefix of shape `Into`, which ends in
/// [`Return`], and the remainder that follows that prefix.
///
/// The steps of the prefix followed by the steps of the remainder are
/// exactly the steps of the original: each guard moves to the part that owns
/// its step, and none is disarmed by the split.
pub trait Split<Into: Session>: Session + Sized {
    type Remainder: Session;

    /// Splits `self`; using the remainder before the prefix has been used up
    /// breaks the protocol, which is what [`Restricted`] is for.
    fn split(self) -> (r: (Into, Self::Remainder))
        ensures
            is_split_of(self, r.0, r.1),
    ;
}

/// Ties a borrowed prefix to the lifetime `'a` of an anchor, conventionally
/// the remainder it was split from, so that the remainder cannot be used while
/// the prefix is still alive.
pub trait Restricted<'a>: Session + Sized {
    type Unrestricted: Session;

    /// The same prefix, now bound to the borrow of `anchor`.
    fn from_unrestricted<T>(unrestricted: Self::Unrestricted, anchor: &'a T) -> (r: Self)
        ensures
            r.steps() == unrestricted.steps(),
            r.returns_to_lender() == unrestricted.returns_to_lender(),
    ;
}

/// A finished session can only lend an empty prefix.
impl Split<Return<'static>> for End {
    type Remainder = End;

    fn split(self) -> (r: (Return<'static>, End)) {
        (Return(PhantomData), self)
    }
}

impl<'a> Restricted<'a> for Return<'a> {
    type Unrestricted = Return<'static>;

    fn from_unrestricted<T>(unrestricted: Return<'static>, anchor: &'a T) -> (r: Return<'a>) {
        Return(PhantomData)
    }
}

} // verus!
