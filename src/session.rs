//! The protocol steps: send, receive, end, and the marker that hands control
//! back to a lender.
use vstd::prelude::*;

use core::marker::PhantomData;
use kanal::{Receiver, Sender};

use crate::guard::PanicOnDrop;
use crate::split::{is_split_of, Restricted, Split};
use crate::transport::{channel_recv, channel_send, TransportError};

verus! {

/// One channel operation that a session still owes.
pub enum Step {
    Sending,
    Receiving,
}

/// A value whose type describes the obligations left in a protocol.
pub trait Session {
    /// The operations still owed, in the order they must happen.
    spec fn steps(&self) -> Seq<Step>;

    /// Whether this chain ends by handing control back to a lender
    /// (a borrowed prefix) rather than by completing the protocol.
    spec fn returns_to_lender(&self) -> bool;
}

/// Send a `T`, then continue as `Cont`.
#[verifier::reject_recursive_types(T)]
pub struct Snd<T, Cont>(Sender<T>, Cont, PanicOnDrop);

/// Receive a `T`, then continue as `Cont`.
#[verifier::reject_recursive_types(T)]
pub struct Recv<T, Cont>(Receiver<T>, Cont, PanicOnDrop);

/// The protocol is complete: nothing is owed.
pub struct End;

/// A borrowed prefix is exhausted: control belongs back to the lender.
pub struct Return<'a>(pub(crate) PhantomData<&'a ()>);

impl Session for End {
    open spec fn steps(&self) -> Seq<Step> {
        Seq::empty()
    }

    open spec fn returns_to_lender(&self) -> bool {
        false
    }
}

impl<'a> Session for Return<'a> {
    open spec fn steps(&self) -> Seq<Step> {
        Seq::empty()
    }

    open spec fn returns_to_lender(&self) -> bool {
        true
    }
}

impl<T, Cont: Session> Session for Snd<T, Cont> {
    closed spec fn steps(&self) -> Seq<Step> {
        seq![Step::Sending] + self.1.steps()
    }

    closed spec fn returns_to_lender(&self) -> bool {
        self.1.returns_to_lender()
    }
}

impl<T, Cont: Session> Session for Recv<T, Cont> {
    closed spec fn steps(&self) -> Seq<Step> {
        seq![Step::Receiving] + self.1.steps()
    }

    closed spec fn returns_to_lender(&self) -> bool {
        self.1.returns_to_lender()
    }
}

impl<T, Cont: Session> Snd<T, Cont> {
    /// The send comes first; the continuation's steps follow it.
    pub proof fn lemma_steps(self)
        ensures
            self.steps() == seq![Step::Sending] + self.continuation().steps(),
            self.returns_to_lender() == self.continuation().returns_to_lender(),
    {
    }
}

impl<T, Cont: Session> Recv<T, Cont> {
    /// The receive comes first; the continuation's steps follow it.
    pub proof fn lemma_steps(self)
        ensures
            self.steps() == seq![Step::Receiving] + self.continuation().steps(),
            self.returns_to_lender() == self.continuation().returns_to_lender(),
    {
    }
}

impl<T, Cont> Snd<T, Cont> {
    /// What remains once the send has happened.
    pub closed spec fn continuation(self) -> Cont {
        self.1
    }

    /// The endpoint the payload goes out on.
    pub closed spec fn endpoint(self) -> Sender<T> {
        self.0
    }

    /// A step that sends on `sender`, then continues as `cont`, carrying a
    /// freshly armed guard.
    pub fn new(sender: Sender<T>, cont: Cont) -> (r: Self)
        ensures
            r.endpoint() == sender,
            r.continuation() == cont,
    {
        Snd(sender, cont, PanicOnDrop)
    }

    /// Sends `payload` on the step's endpoint, blocking until the channel
    /// takes it. On success the guard is disarmed and the continuation is
    /// handed back; a closed channel is reported as a [`TransportError`].
    pub fn send(self, payload: T) -> (r: Result<Cont, TransportError>)
        ensures
            r matches Ok(c) ==> c == self.continuation(),
    {
        let Snd(sender, cont, guard) = self;
        match channel_send(&sender, payload) {
            Ok(()) => {
                guard.disarm();
                Ok(cont)
            },
            Err(e) => Err(TransportError::from_send_error(e)),
        }
    }
}

impl<T, Cont> Recv<T, Cont> {
    /// What remains once the receive has happened.
    pub closed spec fn continuation(self) -> Cont {
        self.1
    }

    /// The endpoint the value comes in on.
    pub closed spec fn endpoint(self) -> Receiver<T> {
        self.0
    }

    /// A step that receives on `receiver`, then continues as `cont`, carrying
    /// a freshly armed guard.
    pub fn new(receiver: Receiver<T>, cont: Cont) -> (r: Self)
        ensures
            r.endpoint() == receiver,
            r.continuation() == cont,
    {
        Recv(receiver, cont, PanicOnDrop)
    }

    /// Receives a value on the step's endpoint, blocking until one arrives.
    /// On success the guard is disarmed and the value is handed back with the
    /// continuation; a closed channel is reported as a [`TransportError`].
    pub fn recv(self) -> (r: Result<(T, Cont), TransportError>)
        ensures
            r matches Ok(p) ==> p.1 == self.continuation(),
    {
        let Recv(receiver, cont, guard) = self;
        match channel_recv(&receiver) {
            Ok(value) => {
                guard.disarm();
                Ok((value, cont))
            },
            Err(e) => Err(TransportError::from_receive_error(e)),
        }
    }
}

/// Lends out the send together with a prefix `P` of the continuation.
///
/// The lent step keeps this step's endpoint and guard; its continuation and
/// the remainder are exactly what splitting the continuation returns, so every
/// deeper step keeps its endpoint as well.
impl<T, P: Session, Cont: Split<P>> Split<Snd<T, P>> for Snd<T, Cont> {
    type Remainder = Cont::Remainder;

    fn split(self) -> (r: (Snd<T, P>, Cont::Remainder))
        ensures
            Snd::<T, P>::endpoint(r.0) == self.endpoint(),
            is_split_of(self.continuation(), Snd::<T, P>::continuation(r.0), r.1),
            call_ensures(Cont::split, (self.continuation(),), (Snd::<T, P>::continuation(r.0), r.1)),
    {
        let Snd(sender, cont, guard) = self;
        let (prefix, remainder) = cont.split();
        let lent = Snd(sender, prefix, guard);
        assert(lent.steps() + remainder.steps() =~= self.steps());
        (lent, remainder)
    }
}

/// Lends out nothing: the whole send step stays with the lender.
impl<T, Cont: Session> Split<Return<'static>> for Snd<T, Cont> {
    type Remainder = Self;

    fn split(self) -> (r: (Return<'static>, Self))
        ensures
            ({
                let rest: Snd<T, Cont> = r.1;
                rest == self
            }),
    {
        (Return(PhantomData), self)
    }
}

/// Lends out the receive together with a prefix `P` of the continuation.
///
/// The lent step keeps this step's endpoint and guard; its continuation and
/// the remainder are exactly what splitting the continuation returns, so every
/// deeper step keeps its endpoint as well.
impl<T, P: Session, Cont: Split<P>> Split<Recv<T, P>> for Recv<T, Cont> {
    type Remainder = Cont::Remainder;

    fn split(self) -> (r: (Recv<T, P>, Cont::Remainder))
        ensures
            Recv::<T, P>::endpoint(r.0) == self.endpoint(),
            is_split_of(self.continuation(), Recv::<T, P>::continuation(r.0), r.1),
            call_ensures(Cont::split, (self.continuation(),), (Recv::<T, P>::continuation(r.0), r.1)),
    {
        let Recv(receiver, cont, guard) = self;
        let (prefix, remainder) = cont.split();
        let lent = Recv(receiver, prefix, guard);
        assert(lent.steps() + remainder.steps() =~= self.steps());
        (lent, remainder)
    }
}

/// Lends out nothing: the whole receive step stays with the lender.
impl<T, Cont: Session> Split<Return<'static>> for Recv<T, Cont> {
    type Remainder = Self;

    fn split(self) -> (r: (Return<'static>, Self))
        ensures
            ({
                let rest: Recv<T, Cont> = r.1;
                rest == self
            }),
    {
        (Return(PhantomData), self)
    }
}

impl<'a, U, Cont: Restricted<'a>> Restricted<'a> for Snd<U, Cont> {
    type Unrestricted = Snd<U, Cont::Unrestricted>;

    fn from_unrestricted<T>(unrestricted: Snd<U, Cont::Unrestricted>, anchor: &'a T) -> (r: Self)
        ensures
            Snd::<U, Cont>::endpoint(r) == unrestricted.endpoint(),
            Snd::<U, Cont>::continuation(r).steps() == unrestricted.continuation().steps(),
    {
        let Snd(sender, cont, guard) = unrestricted;
        Snd(sender, Cont::from_unrestricted(cont, anchor), guard)
    }
}

impl<'a, U, Cont: Restricted<'a>> Restricted<'a> for Recv<U, Cont> {
    type Unrestricted = Recv<U, Cont::Unrestricted>;

    fn from_unrestricted<T>(unrestricted: Recv<U, Cont::Unrestricted>, anchor: &'a T) -> (r: Self)
        ensures
            Recv::<U, Cont>::endpoint(r) == unrestricted.endpoint(),
            Recv::<U, Cont>::continuation(r).steps() == unrestricted.continuation().steps(),
    {
        let Recv(receiver, cont, guard) = unrestricted;
        Recv(receiver, Cont::from_unrestricted(cont, anchor), guard)
    }
}

} // verus!
