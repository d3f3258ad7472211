//! The hand-off slot through which credentials reach a driver that was
//! started without them.
//!
//! The slot is a bounded channel of `embassy_sync` with room for a single
//! value. What it holds is known to the proofs only through the contracts
//! of the three channel operations used here, which are taken on trust.

use crate::credentials::Credentials;
use embassy_sync::blocking_mutex::raw::CriticalSectionRawMutex;
use embassy_sync::channel::Channel;
use vstd::prelude::*;

verus! {

/// Number of credentials that can be in flight at once.
pub const HAND_OFF_CAPACITY: usize = 1;

/// A single-slot mailbox for credentials, first in, first out. It is held
/// by one owner, who sends and receives through it in turn.
///
/// The slot is an `embassy_sync::channel::Channel` guarded by a critical
/// section. The channel is hidden from the verifier, which has no notion
/// of the lock inside it.
#[verifier::external_body]
pub struct HandOff {
    channel: Channel<CriticalSectionRawMutex, Credentials, 1>,
}

/// The credentials that wait in the channel of `slot`, oldest first, each
/// as identifier and secret.
pub uninterp spec fn hand_off_contents(slot: HandOff) -> Seq<(Seq<char>, Seq<char>)>;

/// Calls `Channel::new`, which makes a channel with an empty queue.
#[verifier::external_body]
fn channel_new() -> (slot: HandOff)
    ensures
        hand_off_contents(slot) == Seq::<(Seq<char>, Seq<char>)>::empty(),
{
    HandOff { channel: Channel::new() }
}

/// Calls `Channel::try_send`. With room in the queue the message goes to
/// its back; with a full queue the queue stays as it is and the message
/// comes back inside the error.
#[verifier::external_body]
fn channel_try_send(slot: &mut HandOff, credentials: Credentials) -> (outcome: Result<
    (),
    Credentials,
>)
    ensures
        outcome is Ok <==> hand_off_contents(*old(slot)).len() < HAND_OFF_CAPACITY,
        outcome is Ok ==> hand_off_contents(*final(slot)) == hand_off_contents(*old(slot)).push(
            credentials@,
        ),
        outcome matches Err(back) ==> back@ == credentials@ && hand_off_contents(*final(slot))
            == hand_off_contents(*old(slot)),
{
    match slot.channel.try_send(credentials) {
        Ok(()) => Ok(()),
        Err(embassy_sync::channel::TrySendError::Full(back)) => Err(back),
    }
}

/// Calls `Channel::try_receive`. The message at the front of the queue
/// leaves it and is returned; an empty queue stays empty and gives
/// nothing.
#[verifier::external_body]
fn channel_try_receive(slot: &mut HandOff) -> (taken: Option<Credentials>)
    ensures
        taken is Some <==> hand_off_contents(*old(slot)).len() > 0,
        taken matches Some(credentials) ==> credentials@ == hand_off_contents(*old(slot))[0]
            && hand_off_contents(*final(slot)) == hand_off_contents(*old(slot)).drop_first(),
        taken is None ==> hand_off_contents(*final(slot)) == hand_off_contents(*old(slot)),
{
    match slot.channel.try_receive() {
        Ok(credentials) => Some(credentials),
        Err(embassy_sync::channel::TryReceiveError::Empty) => None,
    }
}

/// Whether a slot that holds `held` takes one more value.
pub open spec fn accepts(held: Seq<(Seq<char>, Seq<char>)>) -> bool {
    held.len() < HAND_OFF_CAPACITY
}

/// What a slot holds after `value` was sent into it: a full slot is left
/// as it is.
pub open spec fn after_send(held: Seq<(Seq<char>, Seq<char>)>, value: (Seq<char>, Seq<char>)) -> Seq<
    (Seq<char>, Seq<char>),
> {
    if accepts(held) {
        held.push(value)
    } else {
        held
    }
}

/// The value that the next receive takes out of a slot, if there is one.
pub open spec fn front(held: Seq<(Seq<char>, Seq<char>)>) -> Option<(Seq<char>, Seq<char>)> {
    if held.len() > 0 {
        Some(held[0])
    } else {
        None
    }
}

/// What a slot holds after a receive.
pub open spec fn after_receive(held: Seq<(Seq<char>, Seq<char>)>) -> Seq<(Seq<char>, Seq<char>)> {
    if held.len() > 0 {
        held.drop_first()
    } else {
        held
    }
}

impl View for HandOff {
    type V = Seq<(Seq<char>, Seq<char>)>;

    /// The credentials in flight, oldest first.
    open spec fn view(&self) -> Seq<(Seq<char>, Seq<char>)> {
        hand_off_contents(*self)
    }
}

impl HandOff {
    /// An empty slot.
    pub fn new() -> (slot: HandOff)
        ensures
            slot@ == Seq::<(Seq<char>, Seq<char>)>::empty(),
    {
        channel_new()
    }

    /// Puts credentials into the slot if it is empty. A slot that is taken
    /// keeps what it holds and hands the new credentials back: the sender
    /// has to wait and try again.
    pub fn try_send(&mut self, credentials: Credentials) -> (outcome: Result<(), Credentials>)
        ensures
            outcome is Ok <==> accepts(old(self)@),
            final(self)@ == after_send(old(self)@, credentials@),
            outcome matches Err(back) ==> back@ == credentials@,
    {
        channel_try_send(self, credentials)
    }

    /// Takes the oldest credentials out of the slot, if it holds any.
    pub fn try_receive(&mut self) -> (taken: Option<Credentials>)
        ensures
            taken is Some <==> old(self)@.len() > 0,
            taken matches Some(credentials) ==> front(old(self)@) == Some(credentials@),
            final(self)@ == after_receive(old(self)@),
    {
        channel_try_receive(self)
    }
}

/// Single in-flight credentials. A second value that is sent before the
/// first was received is refused and displaces nothing; the first value
/// is then received, once; after that the second value can be sent and is
/// received in its turn.
pub proof fn law_first_send_survives(first: (Seq<char>, Seq<char>), second: (Seq<char>, Seq<char>))
    ensures
        ({
            let empty = Seq::<(Seq<char>, Seq<char>)>::empty();
            let taken = after_send(empty, first);
            &&& accepts(empty)
            &&& !accepts(taken)
            &&& after_send(taken, second) == taken
            &&& front(after_send(taken, second)) == Some(first)
            &&& after_receive(taken) == empty
            &&& front(after_receive(taken)) is None
            &&& front(after_send(after_receive(taken), second)) == Some(second)
        }),
{
    let empty = Seq::<(Seq<char>, Seq<char>)>::empty();
    let taken = after_send(empty, first);
    assert(taken.drop_first() =~= empty);
}

/// What was sent is received in the order of sending: the front of a slot
/// is never changed by a send, accepted or refused.
pub proof fn law_send_keeps_front(held: Seq<(Seq<char>, Seq<char>)>, value: (Seq<char>, Seq<char>))
    requires
        held.len() > 0,
    ensures
        front(after_send(held, value)) == front(held),
{
}

} // verus!
