//! Bookkeeping of calls in flight: which serial numbers await a reply, where a
//! received packet goes, and how serial numbers advance.
use vstd::prelude::*;
use std::collections::HashMap;
use crate::protocol::{Virnetmessageheader, Virnetmessagetype};

verus! {

broadcast use vstd::std_specs::hash::group_hash_axioms;

/// The channels of the calls that await a reply, keyed by serial number.
pub struct ChannelRegistry<T> {
    channels: HashMap<u32, T>,
}

/// Where the receiver puts a packet it has read.
#[derive(Clone, Copy, Debug, PartialEq, Eq, Structural)]
pub enum Route {
    /// To the channel of the call with the packet's serial number.
    Deliver,
    /// To the queue of unsolicited events.
    Event,
    /// Nowhere: no call waits for it and it is no event.
    Discard,
}

/// Why a call could not be started.
#[derive(Clone, Copy, Debug, PartialEq, Eq, Structural)]
pub enum CallError {
    /// The receiver has stopped, so no reply could ever arrive.
    ReceiverNotStarted,
}

/// Where a packet with the given header goes, given the serials that await a reply.
pub open spec fn route_of<T>(pending: Map<u32, T>, h: Virnetmessageheader) -> Route {
    if pending.contains_key(h.serial) {
        Route::Deliver
    } else if h.type_ == Virnetmessagetype::VirNetMessage {
        Route::Event
    } else {
        Route::Discard
    }
}

impl<T> View for ChannelRegistry<T> {
    type V = Map<u32, T>;

    closed spec fn view(&self) -> Map<u32, T> {
        self.channels@
    }
}

impl<T> ChannelRegistry<T> {
    /// A registry with no call in flight.
    pub fn new() -> (r: Self)
        ensures
            r@ == Map::<u32, T>::empty(),
    {
        ChannelRegistry { channels: HashMap::new() }
    }

    /// Records the channel on which the reply to `serial` is to be delivered.
    pub fn add_channel(&mut self, serial: u32, channel: T)
        ensures
            final(self)@ == old(self)@.insert(serial, channel),
    {
        self.channels.insert(serial, channel);
    }

    /// Forgets the channel of `serial`.
    pub fn remove_channel(&mut self, serial: u32)
        ensures
            final(self)@ == old(self)@.remove(serial),
    {
        self.channels.remove(&serial);
    }

    /// The channel of `serial`, if a call with that serial is in flight.
    pub fn channel(&self, serial: u32) -> (r: Option<&T>)
        ensures
            self@.contains_key(serial) ==> (r matches Some(c) && *c == self@[serial]),
            !self@.contains_key(serial) ==> r is None,
    {
        self.channels.get(&serial)
    }

    /// Whether a call with `serial` is in flight.
    pub fn is_pending(&self, serial: u32) -> (r: bool)
        ensures
            r == self@.contains_key(serial),
    {
        self.channels.contains_key(&serial)
    }

    /// Starts a call: refused when the receiver no longer runs, otherwise the
    /// channel is recorded under the call's serial.
    pub fn open_call(&mut self, serial: u32, channel: T, receiver_running: bool) -> (r: Result<
        (),
        CallError,
    >)
        ensures
            receiver_running ==> r is Ok && final(self)@ == old(self)@.insert(serial, channel),
            !receiver_running ==> r == Err::<(), CallError>(CallError::ReceiverNotStarted)
                && final(self)@ == old(self)@,
    {
        if !receiver_running {
            return Err(CallError::ReceiverNotStarted);
        }
        self.add_channel(serial, channel);
        Ok(())
    }

    /// Ends the wait for a reply: an ordinary call gives up its channel, a
    /// stream keeps it for the pieces that follow.
    pub fn finish_call(&mut self, serial: u32, stream: bool)
        ensures
            stream ==> final(self)@ == old(self)@,
            !stream ==> final(self)@ == old(self)@.remove(serial),
    {
        if !stream {
            self.remove_channel(serial);
        }
    }

    /// Where the receiver puts a packet with this header.
    pub fn route(&self, header: &Virnetmessageheader) -> (r: Route)
        ensures
            r == route_of(self@, *header),
    {
        if self.is_pending(header.serial) {
            Route::Deliver
        } else if header.type_ == Virnetmessagetype::VirNetMessage {
            Route::Event
        } else {
            Route::Discard
        }
    }
}

/// The serial number that a counter at `prev` yields after adding `value`.
pub fn serial_add(prev: u32, value: u32) -> (r: u32)
    requires
        prev + value <= u32::MAX,
    ensures
        r == prev + value,
{
    prev + value
}

/// A packet that answers a call in flight reaches that call and no other
/// place, whatever its type.
pub proof fn lemma_reply_reaches_caller<T>(pending: Map<u32, T>, h: Virnetmessageheader)
    requires
        pending.contains_key(h.serial),
    ensures
        route_of(pending, h) == Route::Deliver,
{
}

/// Once an ordinary call has finished, a late packet with its serial is no
/// longer delivered to it: it becomes an event if it is one, and is dropped
/// otherwise.
pub proof fn lemma_finished_call_not_delivered<T>(
    pending: Map<u32, T>,
    h: Virnetmessageheader,
)
    ensures
        route_of(pending.remove(h.serial), h) == (if h.type_ == Virnetmessagetype::VirNetMessage {
            Route::Event
        } else {
            Route::Discard
        }),
{
}

/// Starting a call and then finishing it, when it is not a stream, leaves the
/// calls in flight as they were, apart from the serial it used.
pub proof fn lemma_open_finish_restores<T>(pending: Map<u32, T>, serial: u32, channel: T)
    ensures
        pending.insert(serial, channel).remove(serial) == pending.remove(serial),
        !pending.contains_key(serial) ==> pending.insert(serial, channel).remove(serial)
            == pending,
{
    assert(pending.insert(serial, channel).remove(serial) =~= pending.remove(serial));
    if !pending.contains_key(serial) {
        assert(pending.remove(serial) =~= pending);
    }
}

} // verus!
