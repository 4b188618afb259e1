//! Pings: the messages, and when each one was sent.

use std::collections::HashMap;

use vstd::prelude::*;

use crate::wrapped::{PingId, Tick, WrappedTime};

verus! {

/// What the client sends to measure the way to the server and back.
#[derive(Clone, Copy, Debug, PartialEq, Eq)]
pub struct TimeSyncPingMessage {
    /// Number of the ping.
    pub id: PingId,
    /// The client's tick when it sent the ping.
    pub tick: Tick,
    /// When the server got the ping, once it did.
    pub ping_received_time: Option<WrappedTime>,
}

/// What the server answers.
#[derive(Clone, Copy, Debug, PartialEq, Eq)]
pub struct TimeSyncPongMessage {
    /// Number of the ping that is answered.
    pub ping_id: PingId,
    /// When the server got the ping, on its own clock.
    pub ping_received_time: WrappedTime,
    /// When the server sent the pong, on its own clock.
    pub pong_sent_time: WrappedTime,
}

/// What a [`PingStore`] knows.
#[verifier::ext_equal]
pub struct Pings {
    /// Number of the next ping.
    pub next: PingId,
    /// When each ping that awaits its pong was sent, by number.
    pub sent: Map<u16, WrappedTime>,
}

impl Pings {
    /// No ping has been sent yet.
    pub open spec fn none() -> Pings {
        Pings { next: PingId(0), sent: Map::empty() }
    }

    /// A ping has been sent at `now`, under the next number.
    pub open spec fn pushed(self, now: WrappedTime) -> Pings {
        Pings { next: self.next.successor(), sent: self.sent.insert(self.next.0, now) }
    }

    /// Ping `id` awaits no pong any more.
    pub open spec fn removed(self, id: PingId) -> Pings {
        Pings { sent: self.sent.remove(id.0), ..self }
    }

    /// When ping `id` was sent, if it awaits its pong.
    pub open spec fn time_of(self, id: PingId) -> Option<WrappedTime> {
        if self.sent.contains_key(id.0) {
            Some(self.sent[id.0])
        } else {
            None
        }
    }
}

/// The pings that await their pongs. A number that comes round again replaces its last use.
#[derive(Debug)]
pub struct PingStore {
    next: PingId,
    sent: HashMap<u16, WrappedTime>,
}

impl View for PingStore {
    type V = Pings;

    closed spec fn view(&self) -> Pings {
        Pings { next: self.next, sent: self.sent@ }
    }
}

impl PingStore {
    /// A store for which no ping has been sent yet.
    pub fn new() -> (r: PingStore)
        ensures
            r@ == Pings::none(),
    {
        PingStore { next: PingId(0), sent: HashMap::new() }
    }

    /// Records a ping that is sent at `now`, and returns its number.
    pub fn push_new(&mut self, now: WrappedTime) -> (r: PingId)
        ensures
            r == old(self)@.next,
            final(self)@ == old(self)@.pushed(now),
    {
        broadcast use vstd::std_specs::hash::group_hash_axioms;

        let id = self.next;
        self.next = id.next();
        self.sent.insert(id.0, now);
        id
    }

    /// Forgets a ping, and returns when it was sent.
    pub fn remove(&mut self, id: PingId) -> (r: Option<WrappedTime>)
        ensures
            r == old(self)@.time_of(id),
            final(self)@ == old(self)@.removed(id),
    {
        broadcast use vstd::std_specs::hash::group_hash_axioms;

        self.sent.remove(&id.0)
    }
}

} // verus!
