//! The command queue into the decode loop and the status queue out of it.
//! Each end keeps a ghost record of what crossed it: the commands taken, in
//! the order taken, and the events the queue accepted, in the order sent.
use vstd::prelude::*;
use crossbeam_channel::{Receiver, Sender};
use crate::control::{PlayerActions, PlayerStatus};

verus! {

#[verifier::external_type_specification]
#[verifier::external_body]
#[verifier::reject_recursive_types(T)]
pub struct ExReceiver<T>(Receiver<T>);

#[verifier::external_type_specification]
#[verifier::external_body]
#[verifier::reject_recursive_types(T)]
pub struct ExSender<T>(Sender<T>);

/// Relies on crossbeam_channel::Receiver::len: the number of commands queued
/// at the moment of the call. Other threads may add more at any time, so
/// nothing is stated of the value.
#[verifier::external_body]
fn queued(rx: &Receiver<PlayerActions>) -> (r: usize) {
    rx.len()
}

/// Relies on crossbeam_channel::Receiver::try_recv: the next queued command,
/// without blocking; `None` when none is queued or the queue is disconnected.
#[verifier::external_body]
fn try_take(rx: &Receiver<PlayerActions>) -> (r: Option<PlayerActions>) {
    rx.try_recv().ok()
}

/// Relies on crossbeam_channel::Sender::try_send: queues one status event
/// without blocking; false when the queue is full or its receiving side is
/// gone.
#[verifier::external_body]
fn try_send_status(tx: &Sender<PlayerStatus>, e: PlayerStatus) -> (r: bool) {
    tx.try_send(e).is_ok()
}

/// The receiving end of the command queue, with the commands taken so far.
pub struct CommandInbox {
    rx: Receiver<PlayerActions>,
    taken: Ghost<Seq<PlayerActions>>,
}

impl CommandInbox {
    /// The queue end it reads from.
    pub closed spec fn receiver(&self) -> Receiver<PlayerActions> {
        self.rx
    }

    /// Every command taken from the queue so far, in the order taken.
    pub closed spec fn received(&self) -> Seq<PlayerActions> {
        self.taken@
    }

    /// Reads from `rx`; nothing taken yet.
    pub fn new(rx: Receiver<PlayerActions>) -> (r: CommandInbox)
        ensures
            r.receiver() == rx,
            r.received() == Seq::<PlayerActions>::empty(),
    {
        CommandInbox { rx, taken: Ghost(Seq::empty()) }
    }

    /// Takes the next queued command, if any, without blocking.
    pub fn take(&mut self) -> (r: Option<PlayerActions>)
        ensures
            final(self).receiver() == old(self).receiver(),
            r matches Some(a) ==> final(self).received() == old(self).received().push(a),
            r is None ==> final(self).received() == old(self).received(),
    {
        let r = try_take(&self.rx);
        if let Some(a) = r {
            self.taken = Ghost(self.taken@.push(a));
        }
        r
    }

    /// Takes, in arrival order, the commands queued when the call starts,
    /// never blocking: at most as many as were queued then. A zero-capacity
    /// channel always reports a length of zero, so nothing is ever taken from
    /// one: the command queue is meant to be unbounded.
    pub fn drain(&mut self) -> (r: Vec<PlayerActions>)
        ensures
            final(self).receiver() == old(self).receiver(),
            final(self).received() == old(self).received() + r@,
    {
        let n = queued(&self.rx);
        let mut got: Vec<PlayerActions> = Vec::new();
        let mut i: usize = 0;
        while i < n
            invariant
                i <= n,
                self.receiver() == old(self).receiver(),
                self.received() == old(self).received() + got@,
            decreases n - i,
        {
            match self.take() {
                Some(a) => {
                    proof {
                        assert(old(self).received() + got@.push(a) =~= (old(self).received()
                            + got@).push(a));
                    }
                    got.push(a);
                },
                None => break,
            }
            i = i + 1;
        }
        got
    }
}

/// The sending end of the status queue, with the events it accepted so far.
pub struct StatusOutbox {
    tx: Sender<PlayerStatus>,
    accepted: Ghost<Seq<PlayerStatus>>,
}

impl StatusOutbox {
    /// The queue end it writes to.
    pub closed spec fn sender(&self) -> Sender<PlayerStatus> {
        self.tx
    }

    /// Every event the queue accepted so far, in the order sent.
    pub closed spec fn sent(&self) -> Seq<PlayerStatus> {
        self.accepted@
    }

    /// Writes to `tx`; nothing sent yet.
    pub fn new(tx: Sender<PlayerStatus>) -> (r: StatusOutbox)
        ensures
            r.sender() == tx,
            r.sent() == Seq::<PlayerStatus>::empty(),
    {
        StatusOutbox { tx, accepted: Ghost(Seq::empty()) }
    }

    /// Sends one event without blocking; false when the queue refused it.
    pub fn send(&mut self, e: PlayerStatus) -> (r: bool)
        ensures
            final(self).sender() == old(self).sender(),
            r ==> final(self).sent() == old(self).sent().push(e),
            !r ==> final(self).sent() == old(self).sent(),
    {
        let r = try_send_status(&self.tx, e);
        if r {
            self.accepted = Ghost(self.accepted@.push(e));
        }
        r
    }

    /// Sends the events in order, never blocking; stops at the first one the
    /// queue refuses (full, or its receiving side gone). Returns how many were
    /// sent: exactly the first `r` events.
    pub fn publish(&mut self, events: &Vec<PlayerStatus>) -> (r: usize)
        ensures
            r <= events@.len(),
            final(self).sender() == old(self).sender(),
            final(self).sent() == old(self).sent() + events@.subrange(0, r as int),
    {
        let mut i: usize = 0;
        while i < events.len()
            invariant
                i <= events@.len(),
                self.sender() == old(self).sender(),
                self.sent() == old(self).sent() + events@.subrange(0, i as int),
            decreases events@.len() - i,
        {
            let e = events[i];
            if !self.send(e) {
                return i;
            }
            proof {
                assert(events@.subrange(0, i as int + 1) =~= events@.subrange(0, i as int).push(
                    e,
                ));
            }
            i = i + 1;
        }
        i
    }
}

} // verus!
