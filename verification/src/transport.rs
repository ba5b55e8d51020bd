//! The outbound side of the connection to the relay: a bounded queue of text
//! frames. The library fills it; the application takes the frames out, oldest
//! first, and writes them to the socket. Nothing here parses a frame.

use crate::bridge::{Delivery, EventBus};
use vstd::prelude::*;

verus! {

/// How many frames a queue made by [`WebsocketService::new`] holds.
pub const DEFAULT_CAPACITY: usize = 1000;

/// Why a frame was not taken into the queue.
#[derive(Clone, Copy, Debug, PartialEq, Eq, Structural)]
pub enum SendFailure {
    /// The queue holds as many frames as it may.
    QueueFull,
    /// The connection is not open.
    Closed,
}

/// The queue of frames on their way to the relay.
#[derive(Debug)]
pub struct WebsocketService {
    tx: Vec<String>,
    capacity: usize,
    open: bool,
}

/// The queue as a mathematical value: the frames waiting, oldest first, how
/// many may wait, and whether the connection is open.
pub struct WebsocketServiceView {
    pub pending: Seq<Seq<char>>,
    pub capacity: nat,
    pub open: bool,
}

impl WebsocketServiceView {
    /// The queue after `send`, and what `send` answers.
    pub open spec fn send(self, text: Seq<char>) -> (WebsocketServiceView, Result<(), SendFailure>) {
        if !self.open {
            (self, Err(SendFailure::Closed))
        } else if self.pending.len() >= self.capacity {
            (self, Err(SendFailure::QueueFull))
        } else {
            (WebsocketServiceView { pending: self.pending.push(text), ..self }, Ok(()))
        }
    }

    /// No more frames wait than may.
    pub open spec fn within_capacity(self) -> bool {
        self.pending.len() <= self.capacity
    }

    /// The queue after `send`: the frame is dropped where it cannot be taken.
    pub open spec fn offer(self, text: Seq<char>) -> WebsocketServiceView {
        self.send(text).0
    }
}

impl View for WebsocketService {
    type V = WebsocketServiceView;

    closed spec fn view(&self) -> WebsocketServiceView {
        WebsocketServiceView {
            pending: Seq::new(self.tx@.len(), |i: int| self.tx@[i]@),
            capacity: self.capacity as nat,
            open: self.open,
        }
    }
}

impl WebsocketService {
    /// An open, empty queue for [`DEFAULT_CAPACITY`] frames.
    pub fn new() -> (service: Self)
        ensures
            service@ == (WebsocketServiceView {
                pending: Seq::empty(),
                capacity: DEFAULT_CAPACITY as nat,
                open: true,
            }),
            service@.within_capacity(),
    {
        Self::with_capacity(DEFAULT_CAPACITY)
    }

    /// An open, empty queue for `capacity` frames.
    pub fn with_capacity(capacity: usize) -> (service: Self)
        ensures
            service@ == (WebsocketServiceView {
                pending: Seq::empty(),
                capacity: capacity as nat,
                open: true,
            }),
            service@.within_capacity(),
    {
        let service = WebsocketService { tx: Vec::new(), capacity, open: true };
        assert(service@.pending =~= Seq::empty());
        service
    }

    /// Takes a frame into the queue, without waiting and without a second
    /// try: a closed connection or a full queue refuses it, and the queue
    /// stays as it was.
    pub fn send(&mut self, text: String) -> (r: Result<(), SendFailure>)
        ensures
            (final(self)@, r) == old(self)@.send(text@),
            old(self)@.within_capacity() ==> final(self)@.within_capacity(),
    {
        if !self.open {
            Err(SendFailure::Closed)
        } else if self.tx.len() >= self.capacity {
            Err(SendFailure::QueueFull)
        } else {
            self.tx.push(text);
            assert(self@.pending =~= old(self)@.pending.push(text@));
            Ok(())
        }
    }

    /// Takes the oldest waiting frame out of the queue, if there is one.
    pub fn next_frame(&mut self) -> (frame: Option<String>)
        ensures
            final(self)@.capacity == old(self)@.capacity,
            final(self)@.open == old(self)@.open,
            old(self)@.within_capacity() ==> final(self)@.within_capacity(),
            match frame {
                Some(text) => old(self)@.pending.len() > 0 && text@ == old(self)@.pending[0]
                    && final(self)@.pending == old(self)@.pending.skip(1),
                None => old(self)@.pending.len() == 0 && final(self)@ == old(self)@,
            },
    {
        if self.tx.len() == 0 {
            None
        } else {
            let text = self.tx.remove(0);
            assert(self@.pending =~= old(self)@.pending.skip(1));
            Some(text)
        }
    }

    /// How many frames wait.
    pub fn pending(&self) -> (n: usize)
        ensures
            n == self@.pending.len(),
    {
        self.tx.len()
    }

    /// How many frames may wait.
    pub fn capacity(&self) -> (n: usize)
        ensures
            n == self@.capacity,
    {
        self.capacity
    }

    pub fn is_open(&self) -> (open: bool)
        ensures
            open == self@.open,
    {
        self.open
    }

    /// Marks the connection as gone. The frames that wait stay where they are;
    /// no further frame is taken in.
    pub fn close(&mut self)
        ensures
            final(self)@ == (WebsocketServiceView { open: false, ..old(self)@ }),
    {
        self.open = false;
    }

    /// Hands a text that came in from the relay to the bridge, as it came: the
    /// deliveries are those of [`EventBus::publish`].
    pub fn on_frame(&self, bus: &EventBus, raw: &str) -> (out: Vec<Delivery>)
        ensures
            bus@.delivers(raw@, out@),
    {
        bus.publish(raw)
    }
}

/// A queue that is within its capacity stays so, whatever is sent.
pub proof fn send_keeps_capacity(queue: WebsocketServiceView, text: Seq<char>)
    requires
        queue.within_capacity(),
    ensures
        queue.send(text).0.within_capacity(),
        queue.send(text).1 is Ok <==> queue.open && queue.pending.len() < queue.capacity,
{
}

} // verus!
