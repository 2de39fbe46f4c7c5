use vstd::prelude::*;

verus! {

/// Size of the buffer that each read of the relay fills at most.
pub const RELAY_BUFFER_SIZE: usize = 4096;

/// One of the two sockets of a session.
#[derive(Clone, Copy, Debug, PartialEq, Eq, Structural)]
pub enum Side {
    Client,
    Target,
}

impl Side {
    pub open spec fn spec_other(self) -> Side {
        match self {
            Side::Client => Side::Target,
            Side::Target => Side::Client,
        }
    }

    /// The side that bytes read from this one are written to.
    pub fn other(self) -> (r: Side)
        ensures
            r == self.spec_other(),
    {
        match self {
            Side::Client => Side::Target,
            Side::Target => Side::Client,
        }
    }

    pub open spec fn spec_key(self) -> usize {
        match self {
            Side::Client => 1,
            Side::Target => 2,
        }
    }

    /// The key under which this side is registered for readiness events.
    pub fn key(self) -> (r: usize)
        ensures
            r == self.spec_key(),
    {
        match self {
            Side::Client => 1,
            Side::Target => 2,
        }
    }

    /// The side registered under a readiness key, if any.
    pub fn from_key(key: usize) -> (r: Option<Side>)
        ensures
            key == 1 ==> r == Some(Side::Client),
            key == 2 ==> r == Some(Side::Target),
            key != 1 && key != 2 ==> r is None,
            r matches Some(s) ==> s.spec_key() == key,
    {
        if key == 1 {
            Some(Side::Client)
        } else if key == 2 {
            Some(Side::Target)
        } else {
            None
        }
    }
}

/// What a non-blocking read on one socket gave.
#[derive(Clone, Copy, Debug, PartialEq, Eq, Structural)]
pub enum ReadOutcome {
    /// This many bytes were read; zero means the peer closed its side.
    Data(usize),
    /// Nothing to read yet.
    WouldBlock,
    /// Any other error.
    Failed,
}

/// What the relay asks to be done next.
#[derive(Debug)]
pub enum RelayAction {
    /// Write all of `bytes` to the socket `to` and flush it.
    Forward { to: Side, bytes: Vec<u8> },
    /// Wait for the next readiness event.
    Wait,
    /// The session is over: stop relaying.
    Finish,
}

/// `act` forwards exactly `data` to the side `to`.
pub open spec fn forwards(act: RelayAction, to: Side, data: Seq<u8>) -> bool {
    match act {
        RelayAction::Forward { to: t, bytes } => t == to && bytes@ == data,
        _ => false,
    }
}

/// The decisions of a byte relay between a client and a target socket. It
/// keeps, as ghost state, every byte read from each side and every byte it
/// has handed out to be written to each side.
pub struct Relay {
    finished: bool,
    from_client: Ghost<Seq<u8>>,
    from_target: Ghost<Seq<u8>>,
    to_client: Ghost<Seq<u8>>,
    to_target: Ghost<Seq<u8>>,
}

impl Relay {
    /// Every byte read from `side` so far, in order.
    pub closed spec fn received(&self, side: Side) -> Seq<u8> {
        match side {
            Side::Client => self.from_client@,
            Side::Target => self.from_target@,
        }
    }

    /// Every byte handed out to be written to `side` so far, in order.
    pub closed spec fn forwarded(&self, side: Side) -> Seq<u8> {
        match side {
            Side::Client => self.to_client@,
            Side::Target => self.to_target@,
        }
    }

    pub closed spec fn spec_finished(&self) -> bool {
        self.finished
    }

    /// What has been handed to each side is exactly what was read from the
    /// other.
    pub closed spec fn wf(&self) -> bool {
        &&& self.to_target@ == self.from_client@
        &&& self.to_client@ == self.from_target@
    }

    pub fn new() -> (r: Relay)
        ensures
            r.wf(),
            !r.spec_finished(),
            r.received(Side::Client) == Seq::<u8>::empty(),
            r.received(Side::Target) == Seq::<u8>::empty(),
    {
        Relay {
            finished: false,
            from_client: Ghost(Seq::empty()),
            from_target: Ghost(Seq::empty()),
            to_client: Ghost(Seq::empty()),
            to_target: Ghost(Seq::empty()),
        }
    }

    pub fn is_finished(&self) -> (r: bool)
        ensures
            r == self.spec_finished(),
    {
        self.finished
    }

    /// Decides what follows a read of `side` into `buf`. Bytes read are
    /// forwarded at once to the other side; end of stream or an error ends
    /// the session; a read that would block changes nothing.
    pub fn on_read(&mut self, side: Side, outcome: ReadOutcome, buf: &[u8]) -> (act: RelayAction)
        requires
            old(self).wf(),
            !old(self).spec_finished(),
            outcome matches ReadOutcome::Data(n) ==> n <= buf@.len(),
        ensures
            final(self).wf(),
            match outcome {
                ReadOutcome::Data(n) => if n > 0 {
                    &&& forwards(act, side.spec_other(), buf@.take(n as int))
                    &&& !final(self).spec_finished()
                    &&& final(self).received(side) == old(self).received(side) + buf@.take(n as int)
                    &&& final(self).received(side.spec_other()) == old(self).received(side.spec_other())
                } else {
                    &&& act is Finish
                    &&& final(self).spec_finished()
                    &&& final(self).received(side) == old(self).received(side)
                    &&& final(self).received(side.spec_other()) == old(self).received(side.spec_other())
                },
                ReadOutcome::WouldBlock => {
                    &&& act is Wait
                    &&& !final(self).spec_finished()
                    &&& final(self).received(side) == old(self).received(side)
                    &&& final(self).received(side.spec_other()) == old(self).received(side.spec_other())
                },
                ReadOutcome::Failed => {
                    &&& act is Finish
                    &&& final(self).spec_finished()
                    &&& final(self).received(side) == old(self).received(side)
                    &&& final(self).received(side.spec_other()) == old(self).received(side.spec_other())
                },
            },
    {
        match outcome {
            ReadOutcome::Data(n) => {
                if n == 0 {
                    self.finished = true;
                    return RelayAction::Finish;
                }
                let mut bytes: Vec<u8> = Vec::with_capacity(n);
                let mut i: usize = 0;
                while i < n
                    invariant
                        i <= n,
                        n <= buf@.len(),
                        bytes@ == buf@.take(i as int),
                    decreases n - i,
                {
                    bytes.push(buf[i]);
                    i = i + 1;
                    assert(bytes@ =~= buf@.take(i as int));
                }
                let ghost chunk = buf@.take(n as int);
                match side {
                    Side::Client => {
                        self.from_client = Ghost(self.from_client@ + chunk);
                        self.to_target = Ghost(self.to_target@ + chunk);
                    },
                    Side::Target => {
                        self.from_target = Ghost(self.from_target@ + chunk);
                        self.to_client = Ghost(self.to_client@ + chunk);
                    },
                }
                RelayAction::Forward { to: side.other(), bytes }
            },
            ReadOutcome::WouldBlock => RelayAction::Wait,
            ReadOutcome::Failed => {
                self.finished = true;
                RelayAction::Finish
            },
        }
    }

    /// Decides what follows a write of forwarded bytes: the relay goes on
    /// exactly when the write and its flush succeeded.
    pub fn on_write(&mut self, ok: bool) -> (go_on: bool)
        requires
            old(self).wf(),
            !old(self).spec_finished(),
        ensures
            final(self).wf(),
            go_on == ok,
            final(self).spec_finished() == !ok,
            final(self).received(Side::Client) == old(self).received(Side::Client),
            final(self).received(Side::Target) == old(self).received(Side::Target),
    {
        if !ok {
            self.finished = true;
        }
        ok
    }
}

/// Whatever happens to a relay, the bytes it hands to each side are
/// exactly the bytes read from the other, in the order read, none lost and
/// none repeated.
pub proof fn lemma_relay_forwards_in_order(r: Relay)
    requires
        r.wf(),
    ensures
        r.forwarded(Side::Target) == r.received(Side::Client),
        r.forwarded(Side::Client) == r.received(Side::Target),
{
}

} // verus!
