//! The server accept loop. Accepted raw connections each get an independent
//! TLS handshake task, so one slow or hostile handshake never blocks the
//! acceptance of further connections; a failed handshake is logged and its
//! candidate connection discarded, never fatal to the listener. The loop
//! stops only when the accept source itself ends. The waiting and task
//! spawning are the shell's; the decisions are here.

use vstd::prelude::*;

verus! {

/// One thing the loop can observe: a newly accepted raw connection, the
/// completion of a pending handshake (with a negotiated stream or an error),
/// an error from the accept source, or its end.
#[derive(Debug, Clone, PartialEq, Eq)]
pub enum AcceptEvent<IO, S> {
    NewConn(IO),
    HandshakeOk(S),
    HandshakeFailed(String),
    IncomingFailed(String),
    IncomingEnded,
}

/// What the loop does in answer: start an independent handshake task for the
/// raw connection, yield a negotiated stream downstream, log the error and
/// discard the candidate, or stop.
#[derive(Debug, Clone, PartialEq, Eq)]
pub enum AcceptAction<IO, S> {
    SpawnHandshake(IO),
    Yield(S),
    Discard(String),
    Stop,
}

/// What the loop waits on next: only new accepts when no handshake is
/// pending, else both sources, raced fairly so that neither starves the
/// other.
#[derive(Debug, Clone, Copy, PartialEq, Eq, Structural)]
pub enum WaitMode {
    NewAcceptsOnly,
    AcceptsAndHandshakes,
}

/// The loop's state: how many handshake tasks are pending, and whether the
/// accept source has ended.
#[derive(Debug, Clone, Copy, PartialEq, Eq, Structural)]
pub struct AcceptLoop {
    pub pending_handshakes: usize,
    pub done: bool,
}

/// The step relation of the loop. A new connection always spawns a handshake
/// task, however many are already pending: the fan-out is unbounded by
/// design, so a stalled handshake cannot block acceptance. A completed
/// handshake is yielded or discarded; an accept-source error is discarded;
/// only the end of the accept source stops the loop.
pub open spec fn accept_step<IO, S>(pre: AcceptLoop, event: AcceptEvent<IO, S>) -> (
    AcceptLoop,
    AcceptAction<IO, S>,
) {
    match event {
        AcceptEvent::NewConn(io) => (
            AcceptLoop { pending_handshakes: (pre.pending_handshakes + 1) as usize, done: false },
            AcceptAction::SpawnHandshake(io),
        ),
        AcceptEvent::HandshakeOk(s) => (
            AcceptLoop { pending_handshakes: (pre.pending_handshakes - 1) as usize, done: false },
            AcceptAction::Yield(s),
        ),
        AcceptEvent::HandshakeFailed(m) => (
            AcceptLoop { pending_handshakes: (pre.pending_handshakes - 1) as usize, done: false },
            AcceptAction::Discard(m),
        ),
        AcceptEvent::IncomingFailed(m) => (
            AcceptLoop { pending_handshakes: pre.pending_handshakes, done: false },
            AcceptAction::Discard(m),
        ),
        AcceptEvent::IncomingEnded => (
            AcceptLoop { pending_handshakes: pre.pending_handshakes, done: true },
            AcceptAction::Stop,
        ),
    }
}

impl AcceptLoop {
    /// A handshake-completion event can only arrive while a handshake is
    /// pending, and the machine must have room to count one more task.
    pub open spec fn accepts_event<IO, S>(&self, event: AcceptEvent<IO, S>) -> bool {
        &&& !self.done
        &&& (event matches AcceptEvent::NewConn(_) ==> self.pending_handshakes < usize::MAX)
        &&& (event matches AcceptEvent::HandshakeOk(_) ==> self.pending_handshakes > 0)
        &&& (event matches AcceptEvent::HandshakeFailed(_) ==> self.pending_handshakes > 0)
    }

    /// The loop as it starts: nothing pending, running.
    pub fn new() -> (l: AcceptLoop)
        ensures
            l.pending_handshakes == 0,
            !l.done,
    {
        AcceptLoop { pending_handshakes: 0, done: false }
    }

    /// What to wait on next: only new accepts while no handshake is pending,
    /// else a fair race of new accepts against handshake completions. Both
    /// modes listen for new accepts, whatever is pending.
    pub fn wait_mode(&self) -> (m: WaitMode)
        ensures
            m == (if self.pending_handshakes == 0 {
                WaitMode::NewAcceptsOnly
            } else {
                WaitMode::AcceptsAndHandshakes
            }),
    {
        if self.pending_handshakes == 0 {
            WaitMode::NewAcceptsOnly
        } else {
            WaitMode::AcceptsAndHandshakes
        }
    }

    /// Take one step: observe an event, move to the next state and answer
    /// with the action the shell performs.
    pub fn step<IO, S>(&mut self, event: AcceptEvent<IO, S>) -> (action: AcceptAction<IO, S>)
        requires
            old(self).accepts_event(event),
        ensures
            (*final(self), action) == accept_step(*old(self), event),
    {
        match event {
            AcceptEvent::NewConn(io) => {
                self.pending_handshakes = self.pending_handshakes + 1;
                AcceptAction::SpawnHandshake(io)
            },
            AcceptEvent::HandshakeOk(s) => {
                self.pending_handshakes = self.pending_handshakes - 1;
                AcceptAction::Yield(s)
            },
            AcceptEvent::HandshakeFailed(m) => {
                self.pending_handshakes = self.pending_handshakes - 1;
                AcceptAction::Discard(m)
            },
            AcceptEvent::IncomingFailed(m) => AcceptAction::Discard(m),
            AcceptEvent::IncomingEnded => {
                self.done = true;
                AcceptAction::Stop
            },
        }
    }
}

/// Liveness of the accept loop. However many handshakes are pending (even one
/// that never completes), a new connection is still admitted and given its
/// own handshake task, and the loop keeps running; a failed handshake or a
/// failed accept is discarded without stopping the loop. Only the end of the
/// accept source stops it.
pub proof fn law_accept_loop_liveness<IO, S>(st: AcceptLoop, io: IO, m: String)
    requires
        !st.done,
        st.pending_handshakes < usize::MAX,
    ensures
        accept_step(st, AcceptEvent::<IO, S>::NewConn(io)).1 == AcceptAction::<IO,
            S,
        >::SpawnHandshake(io),
        !accept_step(st, AcceptEvent::<IO, S>::NewConn(io)).0.done,
        accept_step(st, AcceptEvent::<IO, S>::HandshakeFailed(m)).1 == AcceptAction::<IO,
            S,
        >::Discard(m),
        !accept_step(st, AcceptEvent::<IO, S>::HandshakeFailed(m)).0.done,
        !accept_step(st, AcceptEvent::<IO, S>::IncomingFailed(m)).0.done,
{
}

} // verus!
