//! The session coordinator: the lifecycle of one relay session.
//!
//! A session moves through `Idle -> Connecting -> Active -> Ended`. While it
//! is `Active`, exactly one outbound forwarder and one inbound listener run,
//! and the first of the two to terminate — for any reason — ends the session
//! and cancels the other. `Ended` is terminal; a fresh session starts from a
//! new `Idle -> Connecting` cycle after `reset`.
//!
//! The coordinator is a pure state machine over events: the surrounding
//! program performs the connection handshake, spawns and cancels the two
//! tasks, and feeds their terminations back as events. A start request while
//! a session is already underway is rejected — the explicit policy here —
//! rather than queued or allowed to replace the running session.

use vstd::prelude::*;

use crate::queue::Dequeued;
use crate::queue::IngressQueue;

verus! {

/// Where the session stands.
#[derive(Debug, Clone, Copy, PartialEq, Eq, Structural)]
pub enum SessionStatus {
    /// No session underway.
    Idle,
    /// The connection handshake is in flight; no task has started.
    Connecting,
    /// The connection is up and the forwarder and listener both run.
    Active,
    /// The session is over; terminal until `reset`.
    Ended,
}

/// What the surrounding program reports to the coordinator.
#[derive(Debug, Clone, Copy, PartialEq, Eq, Structural)]
pub enum SessionEvent {
    /// The caller asked to start a session.
    StartRequested,
    /// The connection handshake failed; no task was ever started.
    ConnectFailed,
    /// The connection handshake succeeded.
    ConnectSucceeded,
    /// The outbound forwarder terminated, cleanly or with a send error.
    ForwarderStopped,
    /// The inbound listener terminated, cleanly or with a receive error.
    ListenerStopped,
}

/// What the surrounding program must do next.
#[derive(Debug, Clone, Copy, PartialEq, Eq, Structural)]
pub enum SessionAction {
    /// Load the credential and begin the connection handshake.
    BeginConnect,
    /// Spawn the outbound forwarder and the inbound listener, concurrently.
    StartTasks,
    /// Cancel the still-running listener at once and report session end.
    CancelListener,
    /// Cancel the still-running forwarder at once and report session end.
    CancelForwarder,
    /// Surface the connection failure to the caller; nothing was started.
    ReportConnectError,
    /// Refuse the start request: a session is already underway or over.
    RejectStart,
    /// The event is stale for this state; nothing to do.
    Ignore,
}

/// The coordinator's transition function.
pub open spec fn spec_step(s: SessionStatus, e: SessionEvent) -> (SessionStatus, SessionAction) {
    match (s, e) {
        (SessionStatus::Idle, SessionEvent::StartRequested) => (
            SessionStatus::Connecting,
            SessionAction::BeginConnect,
        ),
        (SessionStatus::Connecting, SessionEvent::ConnectFailed) => (
            SessionStatus::Ended,
            SessionAction::ReportConnectError,
        ),
        (SessionStatus::Connecting, SessionEvent::ConnectSucceeded) => (
            SessionStatus::Active,
            SessionAction::StartTasks,
        ),
        (SessionStatus::Active, SessionEvent::ForwarderStopped) => (
            SessionStatus::Ended,
            SessionAction::CancelListener,
        ),
        (SessionStatus::Active, SessionEvent::ListenerStopped) => (
            SessionStatus::Ended,
            SessionAction::CancelForwarder,
        ),
        (_, SessionEvent::StartRequested) => (s, SessionAction::RejectStart),
        (_, _) => (s, SessionAction::Ignore),
    }
}

/// Why a submitted chunk was not accepted.
#[derive(Debug, Clone, Copy, PartialEq, Eq, Structural)]
pub enum SubmitError {
    /// No session is active, so there is no queue to take the chunk.
    NotActive,
    /// The ingress queue is at capacity; backpressure, never a silent drop.
    QueueFull,
}

/// One relay session: the lifecycle state machine together with the ingress
/// queue that exists exactly while the session is active.
pub struct Session {
    status: SessionStatus,
    capacity: usize,
    queue: Option<IngressQueue>,
}

impl Session {
    /// Where the session stands.
    pub closed spec fn spec_status(self) -> SessionStatus {
        self.status
    }

    /// The bound every session's ingress queue is created with.
    pub closed spec fn spec_capacity(self) -> nat {
        self.capacity as nat
    }

    /// The chunks submitted and not yet taken by the forwarder; empty unless
    /// the session is active.
    pub closed spec fn pending_chunks(self) -> Seq<Seq<u8>> {
        match self.queue {
            Some(q) => q.pending(),
            None => Seq::empty(),
        }
    }

    /// The ingress queue exists exactly while the session is active, is open,
    /// within its bound, and bounded by this session's capacity.
    pub closed spec fn wf(self) -> bool {
        &&& match self.queue {
            Some(q) => self.status is Active && q.wf() && !q.is_closed() && q.spec_capacity()
                == self.capacity,
            None => !(self.status is Active),
        }
    }

    /// A fresh, idle session whose queue, once created, holds at most
    /// `capacity` chunks.
    pub fn new(capacity: usize) -> (s: Session)
        ensures
            s.wf(),
            s.spec_status() is Idle,
            s.spec_capacity() == capacity,
            s.pending_chunks() == Seq::<Seq<u8>>::empty(),
    {
        Session { status: SessionStatus::Idle, capacity, queue: None }
    }

    /// Where the session stands right now.
    pub fn status(&self) -> (r: SessionStatus)
        ensures
            r == self.spec_status(),
    {
        self.status
    }

    /// Feeds one event through the transition function. The returned action
    /// is what the caller must perform. Entering `Active` creates the empty
    /// ingress queue; leaving it discards the queue, and with it any chunk
    /// not yet forwarded — the explicit drop on teardown.
    pub fn on_event(&mut self, e: SessionEvent) -> (a: SessionAction)
        requires
            old(self).wf(),
        ensures
            final(self).wf(),
            final(self).spec_capacity() == old(self).spec_capacity(),
            (final(self).spec_status(), a) == spec_step(old(self).spec_status(), e),
            final(self).spec_status() is Active && old(self).spec_status() is Active
                ==> final(self).pending_chunks() == old(self).pending_chunks(),
            final(self).spec_status() is Active && !(old(self).spec_status() is Active)
                ==> final(self).pending_chunks() == Seq::<Seq<u8>>::empty(),
            !(final(self).spec_status() is Active) ==> final(self).pending_chunks()
                == Seq::<Seq<u8>>::empty(),
    {
        let (next, action) = step(self.status, e);
        self.status = next;
        match self.status {
            SessionStatus::Active => {
                if self.queue.is_none() {
                    self.queue = Some(IngressQueue::new(self.capacity));
                }
            },
            _ => {
                self.queue = None;
            },
        }
        action
    }

    /// Accepts one audio chunk from the caller while the session is active,
    /// appending it to the ingress queue in submission order. Rejected with
    /// `NotActive` when no session is active and with `QueueFull` when the
    /// queue is at capacity; a rejected chunk is never taken.
    pub fn submit_chunk(&mut self, chunk: Vec<u8>) -> (r: Result<(), SubmitError>)
        requires
            old(self).wf(),
        ensures
            final(self).wf(),
            final(self).spec_status() == old(self).spec_status(),
            final(self).spec_capacity() == old(self).spec_capacity(),
            !(old(self).spec_status() is Active) ==> r == Err::<(), SubmitError>(
                SubmitError::NotActive,
            ) && final(self).pending_chunks() == old(self).pending_chunks(),
            old(self).spec_status() is Active && old(self).pending_chunks().len() == old(
                self,
            ).spec_capacity() ==> r == Err::<(), SubmitError>(SubmitError::QueueFull)
                && final(self).pending_chunks() == old(self).pending_chunks(),
            old(self).spec_status() is Active && old(self).pending_chunks().len() < old(
                self,
            ).spec_capacity() ==> r == Ok::<(), SubmitError>(())
                && final(self).pending_chunks() == old(self).pending_chunks().push(chunk@),
    {
        match &mut self.queue {
            Some(q) => match q.enqueue(chunk) {
                Ok(()) => Ok(()),
                Err(_) => Err(SubmitError::QueueFull),
            },
            None => Err(SubmitError::NotActive),
        }
    }

    /// Hands the forwarder its next chunk, oldest first, while the session is
    /// active; nothing otherwise.
    pub fn next_chunk(&mut self) -> (r: Option<Vec<u8>>)
        requires
            old(self).wf(),
        ensures
            final(self).wf(),
            final(self).spec_status() == old(self).spec_status(),
            final(self).spec_capacity() == old(self).spec_capacity(),
            old(self).pending_chunks().len() > 0 ==> match r {
                Some(c) => c@ == old(self).pending_chunks()[0] && final(self).pending_chunks()
                    == old(self).pending_chunks().drop_first(),
                None => false,
            },
            old(self).pending_chunks().len() == 0 ==> r is None && final(self).pending_chunks()
                == old(self).pending_chunks(),
    {
        match &mut self.queue {
            Some(q) => match q.dequeue() {
                Dequeued::Chunk(c) => Some(c),
                _ => None,
            },
            None => None,
        }
    }

    /// Returns an ended session to `Idle`, ready for a fresh start request.
    pub fn reset(&mut self)
        requires
            old(self).wf(),
            old(self).spec_status() is Ended,
        ensures
            final(self).wf(),
            final(self).spec_status() is Idle,
            final(self).spec_capacity() == old(self).spec_capacity(),
            final(self).pending_chunks() == Seq::<Seq<u8>>::empty(),
    {
        self.status = SessionStatus::Idle;
        self.queue = None;
    }
}

/// The executable transition function; agrees with `spec_step` exactly.
pub fn step(s: SessionStatus, e: SessionEvent) -> (r: (SessionStatus, SessionAction))
    ensures
        r == spec_step(s, e),
{
    match (s, e) {
        (SessionStatus::Idle, SessionEvent::StartRequested) => (
            SessionStatus::Connecting,
            SessionAction::BeginConnect,
        ),
        (SessionStatus::Connecting, SessionEvent::ConnectFailed) => (
            SessionStatus::Ended,
            SessionAction::ReportConnectError,
        ),
        (SessionStatus::Connecting, SessionEvent::ConnectSucceeded) => (
            SessionStatus::Active,
            SessionAction::StartTasks,
        ),
        (SessionStatus::Active, SessionEvent::ForwarderStopped) => (
            SessionStatus::Ended,
            SessionAction::CancelListener,
        ),
        (SessionStatus::Active, SessionEvent::ListenerStopped) => (
            SessionStatus::Ended,
            SessionAction::CancelForwarder,
        ),
        (_, SessionEvent::StartRequested) => (s, SessionAction::RejectStart),
        (_, _) => (s, SessionAction::Ignore),
    }
}

/// The session the machine is in after a run of events, from `s`.
pub open spec fn run_status(s: SessionStatus, events: Seq<SessionEvent>) -> SessionStatus
    decreases events.len(),
{
    if events.len() == 0 {
        s
    } else {
        run_status(spec_step(s, events[0]).0, events.drop_first())
    }
}

/// The actions a run of events elicits, in order, from `s`.
pub open spec fn run_actions(s: SessionStatus, events: Seq<SessionEvent>) -> Seq<SessionAction>
    decreases events.len(),
{
    if events.len() == 0 {
        Seq::empty()
    } else {
        seq![spec_step(s, events[0]).1] + run_actions(
            spec_step(s, events[0]).0,
            events.drop_first(),
        )
    }
}

/// Joint termination: while the session is active, the termination of either
/// task ends the session at once and the very action of that step cancels the
/// other task — no half-open session survives the first termination. `Ended`
/// is terminal: no later event moves the session anywhere else.
pub proof fn lemma_joint_termination()
    ensures
        spec_step(SessionStatus::Active, SessionEvent::ForwarderStopped) == (
            SessionStatus::Ended,
            SessionAction::CancelListener,
        ),
        spec_step(SessionStatus::Active, SessionEvent::ListenerStopped) == (
            SessionStatus::Ended,
            SessionAction::CancelForwarder,
        ),
        forall|e: SessionEvent| (#[trigger] spec_step(SessionStatus::Ended, e)).0
            == SessionStatus::Ended,
{
}

/// Only a successful connection ever starts the forwarder and listener.
pub proof fn lemma_start_needs_connect(s: SessionStatus, e: SessionEvent)
    ensures
        spec_step(s, e).1 == SessionAction::StartTasks ==> e == SessionEvent::ConnectSucceeded
            && s == SessionStatus::Connecting,
        spec_step(s, e).0 == SessionStatus::Active ==> s == SessionStatus::Active || (s
            == SessionStatus::Connecting && e == SessionEvent::ConnectSucceeded),
{
}

/// Idle-fail isolation: over any run of events in which the connection never
/// succeeds — in particular one where it fails during `Connecting` — no step
/// ever asks for the forwarder and listener to be started.
pub proof fn lemma_idle_fail_isolation(s: SessionStatus, events: Seq<SessionEvent>)
    requires
        forall|i: int| 0 <= i < events.len() ==> events[i] != SessionEvent::ConnectSucceeded,
    ensures
        forall|i: int| 0 <= i < run_actions(s, events).len() ==> run_actions(s, events)[i]
            != SessionAction::StartTasks,
    decreases events.len(),
{
    if events.len() > 0 {
        lemma_start_needs_connect(s, events[0]);
        lemma_idle_fail_isolation(spec_step(s, events[0]).0, events.drop_first());
        assert forall|i: int| 0 <= i < run_actions(s, events).len() implies run_actions(
            s,
            events,
        )[i] != SessionAction::StartTasks by {
            if i > 0 {
                assert(run_actions(s, events)[i] == run_actions(
                    spec_step(s, events[0]).0,
                    events.drop_first(),
                )[i - 1]);
            }
        }
    }
}

} // verus!
