//! The control loop of the client as a state machine.
//!
//! The caller owns the reading source, the network and the clock. It does
//! what the machine tells it to do (produce a batch, upload one, sleep) and
//! reports what happened; the machine keeps the buffer, the backoff and the
//! throttle, and decides what comes next.
//!
//! A cancellation is observed where an iteration begins. While the caller
//! waits for a batch it ends the loop at once. While an upload is in flight
//! or a backoff sleep runs it is noted and ends the loop when that is over.

use crate::backoff::{Backoff, BackoffState};
use crate::buffer::{keep_newest, ReadingBuffer};
use crate::reading::{copy_readings, TiltReading};
use crate::throttle::{ThrottleState, UploadThrottle};
use crate::time::duration_nanos;
use std::time::Duration;
use vstd::prelude::*;

verus! {

/// The wait after a scan that failed, in nanoseconds: five seconds,
/// whatever the backoff says.
pub open spec fn scan_retry_nanos() -> nat {
    5_000_000_000
}

/// Where the loop stands.
#[derive(Debug, Clone, Copy, PartialEq, Eq, Structural)]
pub enum Phase {
    /// Between iterations: before the first one, or asleep after a failure.
    Idle,
    /// Waiting for the reading source to deliver a batch.
    Producing,
    /// Waiting for the outcome of an upload.
    Uploading,
    /// The loop has ended. Nothing leads out of this state.
    Shutdown,
}

/// What the caller reports.
#[derive(Debug)]
pub enum Event {
    /// The termination signal arrived.
    Cancelled,
    /// A sleep is over, or the loop is to begin.
    Wake,
    /// The reading source delivered a batch.
    CycleComplete(Vec<TiltReading>),
    /// The scan failed in a way that the next cycle may not.
    ScanFailed,
    /// The sink accepted the batch.
    UploadSucceeded,
    /// The upload failed, at the transport or at the sink.
    UploadFailed,
}

/// What the caller does next.
#[derive(Debug)]
pub enum Action {
    /// Run one cycle of the reading source and report its batch.
    Produce,
    /// Upload this batch and report the outcome.
    Upload(Vec<TiltReading>),
    /// Sleep this long, then report `Wake`.
    Sleep(Duration),
    /// End the loop.
    Exit,
    /// Nothing new: go on with what is under way.
    Stay,
}

/// An event as a value of the model.
pub enum EventModel {
    Cancelled,
    Wake,
    CycleComplete(Seq<TiltReading>),
    ScanFailed,
    UploadSucceeded,
    UploadFailed,
}

/// An action as a value of the model; a sleep counts in nanoseconds.
pub enum ActionModel {
    Produce,
    Upload(Seq<TiltReading>),
    Sleep(nat),
    Exit,
    Stay,
}

impl View for Event {
    type V = EventModel;

    open spec fn view(&self) -> EventModel {
        match self {
            Event::Cancelled => EventModel::Cancelled,
            Event::Wake => EventModel::Wake,
            Event::CycleComplete(batch) => EventModel::CycleComplete(batch@),
            Event::ScanFailed => EventModel::ScanFailed,
            Event::UploadSucceeded => EventModel::UploadSucceeded,
            Event::UploadFailed => EventModel::UploadFailed,
        }
    }
}

impl View for Action {
    type V = ActionModel;

    open spec fn view(&self) -> ActionModel {
        match self {
            Action::Produce => ActionModel::Produce,
            Action::Upload(batch) => ActionModel::Upload(batch@),
            Action::Sleep(delay) => ActionModel::Sleep(duration_nanos(*delay)),
            Action::Exit => ActionModel::Exit,
            Action::Stay => ActionModel::Stay,
        }
    }
}

/// The loop's state.
pub struct OrchestratorState {
    pub phase: Phase,
    /// Whether a cancellation was noted and waits for the iteration to end.
    pub cancelled: bool,
    /// The readings of failed uploads, oldest first.
    pub buffered: Seq<TiltReading>,
    pub capacity: nat,
    pub backoff: BackoffState,
    /// The throttle, where one is configured.
    pub throttle: Option<ThrottleState>,
    /// The batch whose upload is under way.
    pub in_flight: Seq<TiltReading>,
}

impl OrchestratorState {
    /// The state before the loop begins.
    pub open spec fn start(
        capacity: nat,
        backoff: BackoffState,
        throttle: Option<ThrottleState>,
    ) -> OrchestratorState {
        OrchestratorState {
            phase: Phase::Idle,
            cancelled: false,
            buffered: Seq::empty(),
            capacity,
            backoff,
            throttle,
            in_flight: Seq::empty(),
        }
    }

    /// The buffer keeps its bound.
    pub open spec fn wf(self) -> bool {
        self.buffered.len() <= self.capacity
    }

    /// What of a new batch goes into the next upload: all of it, or what
    /// the throttle lets through at `now`.
    pub open spec fn fresh(self, batch: Seq<TiltReading>, now: nat) -> Seq<TiltReading> {
        match self.throttle {
            Some(throttle) => throttle.admitted(batch, now),
            None => batch,
        }
    }

    /// The batch that is uploaded after the source delivered `batch` at
    /// `now`: the buffered backlog first, then what is fresh.
    pub open spec fn merged(self, batch: Seq<TiltReading>, now: nat) -> Seq<TiltReading> {
        self.buffered + self.fresh(batch, now)
    }

    /// The state after an event that arrived at `now`.
    pub open spec fn next(self, event: EventModel, now: nat) -> OrchestratorState {
        match (self.phase, event) {
            (Phase::Shutdown, _) => self,
            (Phase::Producing, EventModel::Cancelled) => OrchestratorState {
                phase: Phase::Shutdown,
                cancelled: true,
                ..self
            },
            (_, EventModel::Cancelled) => OrchestratorState { cancelled: true, ..self },
            (Phase::Idle, EventModel::Wake) => OrchestratorState {
                phase: if self.cancelled {
                    Phase::Shutdown
                } else {
                    Phase::Producing
                },
                ..self
            },
            (Phase::Producing, EventModel::CycleComplete(batch)) => {
                let merged = self.merged(batch, now);
                let throttle = match self.throttle {
                    Some(throttle) => Some(throttle.after(batch, now)),
                    None => None,
                };
                if merged.len() == 0 {
                    OrchestratorState { buffered: Seq::empty(), throttle, ..self }
                } else {
                    OrchestratorState {
                        phase: Phase::Uploading,
                        buffered: Seq::empty(),
                        throttle,
                        in_flight: merged,
                        ..self
                    }
                }
            },
            (Phase::Producing, EventModel::ScanFailed) => OrchestratorState {
                phase: Phase::Idle,
                ..self
            },
            (Phase::Uploading, EventModel::UploadSucceeded) => OrchestratorState {
                phase: if self.cancelled {
                    Phase::Shutdown
                } else {
                    Phase::Producing
                },
                backoff: self.backoff.reset(),
                in_flight: Seq::empty(),
                ..self
            },
            (Phase::Uploading, EventModel::UploadFailed) => OrchestratorState {
                phase: Phase::Idle,
                buffered: keep_newest(self.buffered + self.in_flight, self.capacity),
                backoff: self.backoff.advance(),
                in_flight: Seq::empty(),
                ..self
            },
            _ => self,
        }
    }

    /// What the caller is told after an event that arrived at `now`.
    pub open spec fn action(self, event: EventModel, now: nat) -> ActionModel {
        match (self.phase, event) {
            (Phase::Shutdown, _) => ActionModel::Exit,
            (Phase::Producing, EventModel::Cancelled) => ActionModel::Exit,
            (_, EventModel::Cancelled) => ActionModel::Stay,
            (Phase::Idle, EventModel::Wake) => if self.cancelled {
                ActionModel::Exit
            } else {
                ActionModel::Produce
            },
            (Phase::Producing, EventModel::CycleComplete(batch)) => {
                let merged = self.merged(batch, now);
                if merged.len() == 0 {
                    ActionModel::Produce
                } else {
                    ActionModel::Upload(merged)
                }
            },
            (Phase::Producing, EventModel::ScanFailed) => ActionModel::Sleep(scan_retry_nanos()),
            (Phase::Uploading, EventModel::UploadSucceeded) => if self.cancelled {
                ActionModel::Exit
            } else {
                ActionModel::Produce
            },
            (Phase::Uploading, EventModel::UploadFailed) => ActionModel::Sleep(
                self.backoff.current,
            ),
            _ => ActionModel::Stay,
        }
    }
}

/// The control loop's state and decisions.
pub struct Orchestrator {
    phase: Phase,
    cancelled: bool,
    buffer: ReadingBuffer,
    backoff: Backoff,
    throttle: Option<UploadThrottle>,
    in_flight: Vec<TiltReading>,
}

impl View for Orchestrator {
    type V = OrchestratorState;

    closed spec fn view(&self) -> OrchestratorState {
        OrchestratorState {
            phase: self.phase,
            cancelled: self.cancelled,
            buffered: self.buffer@,
            capacity: self.buffer.capacity(),
            backoff: self.backoff@,
            throttle: match self.throttle {
                Some(throttle) => Some(throttle@),
                None => None,
            },
            in_flight: self.in_flight@,
        }
    }
}

impl Orchestrator {
    /// A loop that has not begun: nothing buffered, the backoff as given,
    /// with or without a throttle. Its first event is `Wake`.
    pub fn new(buffer_capacity: usize, backoff: Backoff, throttle: Option<UploadThrottle>) -> (
        orchestrator: Orchestrator
    )
        ensures
            orchestrator@ == OrchestratorState::start(
                buffer_capacity as nat,
                backoff@,
                match throttle {
                    Some(throttle) => Some(throttle@),
                    None => None,
                },
            ),
            orchestrator@.wf(),
    {
        Orchestrator {
            phase: Phase::Idle,
            cancelled: false,
            buffer: ReadingBuffer::new(buffer_capacity),
            backoff,
            throttle,
            in_flight: Vec::new(),
        }
    }

    /// Where the loop stands.
    pub fn phase(&self) -> (phase: Phase)
        ensures
            phase == self@.phase,
    {
        self.phase
    }

    /// How many readings wait in the buffer.
    pub fn buffered(&self) -> (n: usize)
        ensures
            n == self@.buffered.len(),
    {
        self.buffer.len()
    }

    /// Takes one event that arrived when the monotonic clock read `now` and
    /// says what the caller does next.
    pub fn step(&mut self, event: Event, now: Duration) -> (action: Action)
        ensures
            final(self)@.wf(),
            final(self)@ == old(self)@.next(event@, duration_nanos(now)),
            action@ == old(self)@.action(event@, duration_nanos(now)),
    {
        proof {
            use_type_invariant(&self.buffer);
        }
        match self.phase {
            Phase::Shutdown => Action::Exit,
            Phase::Idle => match event {
                Event::Cancelled => {
                    self.cancelled = true;
                    Action::Stay
                },
                Event::Wake => {
                    if self.cancelled {
                        self.phase = Phase::Shutdown;
                        Action::Exit
                    } else {
                        self.phase = Phase::Producing;
                        Action::Produce
                    }
                },
                _ => Action::Stay,
            },
            Phase::Producing => match event {
                Event::Cancelled => {
                    self.cancelled = true;
                    self.phase = Phase::Shutdown;
                    Action::Exit
                },
                Event::CycleComplete(batch) => {
                    let mut fresh = match &mut self.throttle {
                        Some(throttle) => throttle.filter_batch(batch, now),
                        None => batch,
                    };
                    let mut merged = self.buffer.drain_all();
                    merged.append(&mut fresh);
                    if merged.len() == 0 {
                        Action::Produce
                    } else {
                        let upload = copy_readings(merged.as_slice());
                        self.in_flight = merged;
                        self.phase = Phase::Uploading;
                        Action::Upload(upload)
                    }
                },
                Event::ScanFailed => {
                    self.phase = Phase::Idle;
                    Action::Sleep(Duration::new(5, 0))
                },
                _ => Action::Stay,
            },
            Phase::Uploading => match event {
                Event::Cancelled => {
                    self.cancelled = true;
                    Action::Stay
                },
                Event::UploadSucceeded => {
                    self.backoff.reset();
                    self.in_flight = Vec::new();
                    if self.cancelled {
                        self.phase = Phase::Shutdown;
                        Action::Exit
                    } else {
                        self.phase = Phase::Producing;
                        Action::Produce
                    }
                },
                Event::UploadFailed => {
                    self.buffer.push_batch(self.in_flight.as_slice());
                    self.in_flight = Vec::new();
                    let delay = self.backoff.next_delay();
                    self.phase = Phase::Idle;
                    Action::Sleep(delay)
                },
                _ => Action::Stay,
            },
        }
    }
}

/// The buffer keeps its bound through every event, the shutdown state is
/// never left, and it is entered only when a cancellation arrives or after
/// one was noted.
pub proof fn lemma_next_keeps_shape(state: OrchestratorState, event: EventModel, now: nat)
    requires
        state.wf(),
    ensures
        state.next(event, now).wf(),
        state.next(event, now).capacity == state.capacity,
        state.phase == Phase::Shutdown ==> state.next(event, now) == state && state.action(
            event,
            now,
        ) == ActionModel::Exit,
        state.phase != Phase::Shutdown && state.next(event, now).phase == Phase::Shutdown ==> (
        event is Cancelled || state.cancelled),
        state.action(event, now) is Exit <==> state.next(event, now).phase == Phase::Shutdown,
{
}

/// Two uploads fail one after the other and a third succeeds. Without a
/// throttle, and with room in the buffer for what failed, each upload
/// carries everything that failed before it, oldest first, followed by the
/// new batch; the waits are the first wait and then its multiple; and after
/// the success nothing is buffered and the backoff is where it started.
pub proof fn lemma_backlog_is_sent_again(
    begin: OrchestratorState,
    first: Seq<TiltReading>,
    second: Seq<TiltReading>,
    third: Seq<TiltReading>,
    now: nat,
)
    requires
        begin.phase == Phase::Producing,
        !begin.cancelled,
        begin.buffered.len() == 0,
        begin.throttle is None,
        begin.backoff.current == begin.backoff.initial,
        first.len() > 0,
        first.len() + second.len() <= begin.capacity,
    ensures
        ({
            let failed_once = begin.next(EventModel::CycleComplete(first), now).next(
                EventModel::UploadFailed,
                now,
            );
            let retrying = failed_once.next(EventModel::Wake, now);
            let failed_twice = retrying.next(EventModel::CycleComplete(second), now).next(
                EventModel::UploadFailed,
                now,
            );
            let last = failed_twice.next(EventModel::Wake, now);
            let done = last.next(EventModel::CycleComplete(third), now).next(
                EventModel::UploadSucceeded,
                now,
            );
            &&& begin.action(EventModel::CycleComplete(first), now) == ActionModel::Upload(first)
            &&& begin.next(EventModel::CycleComplete(first), now).action(
                EventModel::UploadFailed,
                now,
            ) == ActionModel::Sleep(begin.backoff.initial)
            &&& failed_once.buffered == first
            &&& retrying.action(EventModel::CycleComplete(second), now) == ActionModel::Upload(
                first + second,
            )
            &&& retrying.next(EventModel::CycleComplete(second), now).action(
                EventModel::UploadFailed,
                now,
            ) == ActionModel::Sleep(begin.backoff.advance().current)
            &&& failed_twice.buffered == first + second
            &&& last.action(EventModel::CycleComplete(third), now) == ActionModel::Upload(
                first + second + third,
            )
            &&& done.buffered.len() == 0
            &&& done.in_flight.len() == 0
            &&& done.backoff.current == begin.backoff.initial
            &&& done.phase == Phase::Producing
        }),
{
}

} // verus!
