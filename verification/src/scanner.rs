//! One scan cycle: the decisions of a bounded listening window.
//!
//! The radio, the event feed and the clock belong to the caller. The caller
//! carries out one command at a time and reports what came of it; the cycle
//! decides what happens next and collects the readings. Within one window a
//! later observation of an identity replaces the earlier one.
//!
//! The cycle reads two clocks through its caller: a monotonic one, as the
//! duration since a fixed origin, by which the window ends, and the wall
//! clock, with which readings are stamped.

use crate::decoder::{decode_advertisement, decoded, APPLE_COMPANY_ID};
use crate::identity::{all_colors, TiltColor, TILT_COLOR_COUNT};
use crate::reading::TiltReading;
use crate::time::{capped_sum, duration_nanos, saturating_sum, utc_now, Timestamp};
use std::collections::HashMap;
use std::time::Duration;
use vstd::prelude::*;

verus! {

broadcast use vstd::std_specs::hash::group_hash_axioms;

/// The payload that an advertisement carries under the hydrometers'
/// manufacturer identifier, if it carries one.
pub open spec fn vendor_bytes(manufacturer_data: Map<u16, Vec<u8>>) -> Option<Seq<u8>> {
    if manufacturer_data.contains_key(APPLE_COMPANY_ID) {
        Some(manufacturer_data[APPLE_COMPANY_ID]@)
    } else {
        None
    }
}

/// The reading that an advertisement observed at `observed_at` yields.
pub open spec fn advertised_reading(
    manufacturer_data: Map<u16, Vec<u8>>,
    observed_at: Timestamp,
) -> Option<TiltReading> {
    match vendor_bytes(manufacturer_data) {
        Some(bytes) => decoded(bytes, observed_at),
        None => None,
    }
}

/// The readings of a window in table order of their identities, for the
/// first `n` identities of the table.
pub open spec fn batch_of(window: Map<TiltColor, TiltReading>, n: nat) -> Seq<TiltReading>
    decreases n,
{
    if n == 0 {
        Seq::empty()
    } else {
        let color = all_colors()[n - 1];
        let earlier = batch_of(window, (n - 1) as nat);
        if window.contains_key(color) {
            earlier.push(window[color])
        } else {
            earlier
        }
    }
}

/// Whether every reading of a window is filed under its own identity.
pub open spec fn keyed_by_color(window: Map<TiltColor, TiltReading>) -> bool {
    forall|c: TiltColor| #[trigger] window.contains_key(c) ==> window[c].color == c
}

/// The readings of one window: for each identity the most recent one.
pub struct ScanWindow {
    slots: [Option<TiltReading>; 8],
}

impl View for ScanWindow {
    type V = Map<TiltColor, TiltReading>;

    closed spec fn view(&self) -> Map<TiltColor, TiltReading> {
        Map::new(
            |c: TiltColor| self.slots@[c.ordinal() as int] is Some,
            |c: TiltColor| self.slots@[c.ordinal() as int].unwrap(),
        )
    }
}

impl ScanWindow {
    /// A window in which nothing was observed yet.
    pub fn new() -> (window: ScanWindow)
        ensures
            window@ == Map::<TiltColor, TiltReading>::empty(),
    {
        let window = ScanWindow { slots: [None; 8] };
        window
    }

    /// Files a reading under its identity, in place of an earlier one.
    pub fn observe(&mut self, reading: TiltReading)
        ensures
            final(self)@ == old(self)@.insert(reading.color, reading),
    {
        let slot = reading.color.index();
        self.slots[slot] = Some(reading);
    }

    /// The most recent reading of an identity in this window.
    pub fn latest(&self, color: TiltColor) -> (reading: Option<TiltReading>)
        ensures
            reading == (if self@.contains_key(color) {
                Some(self@[color])
            } else {
                None
            }),
    {
        self.slots[color.index()]
    }

    /// How many identities were observed.
    pub fn len(&self) -> (n: usize)
        ensures
            n == batch_of(self@, 8).len(),
            n <= TILT_COLOR_COUNT,
    {
        self.to_batch().len()
    }

    /// The window's readings as one batch: one reading for each observed
    /// identity, in table order.
    pub fn to_batch(&self) -> (batch: Vec<TiltReading>)
        ensures
            batch@ == batch_of(self@, 8),
            batch@.len() <= TILT_COLOR_COUNT,
    {
        let mut batch: Vec<TiltReading> = Vec::new();
        let mut i: usize = 0;
        while i < TILT_COLOR_COUNT
            invariant
                i <= TILT_COLOR_COUNT,
                batch@ == batch_of(self@, i as nat),
                batch@.len() <= i,
            decreases TILT_COLOR_COUNT - i,
        {
            match self.slots[i] {
                Some(reading) => {
                    batch.push(reading);
                },
                None => {},
            }
            i += 1;
        }
        batch
    }
}

/// Where a scan cycle stands.
#[derive(Debug, Clone, Copy, PartialEq, Eq, Structural)]
pub enum ScanPhase {
    /// Stopping whatever discovery an earlier cycle left behind.
    Resetting,
    /// Starting discovery.
    Starting,
    /// Collecting advertisements until the deadline.
    Listening,
    /// Stopping discovery at the end of the window.
    Stopping,
    /// The batch is ready.
    Finished,
    /// Discovery did not start; the cycle yields no batch.
    Failed,
}

/// What the caller does next.
#[derive(Debug, Clone, Copy, PartialEq, Eq, Structural)]
pub enum ScanCommand {
    /// Stop discovery and report the outcome; a failure is not fatal.
    StopDiscovery,
    /// Start discovery and report the outcome.
    StartDiscovery,
    /// Wait for the next feed event or the deadline, whichever is first.
    AwaitEvent,
    /// Take the batch.
    Deliver,
    /// Report a recoverable scan error, wait the fixed delay, try again.
    Abort,
}

/// What the caller reports.
#[derive(Debug)]
pub enum ScanInput {
    /// A stop of discovery went through, or did not.
    Stopped(bool),
    /// A start of discovery went through, or did not.
    Started(bool),
    /// An advertisement with its vendor payloads by manufacturer.
    Advertisement(HashMap<u16, Vec<u8>>),
    /// Any other feed event.
    OtherEvent,
    /// The feed ended.
    EndOfStream,
    /// The window's deadline was reached.
    Deadline,
}

impl ScanPhase {
    /// The command that belongs to a phase.
    pub open spec fn command(self) -> ScanCommand {
        match self {
            ScanPhase::Resetting => ScanCommand::StopDiscovery,
            ScanPhase::Starting => ScanCommand::StartDiscovery,
            ScanPhase::Listening => ScanCommand::AwaitEvent,
            ScanPhase::Stopping => ScanCommand::StopDiscovery,
            ScanPhase::Finished => ScanCommand::Deliver,
            ScanPhase::Failed => ScanCommand::Abort,
        }
    }

    /// The phase after an input. An input that does not answer the phase's
    /// command changes nothing.
    pub open spec fn next(self, input: ScanInput) -> ScanPhase {
        match (self, input) {
            (ScanPhase::Resetting, ScanInput::Stopped(_)) => ScanPhase::Starting,
            (ScanPhase::Starting, ScanInput::Started(true)) => ScanPhase::Listening,
            (ScanPhase::Starting, ScanInput::Started(false)) => ScanPhase::Failed,
            (ScanPhase::Listening, ScanInput::EndOfStream) => ScanPhase::Stopping,
            (ScanPhase::Listening, ScanInput::Deadline) => ScanPhase::Stopping,
            (ScanPhase::Stopping, ScanInput::Stopped(_)) => ScanPhase::Finished,
            _ => self,
        }
    }
}

/// The state of a cycle: its phase, what it has collected, and its window.
pub struct ScanState {
    pub phase: ScanPhase,
    pub window: Map<TiltColor, TiltReading>,
    /// How long the cycle listens, in nanoseconds.
    pub length: nat,
    /// The monotonic clock reading at which the window ends, in
    /// nanoseconds, once discovery has started.
    pub deadline: Option<nat>,
}

impl ScanState {
    /// The state of a cycle that has just begun and will listen for
    /// `length` nanoseconds.
    pub open spec fn start(length: nat) -> ScanState {
        ScanState { phase: ScanPhase::Resetting, window: Map::empty(), length, deadline: None }
    }

    /// The state after an input that arrived when the monotonic clock read
    /// `now` and the wall clock `observed_at`. The window opens when
    /// discovery starts and ends its length later. Only an advertisement
    /// that arrives while the cycle listens, carries a payload of the
    /// hydrometers' manufacturer and decodes changes what is collected.
    pub open spec fn step(self, input: ScanInput, now: nat, observed_at: Timestamp) -> ScanState {
        let window = match (self.phase, input) {
            (ScanPhase::Listening, ScanInput::Advertisement(data)) => match advertised_reading(
                data@,
                observed_at,
            ) {
                Some(reading) => self.window.insert(reading.color, reading),
                None => self.window,
            },
            _ => self.window,
        };
        let deadline = match (self.phase, input) {
            (ScanPhase::Starting, ScanInput::Started(true)) => Some(capped_sum(now, self.length)),
            _ => self.deadline,
        };
        ScanState { phase: self.phase.next(input), window, deadline, ..self }
    }
}

/// One scan cycle.
pub struct ScanCycle {
    phase: ScanPhase,
    window: ScanWindow,
    length: Duration,
    deadline: Option<Duration>,
}

impl View for ScanCycle {
    type V = ScanState;

    closed spec fn view(&self) -> ScanState {
        ScanState {
            phase: self.phase,
            window: self.window@,
            length: duration_nanos(self.length),
            deadline: match self.deadline {
                Some(deadline) => Some(duration_nanos(deadline)),
                None => None,
            },
        }
    }
}

/// The vendor payload of an advertisement, if it carries one of the
/// hydrometers' manufacturer.
pub fn vendor_payload(manufacturer_data: &HashMap<u16, Vec<u8>>) -> (payload: Option<&Vec<u8>>)
    ensures
        match payload {
            Some(bytes) => vendor_bytes(manufacturer_data@) == Some(bytes@),
            None => vendor_bytes(manufacturer_data@) is None,
        },
{
    manufacturer_data.get(&APPLE_COMPANY_ID)
}

impl ScanCycle {
    /// A new cycle that will listen for `length`. Its first command is to
    /// stop any earlier discovery.
    pub fn begin(length: Duration) -> (cycle: ScanCycle)
        ensures
            cycle@ == ScanState::start(duration_nanos(length)),
    {
        ScanCycle { phase: ScanPhase::Resetting, window: ScanWindow::new(), length, deadline: None }
    }

    /// The monotonic clock reading at which the window ends; `None` until
    /// discovery has started.
    pub fn deadline(&self) -> (deadline: Option<Duration>)
        ensures
            match deadline {
                Some(at) => self@.deadline == Some(duration_nanos(at)),
                None => self@.deadline is None,
            },
    {
        self.deadline
    }

    /// Where the cycle stands.
    pub fn phase(&self) -> (phase: ScanPhase)
        ensures
            phase == self@.phase,
    {
        self.phase
    }

    /// What the caller does next.
    pub fn command(&self) -> (command: ScanCommand)
        ensures
            command == self@.phase.command(),
    {
        match self.phase {
            ScanPhase::Resetting => ScanCommand::StopDiscovery,
            ScanPhase::Starting => ScanCommand::StartDiscovery,
            ScanPhase::Listening => ScanCommand::AwaitEvent,
            ScanPhase::Stopping => ScanCommand::StopDiscovery,
            ScanPhase::Finished => ScanCommand::Deliver,
            ScanPhase::Failed => ScanCommand::Abort,
        }
    }

    /// Takes one input that arrived when the monotonic clock read `now` and
    /// the wall clock `observed_at`, and says what the caller does next.
    pub fn step_at(&mut self, input: &ScanInput, now: Duration, observed_at: Timestamp) -> (command:
        ScanCommand)
        ensures
            final(self)@ == old(self)@.step(*input, duration_nanos(now), observed_at),
            command == final(self)@.phase.command(),
    {
        match self.phase {
            ScanPhase::Resetting => {
                if let ScanInput::Stopped(_) = input {
                    self.phase = ScanPhase::Starting;
                }
            },
            ScanPhase::Starting => {
                if let ScanInput::Started(started) = input {
                    if *started {
                        self.deadline = Some(saturating_sum(now, self.length));
                        self.phase = ScanPhase::Listening;
                    } else {
                        self.phase = ScanPhase::Failed;
                    }
                }
            },
            ScanPhase::Listening => {
                match input {
                    ScanInput::Advertisement(data) => {
                        if let Some(bytes) = vendor_payload(data) {
                            if let Some(reading) = decode_advertisement(
                                bytes.as_slice(),
                                observed_at,
                            ) {
                                self.window.observe(reading);
                            }
                        }
                    },
                    ScanInput::EndOfStream => {
                        self.phase = ScanPhase::Stopping;
                    },
                    ScanInput::Deadline => {
                        self.phase = ScanPhase::Stopping;
                    },
                    _ => {},
                }
            },
            ScanPhase::Stopping => {
                if let ScanInput::Stopped(_) = input {
                    self.phase = ScanPhase::Finished;
                }
            },
            _ => {},
        }
        self.command()
    }

    /// Takes one input that arrived just now, when the monotonic clock read
    /// `now`; a reading is stamped with the wall clock's time.
    pub fn step(&mut self, input: &ScanInput, now: Duration) -> (command: ScanCommand)
        ensures
            exists|observed_at: Timestamp| final(self)@ == #[trigger] old(self)@.step(
                *input,
                duration_nanos(now),
                observed_at,
            ),
            final(self)@.phase == old(self)@.phase.next(*input),
            command == final(self)@.phase.command(),
    {
        let observed_at = utc_now();
        self.step_at(input, now, observed_at)
    }

    /// The batch that the cycle collected: one reading for each identity
    /// that was observed, the most recent one, in table order.
    pub fn to_batch(&self) -> (batch: Vec<TiltReading>)
        ensures
            batch@ == batch_of(self@.window, 8),
    {
        self.window.to_batch()
    }
}

/// Every step keeps the readings of a window filed under their own
/// identities.
pub proof fn lemma_step_keeps_window_keyed(
    state: ScanState,
    input: ScanInput,
    now: nat,
    observed_at: Timestamp,
)
    requires
        keyed_by_color(state.window),
    ensures
        keyed_by_color(state.step(input, now, observed_at).window),
        state.step(input, now, observed_at).length == state.length,
{
}

/// A batch holds exactly the window's readings: each identity of the window
/// once, with its reading, and nothing else.
pub proof fn lemma_batch_holds_window(window: Map<TiltColor, TiltReading>, n: nat)
    requires
        n <= 8,
    ensures
        forall|r: TiltReading|
            batch_of(window, n).contains(r) <==> exists|c: TiltColor|
                c.ordinal() < n && window.contains_key(c) && #[trigger] window[c] == r,
        batch_of(window, n).len() <= n,
    decreases n,
{
    if n > 0 {
        let earlier = batch_of(window, (n - 1) as nat);
        lemma_batch_holds_window(window, (n - 1) as nat);
        assert forall|r: TiltReading| batch_of(window, n).contains(r) <==> exists|c: TiltColor|
            c.ordinal() < n && window.contains_key(c) && #[trigger] window[c] == r by {
            if batch_of(window, n).contains(r) {
                let i = choose|i: int|
                    0 <= i < batch_of(window, n).len() && batch_of(window, n)[i] == r;
                if i < earlier.len() {
                    assert(earlier.contains(r));
                }
            }
            if exists|c: TiltColor|
                c.ordinal() < n && window.contains_key(c) && #[trigger] window[c] == r {
                let c = choose|c: TiltColor|
                    c.ordinal() < n && window.contains_key(c) && #[trigger] window[c] == r;
                if c.ordinal() < n - 1 {
                    assert(earlier.contains(r));
                    let i = choose|i: int| 0 <= i < earlier.len() && earlier[i] == r;
                    assert(batch_of(window, n)[i] == r);
                } else {
                    assert(batch_of(window, n)[earlier.len() as int] == r);
                }
            }
        }
    }
}

} // verus!
