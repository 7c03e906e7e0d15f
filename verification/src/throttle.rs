//! The optional throttle that limits how often one hydrometer's readings are
//! forwarded, however often the hydrometer is observed.
//!
//! Time is a monotonic clock reading: the duration since some fixed origin,
//! such as the start of the process.

use crate::identity::TiltColor;
use crate::reading::TiltReading;
use crate::time::{duration_nanos, total_nanos};
use std::time::Duration;
use vstd::prelude::*;

verus! {

/// The state of the throttle: for each identity that was ever admitted the clock
/// reading of its last admission, and the minimum interval, in nanoseconds.
pub struct ThrottleState {
    pub last: Map<TiltColor, nat>,
    pub interval: nat,
}

impl ThrottleState {
    /// A throttle that has admitted nothing yet.
    pub open spec fn start(interval: nat) -> ThrottleState {
        ThrottleState { last: Map::empty(), interval }
    }

    /// Time that has passed at `now` since the clock read `earlier`; none
    /// where the clock reading is the older one.
    pub open spec fn elapsed(now: nat, earlier: nat) -> nat {
        if now >= earlier {
            (now - earlier) as nat
        } else {
            0
        }
    }

    /// Whether a reading of `color` is admitted at `now`: the identity was
    /// never admitted, or its last admission is at least the interval ago.
    pub open spec fn due(self, color: TiltColor, now: nat) -> bool {
        self.last.contains_key(color) ==> Self::elapsed(now, self.last[color]) >= self.interval
    }

    /// The state after a reading of `color` met the throttle at `now`: an
    /// admission is recorded at once, a refusal changes nothing.
    pub open spec fn offer(self, color: TiltColor, now: nat) -> ThrottleState {
        if self.due(color, now) {
            ThrottleState { last: self.last.insert(color, now), ..self }
        } else {
            self
        }
    }

    /// The state after each of `readings` met the throttle at `now`, in order.
    pub open spec fn after(self, readings: Seq<TiltReading>, now: nat) -> ThrottleState
        decreases readings.len(),
    {
        if readings.len() == 0 {
            self
        } else {
            self.after(readings.drop_last(), now).offer(readings.last().color, now)
        }
    }

    /// Those of `readings` that the throttle admits at `now`, in order, when
    /// each meets the throttle as its predecessors left it.
    pub open spec fn admitted(self, readings: Seq<TiltReading>, now: nat) -> Seq<TiltReading>
        decreases readings.len(),
    {
        if readings.len() == 0 {
            Seq::empty()
        } else {
            let earlier = self.admitted(readings.drop_last(), now);
            if self.after(readings.drop_last(), now).due(readings.last().color, now) {
                earlier.push(readings.last())
            } else {
                earlier
            }
        }
    }
}

/// A per-identity minimum interval between admissions.
pub struct UploadThrottle {
    last: [Option<u128>; 8],
    interval: u128,
}

impl View for UploadThrottle {
    type V = ThrottleState;

    closed spec fn view(&self) -> ThrottleState {
        ThrottleState {
            last: Map::new(
                |c: TiltColor| self.last@[c.ordinal() as int] is Some,
                |c: TiltColor| self.last@[c.ordinal() as int].unwrap() as nat,
            ),
            interval: self.interval as nat,
        }
    }
}

impl UploadThrottle {
    /// A throttle with the given minimum interval that has admitted nothing yet.
    pub fn new(interval: Duration) -> (throttle: UploadThrottle)
        ensures
            throttle@ == ThrottleState::start(duration_nanos(interval)),
    {
        let throttle = UploadThrottle { last: [None; 8], interval: total_nanos(interval) };
        assert(throttle@.last =~= Map::empty());
        throttle
    }

    /// Whether a reading of `color` would be admitted at `now`.
    pub fn is_due(&self, color: TiltColor, now: Duration) -> (due: bool)
        ensures
            due == self@.due(color, duration_nanos(now)),
    {
        let now_nanos: u128 = total_nanos(now);
        match self.last[color.index()] {
            None => true,
            Some(earlier) => {
                let elapsed: u128 = if now_nanos >= earlier {
                    now_nanos - earlier
                } else {
                    0
                };
                elapsed >= self.interval
            },
        }
    }

    /// Lets a reading of `color` meet the throttle at `now`. An admission is
    /// stamped at once, whether or not the upload that follows succeeds.
    pub fn offer(&mut self, color: TiltColor, now: Duration) -> (admitted: bool)
        ensures
            admitted == old(self)@.due(color, duration_nanos(now)),
            final(self)@ == old(self)@.offer(color, duration_nanos(now)),
    {
        if self.is_due(color, now) {
            let slot = color.index();
            self.last[slot] = Some(total_nanos(now));
            assert(self@.last =~= old(self)@.last.insert(color, duration_nanos(now)));
            true
        } else {
            false
        }
    }

    /// Lets each reading meet the throttle at `now`, in order, and keeps those
    /// that are admitted.
    pub fn filter_batch(&mut self, readings: Vec<TiltReading>, now: Duration) -> (kept: Vec<
        TiltReading,
    >)
        ensures
            kept@ == old(self)@.admitted(readings@, duration_nanos(now)),
            final(self)@ == old(self)@.after(readings@, duration_nanos(now)),
    {
        let mut kept: Vec<TiltReading> = Vec::new();
        let mut i: usize = 0;
        while i < readings.len()
            invariant
                i <= readings.len(),
                kept@ == old(self)@.admitted(readings@.take(i as int), duration_nanos(now)),
                self@ == old(self)@.after(readings@.take(i as int), duration_nanos(now)),
            decreases readings.len() - i,
        {
            let reading = readings[i];
            proof {
                let next = readings@.take(i + 1);
                assert(next.drop_last() =~= readings@.take(i as int));
            }
            if self.offer(reading.color, now) {
                kept.push(reading);
            }
            i += 1;
        }
        assert(readings@.take(readings@.len() as int) =~= readings@);
        kept
    }
}

/// A batch in which no identity occurs twice passes the throttle reading by
/// reading exactly as it would if all of it were judged against the state
/// before the batch: every reading that is due is kept, in order.
pub proof fn lemma_distinct_batch_is_filtered(
    state: ThrottleState,
    readings: Seq<TiltReading>,
    now: nat,
)
    requires
        forall|i: int, j: int|
            0 <= i < j < readings.len() ==> readings[i].color != readings[j].color,
    ensures
        state.admitted(readings, now) == readings.filter(|r: TiltReading| state.due(r.color, now)),
        forall|c: TiltColor|
            (forall|i: int| 0 <= i < readings.len() ==> readings[i].color != c) ==> (state.after(
                readings,
                now,
            ).due(c, now) <==> state.due(c, now)),
    decreases readings.len(),
{
    reveal(Seq::filter);
    if readings.len() > 0 {
        lemma_distinct_batch_is_filtered(state, readings.drop_last(), now);
    }
}

} // verus!
