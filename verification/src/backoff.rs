//! The pacing of retries after failed uploads.
//!
//! Each failure is followed by a wait, and each wait is `factor` times as
//! long as the one before, up to a ceiling. A success puts the wait back to
//! where it started.

use crate::time::{duration_from_nanos, duration_nanos, total_nanos};
use std::time::Duration;
use vstd::arithmetic::power::{lemma_pow0, lemma_pow_positive, pow};
use vstd::prelude::*;

verus! {

/// The controller's state in nanoseconds.
pub struct BackoffState {
    pub current: nat,
    pub initial: nat,
    pub max: nat,
    pub factor: nat,
}

impl BackoffState {
    /// The waits of a sensible configuration never leave the range from the
    /// first wait to the ceiling.
    pub open spec fn in_range(self) -> bool {
        self.initial <= self.current <= self.max
    }

    /// A fresh controller: the next wait is the first one.
    pub open spec fn start(initial: nat, max: nat, factor: nat) -> BackoffState {
        BackoffState { current: initial, initial, max, factor }
    }

    /// The state after one wait was handed out.
    pub open spec fn advance(self) -> BackoffState {
        let grown = self.current * self.factor;
        BackoffState { current: if grown <= self.max { grown } else { self.max }, ..self }
    }

    /// The state after a success.
    pub open spec fn reset(self) -> BackoffState {
        BackoffState { current: self.initial, ..self }
    }

    /// The state after `n` waits were handed out in a row.
    pub open spec fn advance_by(self, n: nat) -> BackoffState
        decreases n,
    {
        if n == 0 {
            self
        } else {
            self.advance().advance_by((n - 1) as nat)
        }
    }
}

/// Exponential backoff with a ceiling.
pub struct Backoff {
    current: Duration,
    initial: Duration,
    max: Duration,
    factor: u32,
}

impl View for Backoff {
    type V = BackoffState;

    closed spec fn view(&self) -> BackoffState {
        BackoffState {
            current: duration_nanos(self.current),
            initial: duration_nanos(self.initial),
            max: duration_nanos(self.max),
            factor: self.factor as nat,
        }
    }
}

impl Backoff {
    /// A controller whose first wait is `initial`, whose waits grow by
    /// `factor` and never exceed `max`.
    pub fn new(initial: Duration, max: Duration, factor: u32) -> (backoff: Backoff)
        ensures
            backoff@ == BackoffState::start(
                duration_nanos(initial),
                duration_nanos(max),
                factor as nat,
            ),
            backoff@.in_range() <==> duration_nanos(initial) <= duration_nanos(max),
    {
        Backoff { current: initial, initial, max, factor }
    }

    /// Hands out the current wait and makes the next one `factor` times as
    /// long, but no longer than the ceiling.
    pub fn next_delay(&mut self) -> (delay: Duration)
        ensures
            duration_nanos(delay) == old(self)@.current,
            final(self)@ == old(self)@.advance(),
            old(self)@.in_range() && old(self)@.factor >= 1 ==> final(self)@.in_range(),
    {
        proof {
            if self@.in_range() && self@.factor >= 1 {
                lemma_advance_stays_in_range(self@);
            }
        }
        let delay = self.current;
        let current: u128 = total_nanos(self.current);
        let max: u128 = total_nanos(self.max);
        assert(current * self.factor <= 0xffff_ffff_ffff_ffff_ffff_ffff_ffff_ffff) by (nonlinear_arith)
            requires
                current < 0x1_0000_0000_0000_0000 * 1_000_000_000,
                self.factor < 0x1_0000_0000,
        ;
        let grown: u128 = current * (self.factor as u128);
        let next: u128 = if grown <= max {
            grown
        } else {
            max
        };
        self.current = duration_from_nanos(next);
        delay
    }

    /// Puts the next wait back to the first one.
    pub fn reset(&mut self)
        ensures
            final(self)@ == old(self)@.reset(),
    {
        self.current = self.initial;
    }
}

impl Default for Backoff {
    /// Waits of one second at first, doubling, up to one minute.
    fn default() -> (backoff: Backoff)
        ensures
            backoff@ == BackoffState::start(1_000_000_000, 60_000_000_000, 2),
    {
        Backoff::new(Duration::new(1, 0), Duration::new(60, 0), 2)
    }
}

/// With a factor of at least one and a first wait below the ceiling, every
/// wait lies between the first wait and the ceiling.
pub proof fn lemma_advance_stays_in_range(state: BackoffState)
    requires
        state.in_range(),
        state.factor >= 1,
    ensures
        state.advance().in_range(),
        state.advance().current >= state.current,
        state.reset().in_range(),
{
    assert(state.current * state.factor >= state.current) by (nonlinear_arith)
        requires
            state.factor >= 1,
    ;
}

/// From a fresh controller the wait handed out after `n` earlier ones is
/// the first wait times the `n`-th power of the factor, capped at the
/// ceiling: with a first wait of 1, a ceiling of 60 and a factor of 2 the
/// waits are 1, 2, 4, 8, 16, 32, 60, 60 and so on.
pub proof fn lemma_delay_sequence(initial: nat, max: nat, factor: nat, n: nat)
    requires
        initial <= max,
        factor >= 1,
    ensures
        pow(factor as int, n) >= 1,
        BackoffState::start(initial, max, factor).advance_by(n).current == (if initial * pow(
            factor as int,
            n,
        ) <= max {
            initial * pow(factor as int, n)
        } else {
            max as int
        }),
        BackoffState::start(initial, max, factor).advance_by(n).in_range(),
{
    lemma_advance_by_from(BackoffState::start(initial, max, factor), n);
}

/// The closed form of `n` waits in a row from any state within range.
pub proof fn lemma_advance_by_from(state: BackoffState, n: nat)
    requires
        state.in_range(),
        state.factor >= 1,
    ensures
        pow(state.factor as int, n) >= 1,
        state.advance_by(n).current == (if state.current * pow(state.factor as int, n)
            <= state.max {
            state.current * pow(state.factor as int, n)
        } else {
            state.max as int
        }),
        state.advance_by(n).in_range(),
        state.advance_by(n).initial == state.initial,
        state.advance_by(n).max == state.max,
        state.advance_by(n).factor == state.factor,
    decreases n,
{
    let f = state.factor as int;
    if n == 0 {
        lemma_pow0(f);
    } else {
        let m = (n - 1) as nat;
        lemma_advance_stays_in_range(state);
        lemma_advance_by_from(state.advance(), m);
        lemma_pow_positive(f, n);
        vstd::arithmetic::power::lemma_pow_adds(f, 1, m);
        vstd::arithmetic::power::lemma_pow1(f);
        let p = pow(f, m);
        let c = state.current as int;
        let cap = state.max as int;
        assert(c * (f * p) == (c * f) * p) by (nonlinear_arith);
        if c * f > cap {
            assert((c * f) * p >= c * f) by (nonlinear_arith)
                requires
                    p >= 1,
                    c * f >= 0,
            ;
            assert(cap * p >= cap) by (nonlinear_arith)
                requires
                    p >= 1,
                    cap >= 0,
            ;
        }
    }
}

/// Once a wait has reached the ceiling, every later wait is the ceiling.
pub proof fn lemma_ceiling_is_kept(state: BackoffState, n: nat)
    requires
        state.current == state.max,
        state.factor >= 1,
    ensures
        state.advance_by(n).current == state.max,
    decreases n,
{
    if n > 0 {
        assert(state.max * state.factor >= state.max) by (nonlinear_arith)
            requires
                state.factor >= 1,
        ;
        lemma_ceiling_is_kept(state.advance(), (n - 1) as nat);
    }
}

/// After a reset, at whatever point it comes, the very next wait is the
/// first one again.
pub proof fn lemma_reset_restores_initial(state: BackoffState, n: nat)
    ensures
        state.advance_by(n).reset().current == state.initial,
        state.advance_by(n).reset() == state.reset(),
    decreases n,
{
    if n > 0 {
        lemma_reset_restores_initial(state.advance(), (n - 1) as nat);
    }
}

} // verus!
