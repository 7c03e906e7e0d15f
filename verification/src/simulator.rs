//! The synthetic producer: readings without hardware.
//!
//! Each tick yields one reading for each configured identity. Gravity
//! follows one of two curves between the starting gravity and the target:
//! a decay from the start towards the target, or an oscillation between the
//! two in which each identity has its own phase. A small random noise is
//! added, and the result is held within the two gravities.
//!
//! All quantities are fixed-point numbers in millionths. The values of the
//! sine, the cosine and the exponential are the caller's to supply, also in
//! millionths; everything that is done with them is decided here.

use crate::identity::TiltColor;
use crate::reading::TiltReading;
use crate::time::Timestamp;
use rand::rngs::ThreadRng;
use rand::RngExt;
use vstd::prelude::*;

verus! {

/// The length of one oscillation in milliseconds: three minutes.
pub const PERIOD_MILLIS: u64 = 180_000;

/// The time after which the decay has covered 95% of the way: fourteen
/// days, in milliseconds.
pub const DECAY_HORIZON_MILLIS: u64 = 1_209_600_000;

/// What remains of the way at the decay horizon: 5%, in millionths.
pub const DECAY_REMAINDER: i64 = 50_000;

/// The largest gravity noise, in millionths: 0.001.
pub const GRAVITY_NOISE: i64 = 1_000;

/// The largest temperature jitter, in millionths of a degree: 0.5 °F.
pub const TEMPERATURE_JITTER: i64 = 500_000;

/// The weakest simulated signal strength.
pub const RSSI_MIN: i16 = -80;

/// The strongest simulated signal strength.
pub const RSSI_MAX: i16 = -60;

/// `rand::rngs::ThreadRng`, the generator of the current thread.
#[verifier::external_type_specification]
#[verifier::external_body]
pub struct ExThreadRng(ThreadRng);

/// `rand::rng` hands out the current thread's generator. It stops the
/// program where the operating system gives no seed.
pub assume_specification[ rand::rng ]() -> (generator: ThreadRng)
;

/// Calls `RngExt::random_range` on an inclusive range of integers: some
/// value of the range, a different one from call to call.
#[verifier::external_body]
fn random_in(generator: &mut ThreadRng, low: i64, high: i64) -> (value: i64)
    requires
        low <= high,
    ensures
        low <= value <= high,
{
    generator.random_range(low..=high)
}

/// `x` held within `low` and `high`.
pub open spec fn clamp(x: int, low: int, high: int) -> int {
    if x < low {
        low
    } else if x > high {
        high
    } else {
        x
    }
}

/// The phase of the identity at position `index` of `count`, `elapsed`
/// milliseconds after the start, in millionths of a turn. The identities
/// are spread evenly over the turn.
pub open spec fn phase_of(elapsed: nat, index: nat, count: nat) -> nat {
    (((elapsed % (PERIOD_MILLIS as nat)) * 1_000_000) / (PERIOD_MILLIS as nat) + (index
        * 1_000_000) / count) % 1_000_000
}

/// The point of a gravity curve that belongs to one identity at one moment.
#[derive(Debug, Clone, Copy, PartialEq, Eq, Structural)]
pub enum CurvePoint {
    /// The oscillation: sine and cosine of the phase.
    Periodic { sine: i64, cosine: i64 },
    /// The decay: what remains of the way from the start to the target,
    /// from one at the start to nothing in the end.
    Decay { remaining: i64 },
}

/// The random draws that go into one reading.
#[derive(Debug, Clone, Copy, PartialEq, Eq, Structural)]
pub struct Draws {
    pub gravity_noise: i64,
    pub temperature_jitter: i64,
    pub rssi: i16,
}

impl Draws {
    /// Whether each draw lies within its bounds.
    pub open spec fn in_bounds(self) -> bool {
        &&& -GRAVITY_NOISE <= self.gravity_noise <= GRAVITY_NOISE
        &&& -TEMPERATURE_JITTER <= self.temperature_jitter <= TEMPERATURE_JITTER
        &&& RSSI_MIN <= self.rssi <= RSSI_MAX
    }
}

impl CurvePoint {
    /// The gravity of the curve between a starting gravity `og` and a
    /// target `fg`, before noise. Sine and cosine count within -1 and 1,
    /// the remainder within 0 and 1.
    pub open spec fn base_gravity(self, og: int, fg: int) -> int {
        match self {
            CurvePoint::Periodic { sine, cosine } => ((og + fg) * 1_000_000 + (og - fg) * clamp(
                sine as int,
                -1_000_000,
                1_000_000,
            )) / 2_000_000,
            CurvePoint::Decay { remaining } => fg + ((og - fg) * clamp(
                remaining as int,
                0,
                1_000_000,
            )) / 1_000_000,
        }
    }

    /// What the curve adds to the base temperature: two degrees times the
    /// cosine for the oscillation, nothing for the decay.
    pub open spec fn temperature_swing(self) -> int {
        match self {
            CurvePoint::Periodic { sine, cosine } => 2 * clamp(
                cosine as int,
                -1_000_000,
                1_000_000,
            ),
            CurvePoint::Decay { remaining } => 0,
        }
    }
}

/// The configuration of a synthetic producer, as numbers.
pub struct SimulatorModel {
    pub colors: Seq<TiltColor>,
    pub og: int,
    pub target_fg: int,
    pub base_temp: int,
}

impl SimulatorModel {
    /// The reading of the identity at position `index` for a curve point
    /// and draws: the curve's gravity plus noise, held between target and
    /// start; the base temperature plus the curve's swing plus jitter, as
    /// far as the number range reaches.
    pub open spec fn reading(
        self,
        index: int,
        point: CurvePoint,
        draws: Draws,
        recorded_at: Timestamp,
    ) -> TiltReading {
        TiltReading {
            color: self.colors[index],
            temperature_f: clamp(
                self.base_temp + point.temperature_swing() + draws.temperature_jitter,
                i64::MIN as int,
                i64::MAX as int,
            ) as i64,
            gravity: clamp(
                point.base_gravity(self.og, self.target_fg) + draws.gravity_noise,
                self.target_fg,
                self.og,
            ) as i64,
            rssi: Some(draws.rssi),
            recorded_at,
        }
    }

    /// Whether `reading` is what the identity at position `index` yields for
    /// a curve point under some draws within their bounds.
    pub open spec fn yields(
        self,
        index: int,
        point: CurvePoint,
        recorded_at: Timestamp,
        reading: TiltReading,
    ) -> bool {
        exists|draws: Draws|
            draws.in_bounds() && reading == #[trigger] self.reading(
                index,
                point,
                draws,
                recorded_at,
            )
    }
}

/// A synthetic producer for a list of identities.
pub struct TiltSimulator {
    colors: Vec<TiltColor>,
    og: i64,
    target_fg: i64,
    base_temp: i64,
}

impl View for TiltSimulator {
    type V = SimulatorModel;

    closed spec fn view(&self) -> SimulatorModel {
        SimulatorModel {
            colors: self.colors@,
            og: self.og as int,
            target_fg: self.target_fg as int,
            base_temp: self.base_temp as int,
        }
    }
}

/// The floor of `a / b` for a positive `b`.
fn floor_div(a: i128, b: i128) -> (q: i128)
    requires
        b > 0,
        a > i128::MIN + b,
    ensures
        q == a as int / b as int,
{
    if a >= 0 {
        a / b
    } else {
        let n: i128 = -a;
        let up: i128 = (n + (b - 1)) / b;
        assert(-up == a as int / b as int) by (nonlinear_arith)
            requires
                b > 0,
                n == -a,
                n > 0,
                up == (n + (b - 1)) / (b as int),
        ;
        -up
    }
}

/// `x` held within `low` and `high`.
fn clamp_i128(x: i128, low: i128, high: i128) -> (held: i128)
    ensures
        held == clamp(x as int, low as int, high as int),
{
    if x < low {
        low
    } else if x > high {
        high
    } else {
        x
    }
}

/// The phase of the identity at position `index` of `count`, `elapsed`
/// milliseconds after the start, in millionths of a turn.
pub fn phase(elapsed: u64, index: usize, count: usize) -> (turn: u32)
    requires
        index < count,
    ensures
        turn == phase_of(elapsed as nat, index as nat, count as nat),
        turn < 1_000_000,
{
    let within: u128 = (elapsed % PERIOD_MILLIS) as u128;
    let first: u128 = (within * 1_000_000) / (PERIOD_MILLIS as u128);
    let second: u128 = ((index as u128) * 1_000_000) / (count as u128);
    ((first + second) % 1_000_000) as u32
}

impl TiltSimulator {
    /// A producer for `colors` whose gravity moves between the starting
    /// gravity `og` and the target `target_fg` around a base temperature.
    pub fn new(colors: Vec<TiltColor>, og: i64, target_fg: i64, base_temp: i64) -> (simulator:
        TiltSimulator)
        requires
            target_fg <= og,
        ensures
            simulator@ == (SimulatorModel {
                colors: colors@,
                og: og as int,
                target_fg: target_fg as int,
                base_temp: base_temp as int,
            }),
    {
        TiltSimulator { colors, og, target_fg, base_temp }
    }

    /// The target does not lie above the start.
    #[verifier::type_invariant]
    spec fn ordered(&self) -> bool {
        self.target_fg <= self.og
    }

    /// The configured identities, in order.
    pub fn colors(&self) -> (colors: &[TiltColor])
        ensures
            colors@ == self@.colors,
    {
        self.colors.as_slice()
    }

    /// The reading of the identity at position `index` for a curve point
    /// and draws.
    pub fn compose(
        &self,
        index: usize,
        point: CurvePoint,
        draws: Draws,
        recorded_at: Timestamp,
    ) -> (reading: TiltReading)
        requires
            index < self@.colors.len(),
        ensures
            reading == self@.reading(index as int, point, draws, recorded_at),
            self@.target_fg <= reading.gravity <= self@.og,
    {
        proof {
            use_type_invariant(self);
        }
        let og: i128 = self.og as i128;
        let fg: i128 = self.target_fg as i128;
        let (base, swing): (i128, i128) = match point {
            CurvePoint::Periodic { sine, cosine } => {
                let s: i128 = clamp_i128(sine as i128, -1_000_000, 1_000_000);
                let c: i128 = clamp_i128(cosine as i128, -1_000_000, 1_000_000);
                assert(-0x1_0000_0000_0000_0000 * 1_000_000 <= (og - fg) * s
                    <= 0x1_0000_0000_0000_0000 * 1_000_000) by (nonlinear_arith)
                    requires
                        0 <= og - fg < 0x1_0000_0000_0000_0000,
                        -1_000_000 <= s <= 1_000_000,
                ;
                (floor_div((og + fg) * 1_000_000 + (og - fg) * s, 2_000_000), 2 * c)
            },
            CurvePoint::Decay { remaining } => {
                let r: i128 = clamp_i128(remaining as i128, 0, 1_000_000);
                assert(0 <= (og - fg) * r <= 0x1_0000_0000_0000_0000 * 1_000_000)
                    by (nonlinear_arith)
                    requires
                        0 <= og - fg < 0x1_0000_0000_0000_0000,
                        0 <= r <= 1_000_000,
                ;
                (fg + floor_div((og - fg) * r, 1_000_000), 0)
            },
        };
        let gravity: i128 = clamp_i128(base + (draws.gravity_noise as i128), fg, og);
        let temperature: i128 = clamp_i128(
            (self.base_temp as i128) + swing + (draws.temperature_jitter as i128),
            i64::MIN as i128,
            i64::MAX as i128,
        );
        TiltReading::new(
            self.colors[index],
            temperature as i64,
            gravity as i64,
            Some(draws.rssi),
            recorded_at,
        )
    }

    /// One reading for each identity, in order, for as many identities as
    /// there are curve points. The noise, the jitter and the signal
    /// strength of each reading are drawn at random within their bounds.
    pub fn generate_readings_at(&self, curve: &[CurvePoint], recorded_at: Timestamp) -> (readings:
        Vec<TiltReading>)
        ensures
            readings@.len() == (if curve@.len() <= self@.colors.len() {
                curve@.len()
            } else {
                self@.colors.len()
            }),
            forall|i: int|
                0 <= i < readings@.len() ==> self@.yields(
                    i,
                    curve@[i],
                    recorded_at,
                    #[trigger] readings@[i],
                ),
            forall|i: int|
                0 <= i < readings@.len() ==> {
                    let reading = #[trigger] readings@[i];
                    &&& reading.color == self@.colors[i]
                    &&& self@.target_fg <= reading.gravity <= self@.og
                    &&& reading.rssi matches Some(rssi) && RSSI_MIN <= rssi <= RSSI_MAX
                    &&& reading.recorded_at == recorded_at
                },
    {
        proof {
            use_type_invariant(self);
        }
        let mut generator = rand::rng();
        let count: usize = if curve.len() <= self.colors.len() {
            curve.len()
        } else {
            self.colors.len()
        };
        let mut readings: Vec<TiltReading> = Vec::new();
        let mut i: usize = 0;
        while i < count
            invariant
                self@.target_fg <= self@.og,
                i <= count,
                count <= curve@.len(),
                count <= self@.colors.len(),
                readings@.len() == i,
                forall|j: int|
                    0 <= j < i ==> self@.yields(j, curve@[j], recorded_at, #[trigger] readings@[j]),
                forall|j: int|
                    0 <= j < i ==> {
                        let reading = #[trigger] readings@[j];
                        &&& reading.color == self@.colors[j]
                        &&& self@.target_fg <= reading.gravity <= self@.og
                        &&& reading.rssi matches Some(rssi) && RSSI_MIN <= rssi <= RSSI_MAX
                        &&& reading.recorded_at == recorded_at
                    },
            decreases count - i,
        {
            let gravity_noise = random_in(&mut generator, -GRAVITY_NOISE, GRAVITY_NOISE);
            let temperature_jitter = random_in(
                &mut generator,
                -TEMPERATURE_JITTER,
                TEMPERATURE_JITTER,
            );
            let rssi = random_in(&mut generator, RSSI_MIN as i64, RSSI_MAX as i64);
            let draws = Draws { gravity_noise, temperature_jitter, rssi: rssi as i16 };
            let reading = self.compose(i, curve[i], draws, recorded_at);
            readings.push(reading);
            i += 1;
        }
        readings
    }
}

/// Whatever the curve and the draws, the sampled gravity lies between the
/// target and the start and no further from the curve than the largest
/// noise; the temperature is no further from the base than two degrees and
/// the largest jitter; and the other values lie within their bounds.
pub proof fn lemma_reading_bounds(
    model: SimulatorModel,
    index: int,
    point: CurvePoint,
    draws: Draws,
    recorded_at: Timestamp,
)
    requires
        model.target_fg <= model.og,
        i64::MIN <= model.target_fg,
        model.og <= i64::MAX,
        0 <= index < model.colors.len(),
        draws.in_bounds(),
    ensures
        ({
            let reading = model.reading(index, point, draws, recorded_at);
            let base = point.base_gravity(model.og, model.target_fg);
            &&& model.target_fg <= reading.gravity <= model.og
            &&& base - GRAVITY_NOISE <= reading.gravity <= base + GRAVITY_NOISE
            &&& (i64::MIN + 2_500_000 <= model.base_temp <= i64::MAX - 2_500_000
                ==> model.base_temp - 2_500_000 <= reading.temperature_f <= model.base_temp
                + 2_500_000)
            &&& (point is Decay && i64::MIN + 500_000 <= model.base_temp <= i64::MAX - 500_000
                ==> model.base_temp - TEMPERATURE_JITTER <= reading.temperature_f
                <= model.base_temp + TEMPERATURE_JITTER)
            &&& reading.color == model.colors[index]
            &&& reading.rssi matches Some(rssi) && RSSI_MIN <= rssi <= RSSI_MAX
            &&& reading.recorded_at == recorded_at
        }),
{
    lemma_curve_bounds(point, model.og, model.target_fg);
}

/// Before noise the curve itself stays between the target and the start:
/// the oscillation reaches the start where the sine is one and the target
/// where it is minus one; the decay begins at the start and ends at the
/// target.
pub proof fn lemma_curve_bounds(point: CurvePoint, og: int, fg: int)
    requires
        fg <= og,
    ensures
        fg <= point.base_gravity(og, fg) <= og,
        point matches CurvePoint::Periodic { sine, cosine } ==> (sine >= 1_000_000
            ==> point.base_gravity(og, fg) == og) && (sine <= -1_000_000 ==> point.base_gravity(
            og,
            fg,
        ) == fg),
        point matches CurvePoint::Decay { remaining } ==> (remaining >= 1_000_000
            ==> point.base_gravity(og, fg) == og) && (remaining <= 0 ==> point.base_gravity(og, fg)
            == fg),
{
    match point {
        CurvePoint::Periodic { sine, cosine } => {
            let s = clamp(sine as int, -1_000_000, 1_000_000);
            let d = og - fg;
            assert(-d * 1_000_000 <= d * s <= d * 1_000_000) by (nonlinear_arith)
                requires
                    d >= 0,
                    -1_000_000 <= s <= 1_000_000,
            ;
            if sine <= -1_000_000 {
                assert(d * s == -(d * 1_000_000)) by (nonlinear_arith)
                    requires
                        s == -1_000_000,
                ;
            }
        },
        CurvePoint::Decay { remaining } => {
            let r = clamp(remaining as int, 0, 1_000_000);
            let d = og - fg;
            assert(0 <= d * r <= d * 1_000_000) by (nonlinear_arith)
                requires
                    d >= 0,
                    0 <= r <= 1_000_000,
            ;
            if remaining <= 0 {
                assert(d * r == 0) by (nonlinear_arith)
                    requires
                        r == 0,
                ;
            }
        },
    }
}

} // verus!
