use tilt_client::identity::TiltColor;
use tilt_client::simulator::{
    phase, CurvePoint, Draws, TiltSimulator, DECAY_HORIZON_MILLIS, DECAY_REMAINDER, PERIOD_MILLIS,
};
use tilt_client::time::Timestamp;

const PERIOD_SECS: f64 = 180.0;

fn at() -> Timestamp {
    Timestamp { secs: 1_700_000_000, nanos: 0 }
}

fn default_sim() -> TiltSimulator {
    TiltSimulator::new(vec![TiltColor::Red], 1_055_000, 1_012_000, 68_000_000)
}

fn multi_color_sim() -> TiltSimulator {
    TiltSimulator::new(
        vec![TiltColor::Red, TiltColor::Blue, TiltColor::Green],
        1_055_000,
        1_012_000,
        68_000_000,
    )
}

fn millionths(x: f64) -> i64 {
    (x * 1_000_000.0).round() as i64
}

fn whole(x: i64) -> f64 {
    x as f64 / 1_000_000.0
}

fn periodic_curve(sim: &TiltSimulator, elapsed_secs: f64) -> Vec<CurvePoint> {
    let count = sim.colors().len();
    (0..count)
        .map(|i| {
            let turn = phase((elapsed_secs * 1000.0) as u64, i, count);
            let angle = turn as f64 / 1_000_000.0 * std::f64::consts::TAU;
            CurvePoint::Periodic { sine: millionths(angle.sin()), cosine: millionths(angle.cos()) }
        })
        .collect()
}

fn decay_curve(sim: &TiltSimulator, elapsed_secs: f64) -> Vec<CurvePoint> {
    let horizon = DECAY_HORIZON_MILLIS as f64 / 1000.0;
    let rate = -(whole(DECAY_REMAINDER)).ln() / horizon;
    let remaining = millionths((-rate * elapsed_secs).exp());
    sim.colors().iter().map(|_| CurvePoint::Decay { remaining }).collect()
}

#[test]
fn new_constructs_without_panic() {
    let _sim = default_sim();
}

#[test]
fn single_color_produces_one_reading() {
    let sim = default_sim();
    let readings = sim.generate_readings_at(&periodic_curve(&sim, 0.0), at());
    assert_eq!(readings.len(), 1);
    assert_eq!(readings[0].color, TiltColor::Red);
}

#[test]
fn multi_color_produces_correct_count() {
    let sim = multi_color_sim();
    let readings = sim.generate_readings_at(&periodic_curve(&sim, 12.0), at());
    assert_eq!(readings.len(), 3);
    assert_eq!(readings[0].color, TiltColor::Red);
    assert_eq!(readings[1].color, TiltColor::Blue);
    assert_eq!(readings[2].color, TiltColor::Green);
}

#[test]
fn gravity_within_og_to_target_fg_bounds() {
    let sim = default_sim();
    for elapsed in [0.0, 45.0, 90.0, 135.0, 180.0, 270.0] {
        for _ in 0..20 {
            let readings = sim.generate_readings_at(&periodic_curve(&sim, elapsed), at());
            for r in &readings {
                assert!(
                    whole(r.gravity) >= 1.012 && whole(r.gravity) <= 1.055,
                    "gravity {} out of bounds at elapsed={}",
                    whole(r.gravity),
                    elapsed,
                );
            }
        }
    }
}

#[test]
fn temperature_within_jitter_bounds() {
    let sim = default_sim();
    for step in 0..100 {
        let readings = sim.generate_readings_at(&periodic_curve(&sim, step as f64 * 1.8), at());
        for r in &readings {
            assert!(
                whole(r.temperature_f) >= 65.0 && whole(r.temperature_f) <= 71.0,
                "temperature {} out of bounds",
                whole(r.temperature_f),
            );
        }
    }
}

#[test]
fn rssi_in_valid_range() {
    let sim = default_sim();
    for _ in 0..100 {
        let readings = sim.generate_readings_at(&periodic_curve(&sim, 3.0), at());
        for r in &readings {
            let rssi = r.rssi.expect("RSSI should be Some");
            assert!(rssi >= -80 && rssi <= -60, "RSSI {} out of range", rssi,);
        }
    }
}

#[test]
fn gravity_peaks_at_quarter_period() {
    let sim = default_sim();
    let quarter = PERIOD_SECS / 4.0;
    let avg: f64 = (0..50)
        .map(|_| whole(sim.generate_readings_at(&periodic_curve(&sim, quarter), at())[0].gravity))
        .sum::<f64>()
        / 50.0;
    assert!(
        (avg - 1.055).abs() < 0.003,
        "average gravity at quarter period ({avg}) should be near OG 1.055",
    );
}

#[test]
fn gravity_troughs_at_three_quarter_period() {
    let sim = default_sim();
    let three_quarter = PERIOD_SECS * 3.0 / 4.0;
    let avg: f64 = (0..50)
        .map(|_| {
            whole(sim.generate_readings_at(&periodic_curve(&sim, three_quarter), at())[0].gravity)
        })
        .sum::<f64>()
        / 50.0;
    assert!(
        (avg - 1.012).abs() < 0.003,
        "average gravity at 3/4 period ({avg}) should be near target FG 1.012",
    );
}

#[test]
fn decay_gravity_stays_within_bounds_at_every_age() {
    let sim = default_sim();
    let day = 86_400.0;
    for elapsed in [0.0, day, 7.0 * day, 14.0 * day, 15.0 * day, 400.0 * day] {
        for _ in 0..20 {
            let readings = sim.generate_readings_at(&decay_curve(&sim, elapsed), at());
            assert_eq!(readings.len(), 1);
            let gravity = readings[0].gravity;
            assert!(1_012_000 <= gravity && gravity <= 1_055_000, "gravity {gravity}");
        }
    }
}

#[test]
fn decay_gravity_is_near_the_target_at_the_horizon() {
    let sim = default_sim();
    let horizon = DECAY_HORIZON_MILLIS as f64 / 1000.0;
    let avg: f64 = (0..50)
        .map(|_| whole(sim.generate_readings_at(&decay_curve(&sim, horizon), at())[0].gravity))
        .sum::<f64>()
        / 50.0;
    assert!((avg - 1.012).abs() < 0.005, "average gravity at the horizon ({avg})");
}

#[test]
fn decay_leaves_the_temperature_at_its_base() {
    let sim = default_sim();
    for _ in 0..50 {
        let readings = sim.generate_readings_at(&decay_curve(&sim, 1000.0), at());
        let temperature = readings[0].temperature_f;
        assert!(67_500_000 <= temperature && temperature <= 68_500_000);
    }
}

#[test]
fn draws_vary_from_reading_to_reading() {
    let sim = default_sim();
    let curve = [CurvePoint::Periodic { sine: 0, cosine: 0 }];
    let gravities: Vec<i64> =
        (0..200).map(|_| sim.generate_readings_at(&curve, at())[0].gravity).collect();
    assert!(gravities.iter().any(|g| *g != gravities[0]));
    assert!(gravities.iter().all(|g| (1_032_500..=1_034_500).contains(g)));
}

#[test]
fn readings_carry_the_given_time() {
    let sim = multi_color_sim();
    let stamp = Timestamp { secs: 42, nanos: 7 };
    for r in sim.generate_readings_at(&periodic_curve(&sim, 1.0), stamp) {
        assert_eq!(r.recorded_at, stamp);
    }
}

#[test]
fn there_are_as_many_readings_as_curve_points_and_identities_allow() {
    let sim = multi_color_sim();
    let point = CurvePoint::Decay { remaining: 500_000 };
    assert_eq!(sim.generate_readings_at(&[], at()).len(), 0);
    assert_eq!(sim.generate_readings_at(&[point], at()).len(), 1);
    assert_eq!(sim.generate_readings_at(&[point; 3], at()).len(), 3);
    assert_eq!(sim.generate_readings_at(&[point; 5], at()).len(), 3);
    let none = TiltSimulator::new(Vec::new(), 1_055_000, 1_012_000, 68_000_000);
    assert_eq!(none.generate_readings_at(&[point; 5], at()).len(), 0);
}

#[test]
fn compose_gives_exact_values() {
    let sim = multi_color_sim();
    let draws = Draws { gravity_noise: 200, temperature_jitter: -300_000, rssi: -70 };
    let r = sim.compose(1, CurvePoint::Periodic { sine: 500_000, cosine: -250_000 }, draws, at());
    assert_eq!(r.color, TiltColor::Blue);
    assert_eq!(r.gravity, 1_044_450);
    assert_eq!(r.temperature_f, 67_200_000);
    assert_eq!(r.rssi, Some(-70));
    assert_eq!(r.recorded_at, at());
    let r = sim.compose(2, CurvePoint::Decay { remaining: 250_000 }, draws, at());
    assert_eq!(r.color, TiltColor::Green);
    assert_eq!(r.gravity, 1_022_950);
    assert_eq!(r.temperature_f, 67_700_000);
}

#[test]
fn compose_holds_gravity_between_target_and_start() {
    let sim = default_sim();
    let quiet = Draws { gravity_noise: 0, temperature_jitter: 0, rssi: -60 };
    let up = Draws { gravity_noise: 1_000, ..quiet };
    let down = Draws { gravity_noise: -1_000, ..quiet };
    let peak = CurvePoint::Periodic { sine: 1_000_000, cosine: 0 };
    let trough = CurvePoint::Periodic { sine: -1_000_000, cosine: 0 };
    assert_eq!(sim.compose(0, peak, quiet, at()).gravity, 1_055_000);
    assert_eq!(sim.compose(0, peak, up, at()).gravity, 1_055_000);
    assert_eq!(sim.compose(0, peak, down, at()).gravity, 1_054_000);
    assert_eq!(sim.compose(0, trough, quiet, at()).gravity, 1_012_000);
    assert_eq!(sim.compose(0, trough, down, at()).gravity, 1_012_000);
    assert_eq!(sim.compose(0, trough, up, at()).gravity, 1_013_000);
    assert_eq!(sim.compose(0, CurvePoint::Decay { remaining: 1_000_000 }, quiet, at()).gravity, 1_055_000);
    assert_eq!(sim.compose(0, CurvePoint::Decay { remaining: 0 }, quiet, at()).gravity, 1_012_000);
    assert_eq!(sim.compose(0, CurvePoint::Decay { remaining: 50_000 }, quiet, at()).gravity, 1_014_150);
}

#[test]
fn compose_counts_curve_values_within_their_range() {
    let sim = default_sim();
    let quiet = Draws { gravity_noise: 0, temperature_jitter: 0, rssi: -60 };
    let wild = CurvePoint::Periodic { sine: i64::MAX, cosine: i64::MIN };
    let r = sim.compose(0, wild, quiet, at());
    assert_eq!(r.gravity, 1_055_000);
    assert_eq!(r.temperature_f, 66_000_000);
    let r = sim.compose(0, CurvePoint::Decay { remaining: i64::MIN }, quiet, at());
    assert_eq!(r.gravity, 1_012_000);
    let r = sim.compose(0, CurvePoint::Decay { remaining: i64::MAX }, quiet, at());
    assert_eq!(r.gravity, 1_055_000);
}

#[test]
fn compose_works_at_the_ends_of_the_number_range() {
    let sim = TiltSimulator::new(vec![TiltColor::Pink], i64::MAX, i64::MIN, i64::MAX);
    let draws = Draws { gravity_noise: 1_000, temperature_jitter: 500_000, rssi: -80 };
    let r = sim.compose(0, CurvePoint::Periodic { sine: 1_000_000, cosine: 1_000_000 }, draws, at());
    assert_eq!(r.gravity, i64::MAX);
    assert_eq!(r.temperature_f, i64::MAX);
    let r = sim.compose(0, CurvePoint::Periodic { sine: -1_000_000, cosine: 0 }, draws, at());
    assert_eq!(r.gravity, i64::MIN + 1_000);
    let r = sim.compose(0, CurvePoint::Periodic { sine: 0, cosine: 0 }, draws, at());
    assert_eq!(r.gravity, 999);
    let negative = TiltSimulator::new(vec![TiltColor::Pink], -3, -10, i64::MIN);
    let draws = Draws { gravity_noise: 0, temperature_jitter: -500_000, rssi: -80 };
    let r = negative.compose(0, CurvePoint::Periodic { sine: 0, cosine: -1_000_000 }, draws, at());
    assert_eq!(r.gravity, -7);
    assert_eq!(r.temperature_f, i64::MIN);
    let r = negative.compose(0, CurvePoint::Decay { remaining: 999_999 }, draws, at());
    assert_eq!(r.gravity, -4);
}

#[test]
fn phase_spreads_identities_over_the_turn() {
    assert_eq!(PERIOD_MILLIS, 180_000);
    assert_eq!(phase(0, 0, 1), 0);
    assert_eq!(phase(45_000, 0, 1), 250_000);
    assert_eq!(phase(90_000, 0, 1), 500_000);
    assert_eq!(phase(180_000, 0, 1), 0);
    assert_eq!(phase(270_000, 0, 1), 500_000);
    assert_eq!(phase(0, 1, 3), 333_333);
    assert_eq!(phase(0, 2, 3), 666_666);
    assert_eq!(phase(135_000, 1, 2), 250_000);
    assert_eq!(phase(u64::MAX, 7, 8), (u64::MAX % 180_000 * 1_000_000 / 180_000 + 875_000) as u32 % 1_000_000);
    assert_eq!(phase(1, usize::MAX - 1, usize::MAX), 4);
}
