use rc_meter::pins::Level;
use rc_meter::sequencer::{Action, Event, Intervals, Sequencer, Settings};
use rc_meter::solver::{Network, Ratio, Solution, LOG_SCALE, RREF_OHMS};

/// `-ln(1 - 2.3 / 3.3)`.
fn log_factor() -> f64 {
    -libm::log(1.0 - 2.3 / 3.3)
}

fn board() -> Network {
    Network {
        rref_ohms: 10_000,
        ticks_per_second: 1_000_000,
        log_micro: (log_factor() * 1_000_000.0) as u32,
    }
}

fn value(ratio: Ratio) -> f64 {
    ratio.numerator as f64 / ratio.denominator as f64
}

fn close(found: f64, expected: f64, tolerance: f64) -> bool {
    ((found - expected) / expected).abs() <= tolerance
}

fn less(a: Ratio, b: Ratio) -> bool {
    a.denominator > 0 && b.denominator > 0
        && a.numerator * b.denominator < b.numerator * a.denominator
}

#[test]
fn board_constants() {
    assert_eq!(RREF_OHMS, 10_000);
    assert_eq!(LOG_SCALE, 1_000_000);
    assert_eq!(board().log_micro, 1_193_922);
    assert_eq!(rc_meter::sequencer::TRIGGER_PERIOD_MS, 1_000);
}

#[test]
fn ten_milliseconds_through_the_reference_resistor() {
    let farads = board().capacitance(10_000);
    assert_eq!(
        farads,
        Ratio { numerator: 10_000_000_000, denominator: 11_939_220_000_000_000 }
    );
    let formula = 0.01 / (10_000.0 * log_factor());
    assert!(close(value(farads), formula, 1e-6));
    assert!(close(value(farads), 8.36e-7, 1e-2));
}

#[test]
fn twenty_milliseconds_through_the_unknown_resistor() {
    let network = board();
    let ohms = network.resistance(20_000, 10_000);
    assert_eq!(ohms, Ratio { numerator: 200_000_000, denominator: 10_000 });
    assert_eq!(value(ohms), 20_000.0);
    let farads = value(network.capacitance(10_000));
    let formula = 0.02 / (farads * log_factor());
    assert!(close(value(ohms), formula, 1e-6));
}

#[test]
fn solve_gives_both_results() {
    let network = board();
    let solution = network.solve(Intervals { t1_ticks: 20_000, t2_ticks: 10_000 });
    assert_eq!(
        solution,
        Solution {
            capacitance: network.capacitance(10_000),
            resistance: network.resistance(20_000, 10_000),
        }
    );
    assert_eq!(solution.resistance.numerator, 200_000_000);
    assert_eq!(solution.capacitance.numerator, 10_000_000_000);
}

#[test]
fn positive_intervals_give_positive_results() {
    let network = board();
    for (t1, t2) in [(1, 1), (1, u32::MAX), (u32::MAX, 1), (20_000, 10_000)] {
        let solution = network.solve(Intervals { t1_ticks: t1, t2_ticks: t2 });
        assert!(solution.capacitance.numerator > 0 && solution.capacitance.denominator > 0);
        assert!(solution.resistance.numerator > 0 && solution.resistance.denominator > 0);
        assert!(value(solution.capacitance) > 0.0);
        assert!(value(solution.resistance) > 0.0);
    }
}

#[test]
fn known_network_comes_back_within_tolerance() {
    let r_true = 22_000.0;
    let c_true = 4.7e-6;
    let t1 = (r_true * c_true * log_factor() * 1_000_000.0 + 0.5) as u32;
    let t2 = (10_000.0 * c_true * log_factor() * 1_000_000.0 + 0.5) as u32;
    assert_eq!(t1, 123_452);
    assert_eq!(t2, 56_114);
    let solution = board().solve(Intervals { t1_ticks: t1, t2_ticks: t2 });
    assert!(close(value(solution.resistance), r_true, 1e-4));
    assert!(close(value(solution.capacitance), c_true, 1e-4));
}

#[test]
fn exactly_doubled_interval_is_exactly_twice_the_reference() {
    let ohms = board().resistance(2 * 7_919, 7_919);
    assert_eq!(ohms.numerator, 20_000 * ohms.denominator);
}

#[test]
fn resistance_grows_with_the_first_interval() {
    let network = board();
    let mut before = network.resistance(0, 10_000);
    for t1 in [1, 2, 9_999, 10_000, 10_001, u32::MAX] {
        let after = network.resistance(t1, 10_000);
        assert!(less(before, after));
        before = after;
    }
}

#[test]
fn capacitance_grows_with_the_second_interval() {
    let network = board();
    let mut before = network.capacitance(0);
    for t2 in [1, 2, 9_999, 10_000, 10_001, u32::MAX] {
        let after = network.capacitance(t2);
        assert!(less(before, after));
        before = after;
    }
}

#[test]
fn zero_first_interval_gives_zero_resistance() {
    let ohms = board().resistance(0, 10_000);
    assert_eq!(ohms, Ratio { numerator: 0, denominator: 10_000 });
    assert_eq!(value(ohms), 0.0);
}

#[test]
fn zero_second_interval_gives_zero_capacitance() {
    let farads = board().capacitance(0);
    assert_eq!(farads.numerator, 0);
    assert_eq!(farads.denominator, 11_939_220_000_000_000);
    assert_eq!(value(farads), 0.0);
}

#[test]
fn zero_second_interval_gives_a_resistance_that_is_not_finite() {
    let network = board();
    let ohms = network.resistance(20_000, 0);
    assert_eq!(ohms, Ratio { numerator: 200_000_000, denominator: 0 });
    assert!(value(ohms).is_infinite());
    let both = network.resistance(0, 0);
    assert_eq!(both, Ratio { numerator: 0, denominator: 0 });
    assert!(value(both).is_nan());
}

#[test]
fn largest_inputs_do_not_overflow() {
    let network = Network {
        rref_ohms: u32::MAX,
        ticks_per_second: u32::MAX,
        log_micro: u32::MAX,
    };
    let max = u32::MAX as u128;
    let solution = network.solve(Intervals { t1_ticks: u32::MAX, t2_ticks: u32::MAX });
    assert_eq!(solution.capacitance.numerator, max * 1_000_000);
    assert_eq!(solution.capacitance.denominator, max * max * max);
    assert_eq!(solution.resistance, Ratio { numerator: max * max, denominator: max });
}

#[test]
fn network_without_a_resistor_rate_or_logarithm_is_not_well_formed() {
    assert!(board().is_well_formed());
    assert!(!Network { rref_ohms: 0, ..board() }.is_well_formed());
    assert!(!Network { ticks_per_second: 0, ..board() }.is_well_formed());
    assert!(!Network { log_micro: 0, ..board() }.is_well_formed());
}

#[test]
fn reported_intervals_solve_to_the_resistance() {
    let mut sequencer = Sequencer::new(Settings::standard());
    let mut event = Event::Triggered;
    let mut first = true;
    let intervals = loop {
        let action = sequencer.step(event).unwrap();
        event = match action {
            Action::ReadSense => Event::Sensed(Level::High),
            Action::SampleCapture => {
                let ticks = if first { 4_700 } else { 1_000 };
                first = false;
                Event::Ticks(ticks)
            }
            Action::Report(intervals) => break intervals,
            _ => Event::Done,
        };
    };
    let ohms = board().solve(intervals).resistance;
    assert_eq!(ohms, Ratio { numerator: 47_000_000, denominator: 1_000 });
    assert_eq!(value(ohms), 47_000.0);
}
