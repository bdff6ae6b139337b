use liquidation_engine::margin::{
    classify, critical_threshold, evaluate, get_maintenance_margin_ratio, margin_ratio,
    target_ratio, warning_threshold, Evaluation, MarginEvaluation, RiskLevel,
};
use liquidation_engine::position::Position;

fn margin_position(size: u64, entry_price: u64, collateral: u64, leverage: u16) -> Position {
    Position {
        id: String::from("position-1"),
        owner: [7u8; 32],
        symbol: String::from("SOL/USD"),
        size,
        collateral,
        entry_price,
        leverage,
        is_long: true,
    }
}

fn as_fraction(parts_per_million: i128) -> f64 {
    parts_per_million as f64 / 1_000_000.0
}

#[test]
fn test_maintenance_margin_tiers() {
    assert_eq!(as_fraction(get_maintenance_margin_ratio(10) as i128), 0.025);
    assert_eq!(as_fraction(get_maintenance_margin_ratio(50) as i128), 0.01);
    assert_eq!(as_fraction(get_maintenance_margin_ratio(100) as i128), 0.005);
    assert_eq!(as_fraction(get_maintenance_margin_ratio(1000) as i128), 0.001);
    assert_eq!(as_fraction(get_maintenance_margin_ratio(20) as i128), 0.025);
    assert_eq!(as_fraction(get_maintenance_margin_ratio(21) as i128), 0.01);
    assert_eq!(as_fraction(get_maintenance_margin_ratio(51) as i128), 0.005);
    assert_eq!(as_fraction(get_maintenance_margin_ratio(101) as i128), 0.0025);
    assert_eq!(as_fraction(get_maintenance_margin_ratio(500) as i128), 0.0025);
    assert_eq!(as_fraction(get_maintenance_margin_ratio(501) as i128), 0.001);
}

#[test]
fn test_liquidation_logic() {
    let size = 100.0;
    let entry_price = 100.0;
    let collateral = 1000.0;
    let leverage = 10;
    let scale = 1_000_000.0;
    let position = margin_position(
        (size * scale) as u64,
        (entry_price * scale) as u64,
        (collateral * scale) as u64,
        leverage,
    );

    let mark_price = 105.0;
    let ratio = margin_ratio(&position, (mark_price * scale) as u64).unwrap();
    assert!(as_fraction(ratio) > 0.025);

    let mark_price_drop = 91.0;
    let ratio_drop = margin_ratio(&position, (mark_price_drop * scale) as u64).unwrap();
    assert!(as_fraction(ratio_drop) < 0.025);
}

#[test]
fn maintenance_ratio_matches_step_table() {
    let table: [(u16, u32); 12] = [
        (1, 25_000),
        (10, 25_000),
        (20, 25_000),
        (21, 10_000),
        (50, 10_000),
        (51, 5_000),
        (100, 5_000),
        (101, 2_500),
        (500, 2_500),
        (501, 1_000),
        (1000, 1_000),
        (1001, 25_000),
    ];
    for (leverage, expected) in table {
        assert_eq!(get_maintenance_margin_ratio(leverage), expected);
    }
}

#[test]
fn maintenance_ratio_never_rises_within_tiers() {
    let mut last = get_maintenance_margin_ratio(1);
    for leverage in 2..=1000u16 {
        let ratio = get_maintenance_margin_ratio(leverage);
        assert!(ratio <= last);
        last = ratio;
    }
}

#[test]
fn leverage_outside_tiers_gets_fallback() {
    assert_eq!(get_maintenance_margin_ratio(0), 25_000);
    assert_eq!(get_maintenance_margin_ratio(1001), 25_000);
    assert_eq!(get_maintenance_margin_ratio(u16::MAX), 25_000);
}

#[test]
fn thresholds_follow_maintenance_ratio() {
    assert_eq!(warning_threshold(10), 27_500);
    assert_eq!(critical_threshold(10), 2_500);
    assert_eq!(target_ratio(10), 30_000);
    assert_eq!(warning_threshold(1000), 1_100);
    assert_eq!(critical_threshold(1000), 100);
    assert_eq!(target_ratio(1000), 1_200);
    assert_eq!(warning_threshold(300), 2_750);
}

#[test]
fn zero_notional_is_skipped() {
    let no_size = margin_position(0, 100_000_000, 1_000_000_000, 10);
    assert_eq!(evaluate(&no_size, 91_000_000), Evaluation::Skip);
    assert_eq!(margin_ratio(&no_size, 91_000_000), None);
    let position = margin_position(100_000_000, 100_000_000, 1_000_000_000, 10);
    assert_eq!(evaluate(&position, 0), Evaluation::Skip);
    assert_eq!(margin_ratio(&position, 0), None);
}

#[test]
fn falling_price_makes_position_liquidatable() {
    let position = margin_position(100_000_000, 100_000_000, 1_000_000_000, 10);
    assert_eq!(
        evaluate(&position, 91_000_000),
        Evaluation::Evaluated(MarginEvaluation {
            margin_ratio: 10_989,
            maintenance_ratio: 25_000,
            warning_threshold: 27_500,
            risk: RiskLevel::Liquidatable,
        })
    );
}

#[test]
fn rising_price_keeps_position_healthy() {
    let position = margin_position(100_000_000, 100_000_000, 1_000_000_000, 10);
    assert_eq!(
        evaluate(&position, 105_000_000),
        Evaluation::Evaluated(MarginEvaluation {
            margin_ratio: 142_857,
            maintenance_ratio: 25_000,
            warning_threshold: 27_500,
            risk: RiskLevel::Healthy,
        })
    );
}

#[test]
fn evaluation_is_repeatable() {
    let position = margin_position(100_000_000, 100_000_000, 1_000_000_000, 10);
    let first = evaluate(&position, 91_000_000);
    let second = evaluate(&position, 91_000_000);
    assert_eq!(first, second);
}

#[test]
fn ratio_between_thresholds_is_a_warning() {
    assert_eq!(classify(24_999, 10), RiskLevel::Liquidatable);
    assert_eq!(classify(25_000, 10), RiskLevel::Warning);
    assert_eq!(classify(27_499, 10), RiskLevel::Warning);
    assert_eq!(classify(27_500, 10), RiskLevel::Healthy);
    assert_eq!(classify(-1, 1000), RiskLevel::Liquidatable);
}

#[test]
fn ratio_is_negative_when_loss_exceeds_collateral() {
    // equity = 1000 - 100 * 20 = -1000, notional = 100 * 80 = 8000
    let position = margin_position(100_000_000, 100_000_000, 1_000_000_000, 10);
    assert_eq!(margin_ratio(&position, 80_000_000), Some(-125_000));
    // equity = 1 - 100 * 1 = -99, notional = 9900: -0.01 exactly
    let thin = margin_position(100_000_000, 100_000_000, 1_000_000, 10);
    assert_eq!(margin_ratio(&thin, 99_000_000), Some(-10_000));
    // equity = -98.999999, notional 9900: rounds down, away from zero
    let thinner = margin_position(100_000_000, 100_000_000, 1_000_001, 10);
    assert_eq!(margin_ratio(&thinner, 99_000_000), Some(-10_000));
    let thinnest = margin_position(100_000_000, 100_000_000, 999_999, 10);
    assert_eq!(margin_ratio(&thinnest, 99_000_000), Some(-10_001));
}

#[test]
fn ratio_may_exceed_one() {
    // equity = 1000 + 100 * 100 = 11000, notional = 100 * 200 = 20000 -> 0.55
    let position = margin_position(100_000_000, 100_000_000, 1_000_000_000, 10);
    assert_eq!(margin_ratio(&position, 200_000_000), Some(550_000));
    // collateral alone is fifty times the notional
    let rich = margin_position(1_000_000, 1_000_000, 50_000_000, 10);
    assert_eq!(margin_ratio(&rich, 1_000_000), Some(50_000_000));
}

#[test]
fn short_position_gains_when_price_falls() {
    let mut position = margin_position(100_000_000, 100_000_000, 1_000_000_000, 10);
    position.is_long = false;
    // equity = 1000 + 100 * 9 = 1900, notional = 9100
    assert_eq!(margin_ratio(&position, 91_000_000), Some(208_791));
    // equity = 1000 - 100 * 9.5 = 50, notional = 10950
    assert_eq!(margin_ratio(&position, 109_500_000), Some(4_566));
}

#[test]
fn ratio_is_exact_at_the_largest_amounts() {
    let position = margin_position(u64::MAX, 0, u64::MAX, 10);
    assert_eq!(margin_ratio(&position, u64::MAX), Some(1_000_000));
    let underwater = margin_position(u64::MAX, u64::MAX, 0, 10);
    // equity = -size * (max - 1), notional = size * 1
    let expected = -((u64::MAX as i128 - 1) * 1_000_000);
    assert_eq!(margin_ratio(&underwater, 1), Some(expected));
}
