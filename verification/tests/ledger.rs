use liquidation_engine::accounts::OnChainInsuranceFund;
use liquidation_engine::ledger::{
    absorb_shortfall, initialize_insurance_fund, liquidate_full, liquidate_partial,
    open_position, LiquidationError,
};

fn reserve(balance: u64, covered: u64) -> OnChainInsuranceFund {
    OnChainInsuranceFund {
        authority: [8u8; 32],
        balance,
        total_contributions: 11,
        total_bad_debt_covered: covered,
        utilization_ratio: 12,
    }
}

#[test]
fn opened_position_has_a_twentieth_as_maintenance_margin() {
    let position = open_position([2u8; 32], String::from("SOL/USD"), 1_000, 500, 2_019, 10);
    assert_eq!(position.owner, [2u8; 32]);
    assert_eq!(position.symbol, "SOL/USD");
    assert_eq!(position.size, 1_000);
    assert_eq!(position.collateral, 500);
    assert_eq!(position.entry_price, 2_019);
    assert_eq!(position.leverage, 10);
    assert_eq!(position.maintenance_margin, 100_950);
    let odd = open_position([2u8; 32], String::from("SOL/USD"), 3, 0, 13, 1);
    assert_eq!(odd.maintenance_margin, 1);
    let largest = open_position([2u8; 32], String::new(), u64::MAX, 0, 1, 1);
    assert_eq!(largest.maintenance_margin, u64::MAX / 20);
}

#[test]
fn new_reserve_is_empty() {
    let fund = initialize_insurance_fund([8u8; 32]);
    assert_eq!(fund.authority, [8u8; 32]);
    assert_eq!(fund.balance, 0);
    assert_eq!(fund.total_contributions, 0);
    assert_eq!(fund.total_bad_debt_covered, 0);
    assert_eq!(fund.utilization_ratio, 0);
}

#[test]
fn partial_liquidation_reduces_size_and_pays_reward() {
    let mut position = open_position([2u8; 32], String::from("SOL/USD"), 1_000, 500, 2_000, 10);
    let event = liquidate_partial(&mut position, [3u8; 32], 401, 1_700_000_000).unwrap();
    assert_eq!(position.size, 599);
    assert_eq!(position.collateral, 490);
    assert_eq!(position.entry_price, 2_000);
    assert_eq!(position.maintenance_margin, 100_000);
    assert_eq!(event.position_owner, [2u8; 32]);
    assert_eq!(event.liquidator, [3u8; 32]);
    assert_eq!(event.symbol, "SOL/USD");
    assert_eq!(event.liquidated_size, 401);
    assert_eq!(event.liquidation_price, 100);
    assert_eq!(event.margin_before, 1000);
    assert_eq!(event.margin_after, 1200);
    assert_eq!(event.liquidator_reward, 10);
    assert_eq!(event.bad_debt, 0);
    assert_eq!(event.timestamp, 1_700_000_000);
    assert!(!event.is_full);
}

#[test]
fn partial_liquidation_above_size_is_refused() {
    let mut position = open_position([2u8; 32], String::from("SOL/USD"), 1_000, 500, 2_000, 10);
    let refused = liquidate_partial(&mut position, [3u8; 32], 1_001, 0);
    assert_eq!(refused.unwrap_err(), LiquidationError::InvalidLiquidationAmount);
    assert_eq!(position.size, 1_000);
    assert_eq!(position.collateral, 500);
    let whole = liquidate_partial(&mut position, [3u8; 32], 1_000, 0).unwrap();
    assert_eq!(whole.liquidated_size, 1_000);
    assert_eq!(position.size, 0);
    assert_eq!(position.collateral, 475);
}

#[test]
fn full_liquidation_closes_position_and_spares_reserve() {
    let mut position = open_position([2u8; 32], String::from("ETH/USD"), 1_000, 500, 2_000, 10);
    let mut fund = reserve(70, 5);
    let event = liquidate_full(&mut position, &mut fund, [3u8; 32], -4);
    assert_eq!(position.size, 0);
    assert_eq!(position.collateral, 500);
    assert_eq!(position.symbol, "ETH/USD");
    assert_eq!(fund.balance, 70);
    assert_eq!(fund.total_bad_debt_covered, 5);
    assert_eq!(fund.total_contributions, 11);
    assert_eq!(event.position_owner, [2u8; 32]);
    assert_eq!(event.liquidator, [3u8; 32]);
    assert_eq!(event.symbol, "ETH/USD");
    assert_eq!(event.liquidated_size, 1_000);
    assert_eq!(event.liquidation_price, 100);
    assert_eq!(event.margin_before, 500);
    assert_eq!(event.margin_after, 0);
    assert_eq!(event.liquidator_reward, 10);
    assert_eq!(event.bad_debt, 0);
    assert_eq!(event.timestamp, -4);
    assert!(event.is_full);
}

#[test]
fn reserve_absorbs_shortfall_down_to_zero() {
    let mut fund = reserve(70, 5);
    absorb_shortfall(&mut fund, 100);
    assert_eq!((fund.balance, fund.total_bad_debt_covered), (70, 5));
    absorb_shortfall(&mut fund, 0);
    assert_eq!((fund.balance, fund.total_bad_debt_covered), (70, 5));
    absorb_shortfall(&mut fund, -30);
    assert_eq!((fund.balance, fund.total_bad_debt_covered), (40, 35));
    absorb_shortfall(&mut fund, -41);
    assert_eq!((fund.balance, fund.total_bad_debt_covered), (0, 76));
    assert_eq!(fund.total_contributions, 11);
    assert_eq!(fund.utilization_ratio, 12);
    let mut deep = reserve(u64::MAX, 0);
    absorb_shortfall(&mut deep, i64::MIN);
    assert_eq!(deep.total_bad_debt_covered, 1u64 << 63);
    assert_eq!(deep.balance, u64::MAX - (1u64 << 63));
}

#[test]
fn ledger_errors_have_their_messages() {
    assert_eq!(LiquidationError::NotLiquidatable.message(), "Position is not liquidatable");
    assert_eq!(
        LiquidationError::InvalidLiquidationAmount.message(),
        "Invalid liquidation amount"
    );
}
