use liquidation_engine::accounts::OnChainInsuranceFund;
use liquidation_engine::insurance::{
    InsuranceFundManager, ReserveChange, ReserveChangeKind, ReserveReport, MIN_RESERVE_BALANCE,
};
use liquidation_engine::websocket::{reserve_event, WsMessage};

fn fund_with_balance(balance: u64) -> OnChainInsuranceFund {
    OnChainInsuranceFund {
        authority: [3u8; 32],
        balance,
        total_contributions: 0,
        total_bad_debt_covered: 0,
        utilization_ratio: 0,
    }
}

#[test]
fn balance_sequence_yields_deposit_then_bad_debt_cover() {
    let mut manager = InsuranceFundManager::new();
    assert_eq!(manager.last_balance(), 0);

    let first = manager.check_fund_health(&fund_with_balance(0));
    assert_eq!(first, ReserveReport { change: None, low_balance: true, balance: 0 });

    let second = manager.check_fund_health(&fund_with_balance(5_000_000));
    assert_eq!(
        second,
        ReserveReport {
            change: Some(ReserveChange {
                amount: 5_000_000,
                kind: ReserveChangeKind::DepositOrFee
            }),
            low_balance: false,
            balance: 5_000_000,
        }
    );
    assert_eq!(manager.last_balance(), 5_000_000);

    let third = manager.check_fund_health(&fund_with_balance(4_200_000));
    assert_eq!(
        third,
        ReserveReport {
            change: Some(ReserveChange {
                amount: 800_000,
                kind: ReserveChangeKind::BadDebtCover
            }),
            low_balance: false,
            balance: 4_200_000,
        }
    );
    assert_eq!(manager.last_balance(), 4_200_000);
}

#[test]
fn low_balance_is_reported_at_every_observation_under_minimum() {
    assert_eq!(MIN_RESERVE_BALANCE, 1_000_000);
    let mut manager = InsuranceFundManager::new();
    assert!(manager.check_fund_health(&fund_with_balance(999_999)).low_balance);
    let again = manager.check_fund_health(&fund_with_balance(999_999));
    assert!(again.low_balance);
    assert_eq!(again.change, None);
    assert!(!manager.check_fund_health(&fund_with_balance(1_000_000)).low_balance);
    assert!(manager.check_fund_health(&fund_with_balance(1)).low_balance);
}

#[test]
fn change_magnitude_is_exact_at_the_largest_balances() {
    let mut manager = InsuranceFundManager::new();
    let up = manager.check_fund_health(&fund_with_balance(u64::MAX));
    assert_eq!(
        up.change,
        Some(ReserveChange { amount: u64::MAX, kind: ReserveChangeKind::DepositOrFee })
    );
    let down = manager.check_fund_health(&fund_with_balance(0));
    assert_eq!(
        down.change,
        Some(ReserveChange { amount: u64::MAX, kind: ReserveChangeKind::BadDebtCover })
    );
}

#[test]
fn change_kinds_have_their_labels() {
    assert_eq!(ReserveChangeKind::DepositOrFee.reason(), "Deposit/Fee");
    assert_eq!(ReserveChangeKind::BadDebtCover.reason(), "Bad Debt Cover");
    assert_eq!(ReserveChangeKind::DepositOrFee.transaction_type(), "DEPOSIT");
    assert_eq!(ReserveChangeKind::BadDebtCover.transaction_type(), "WITHDRAWAL");
}

#[test]
fn reserve_update_is_published_only_on_change() {
    let mut manager = InsuranceFundManager::new();
    let unchanged = manager.check_fund_health(&fund_with_balance(0));
    assert!(reserve_event(&unchanged).is_none());
    let changed = manager.check_fund_health(&fund_with_balance(42));
    match reserve_event(&changed) {
        Some(WsMessage::InsuranceFundUpdate { balance }) => assert_eq!(balance, 42),
        _ => panic!("expected a reserve update"),
    }
}
