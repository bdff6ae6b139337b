use liquidation_engine::accounts::{
    decode_insurance_fund, decode_position, position_from_account, positions_from_accounts,
    LedgerAccount, RESERVE_ACCOUNT_ID,
};

fn position_bytes(
    owner: u8,
    symbol: &[u8],
    size: u64,
    collateral: u64,
    entry_price: u64,
    leverage: u16,
    maintenance_margin: u64,
) -> Vec<u8> {
    let mut data = vec![0xaau8; 8];
    data.extend_from_slice(&[owner; 32]);
    data.extend_from_slice(&(symbol.len() as u32).to_le_bytes());
    data.extend_from_slice(symbol);
    data.extend_from_slice(&size.to_le_bytes());
    data.extend_from_slice(&collateral.to_le_bytes());
    data.extend_from_slice(&entry_price.to_le_bytes());
    data.extend_from_slice(&leverage.to_le_bytes());
    data.extend_from_slice(&maintenance_margin.to_le_bytes());
    data
}

fn reserve_bytes(balance: u64, contributions: u64, covered: u64, utilization: u64) -> Vec<u8> {
    let mut data = vec![0x55u8; 8];
    data.extend_from_slice(&[4u8; 32]);
    data.extend_from_slice(&balance.to_le_bytes());
    data.extend_from_slice(&contributions.to_le_bytes());
    data.extend_from_slice(&covered.to_le_bytes());
    data.extend_from_slice(&utilization.to_le_bytes());
    data
}

#[test]
fn position_record_is_decoded_field_by_field() {
    let data = position_bytes(
        6,
        "SOL/USD".as_bytes(),
        0x0102_0304_0506_0708,
        1_000_000_000,
        u64::MAX,
        1000,
        0x8000_0000_0000_0001,
    );
    let record = decode_position(&data).unwrap();
    assert_eq!(record.owner, [6u8; 32]);
    assert_eq!(record.symbol, "SOL/USD");
    assert_eq!(record.size, 0x0102_0304_0506_0708);
    assert_eq!(record.collateral, 1_000_000_000);
    assert_eq!(record.entry_price, u64::MAX);
    assert_eq!(record.leverage, 1000);
    assert_eq!(record.maintenance_margin, 0x8000_0000_0000_0001);
}

#[test]
fn position_record_may_have_empty_or_multibyte_symbol() {
    let empty = decode_position(&position_bytes(6, b"", 1, 2, 3, 4, 5)).unwrap();
    assert_eq!(empty.symbol, "");
    assert_eq!(empty.size, 1);
    assert_eq!(empty.maintenance_margin, 5);
    let wide = decode_position(&position_bytes(6, "é€/USD".as_bytes(), 1, 2, 3, 4, 5)).unwrap();
    assert_eq!(wide.symbol, "é€/USD");
    assert_eq!(wide.leverage, 4);
}

#[test]
fn malformed_position_data_is_rejected() {
    let good = position_bytes(6, b"SOL/USD", 1, 2, 3, 4, 5);
    assert!(decode_position(&good).is_some());
    let mut trailing = good.clone();
    trailing.push(0);
    assert!(decode_position(&trailing).is_none());
    let mut short = good.clone();
    short.pop();
    assert!(decode_position(&short).is_none());
    assert!(decode_position(&Vec::new()).is_none());
    assert!(decode_position(&vec![0u8; 7]).is_none());
    assert!(decode_position(&vec![0u8; 43]).is_none());
    assert!(decode_position(&vec![0u8; 77]).is_none());
    assert!(decode_position(&vec![0u8; 78]).is_some());
    let mut long_symbol = good.clone();
    long_symbol[43] = 0xff;
    assert!(decode_position(&long_symbol).is_none());
    assert!(decode_position(&position_bytes(6, &[0xff, 0xfe], 1, 2, 3, 4, 5)).is_none());
    assert!(decode_position(&position_bytes(6, &[0xc3], 1, 2, 3, 4, 5)).is_none());
}

#[test]
fn reserve_record_is_decoded_field_by_field() {
    let data = reserve_bytes(5_000_000, 0x0102_0304_0506_0708, u64::MAX, 250);
    let fund = decode_insurance_fund(&data).unwrap();
    assert_eq!(fund.authority, [4u8; 32]);
    assert_eq!(fund.balance, 5_000_000);
    assert_eq!(fund.total_contributions, 0x0102_0304_0506_0708);
    assert_eq!(fund.total_bad_debt_covered, u64::MAX);
    assert_eq!(fund.utilization_ratio, 250);
}

#[test]
fn malformed_reserve_data_is_rejected() {
    let good = reserve_bytes(1, 2, 3, 4);
    let mut trailing = good.clone();
    trailing.push(0);
    assert!(decode_insurance_fund(&trailing).is_none());
    let mut short = good.clone();
    short.pop();
    assert!(decode_insurance_fund(&short).is_none());
    assert!(decode_insurance_fund(&vec![0u8; 7]).is_none());
    assert!(decode_insurance_fund(&Vec::new()).is_none());
}

#[test]
fn account_becomes_a_long_position_snapshot() {
    let account = LedgerAccount {
        id: String::from("position-account"),
        data: position_bytes(6, b"BTC/USD", 100_000_000, 1_000_000_000, 100_000_000, 300, 9),
    };
    let position = position_from_account(&account).unwrap();
    assert_eq!(position.id, "position-account");
    assert_eq!(position.owner, [6u8; 32]);
    assert_eq!(position.symbol, "BTC/USD");
    assert_eq!(position.size, 100_000_000);
    assert_eq!(position.collateral, 1_000_000_000);
    assert_eq!(position.entry_price, 100_000_000);
    assert_eq!(position.leverage, 300);
    assert!(position.is_long);
}

#[test]
fn reserve_account_and_malformed_accounts_are_passed_over() {
    let accounts = vec![
        LedgerAccount { id: String::from("short"), data: vec![1, 2, 3] },
        LedgerAccount { id: String::from("first"), data: position_bytes(1, b"SOL/USD", 1, 2, 3, 4, 5) },
        LedgerAccount {
            id: String::from(RESERVE_ACCOUNT_ID),
            data: position_bytes(2, b"SOL/USD", 1, 2, 3, 4, 5),
        },
        LedgerAccount { id: String::from("reserve-shaped"), data: reserve_bytes(1, 2, 3, 4) },
        LedgerAccount { id: String::from("second"), data: position_bytes(3, b"ETH/USD", 6, 7, 8, 9, 10) },
    ];
    assert!(position_from_account(&accounts[2]).is_none());
    let positions = positions_from_accounts(&accounts);
    assert_eq!(positions.len(), 2);
    assert_eq!(positions[0].id, "first");
    assert_eq!(positions[0].owner, [1u8; 32]);
    assert_eq!(positions[1].id, "second");
    assert_eq!(positions[1].symbol, "ETH/USD");
    assert_eq!(positions[1].size, 6);
    assert_eq!(positions[1].leverage, 9);
    assert!(positions_from_accounts(&Vec::new()).is_empty());
}
