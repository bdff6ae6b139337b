use vstd::prelude::*;
use vstd::utf8::{decode_utf8, valid_utf8};
use crate::position::Position;
use crate::text::same_text;

verus! {

/// Every account's data begins with a tag of this many bytes, which is not
/// part of the record.
pub const TAG_LEN: usize = 8;

/// The length of an account identity.
pub const KEY_LEN: usize = 32;

/// The account that holds the insurance reserve. It lives beside the
/// position accounts and is never read as a position.
pub const RESERVE_ACCOUNT_ID: &'static str = "9K3sRRPZRxfP8ECxkW7mPZ3GiMLbW1PWU2HuBn8seCHS";

/// A position as the ledger stores it.
#[derive(Debug)]
pub struct OnChainPosition {
    pub owner: [u8; 32],
    pub symbol: String,
    pub size: u64,
    pub collateral: u64,
    pub entry_price: u64,
    pub leverage: u16,
    pub maintenance_margin: u64,
}

/// The insurance reserve as the ledger stores it.
#[derive(Clone, Copy, Debug)]
pub struct OnChainInsuranceFund {
    pub authority: [u8; 32],
    pub balance: u64,
    pub total_contributions: u64,
    pub total_bad_debt_covered: u64,
    pub utilization_ratio: u64,
}

/// An account of the ledger program: its identifier and its raw data.
#[derive(Debug)]
pub struct LedgerAccount {
    pub id: String,
    pub data: Vec<u8>,
}

/// The number that two bytes at `at` spell, least significant byte first.
pub open spec fn le_u16(data: Seq<u8>, at: int) -> int {
    data[at] + data[at + 1] * 0x100
}

/// The number that four bytes at `at` spell, least significant byte first.
pub open spec fn le_u32(data: Seq<u8>, at: int) -> int {
    data[at] + data[at + 1] * 0x100 + data[at + 2] * 0x1_0000 + data[at + 3] * 0x100_0000
}

/// The number that eight bytes at `at` spell, least significant byte first.
pub open spec fn le_u64(data: Seq<u8>, at: int) -> int {
    le_u32(data, at) + le_u32(data, at + 4) * 0x1_0000_0000
}

fn read_u16(data: &Vec<u8>, at: usize) -> (value: u16)
    requires
        at + 2 <= data.len(),
    ensures
        value == le_u16(data@, at as int),
{
    data[at] as u16 + (data[at + 1] as u16) * 0x100
}

fn read_u32(data: &Vec<u8>, at: usize) -> (value: u32)
    requires
        at + 4 <= data.len(),
    ensures
        value == le_u32(data@, at as int),
{
    data[at] as u32 + (data[at + 1] as u32) * 0x100 + (data[at + 2] as u32) * 0x1_0000 + (data[at
        + 3] as u32) * 0x100_0000
}

fn read_u64(data: &Vec<u8>, at: usize) -> (value: u64)
    requires
        at + 8 <= data.len(),
    ensures
        value == le_u64(data@, at as int),
{
    read_u32(data, at) as u64 + (read_u32(data, at + 4) as u64) * 0x1_0000_0000
}

fn read_key(data: &Vec<u8>, at: usize) -> (key: [u8; 32])
    requires
        at + 32 <= data.len(),
    ensures
        key@ == data@.subrange(at as int, at + 32),
{
    let mut key: [u8; 32] = [0u8;32];
    let mut i: usize = 0;
    while i < 32
        invariant
            i <= 32,
            at + 32 <= data.len(),
            forall|j: int| 0 <= j < i ==> key@[j] == data@[at + j],
        decreases 32 - i,
    {
        key[i] = data[at + i];
        i += 1;
    }
    assert(key@ =~= data@.subrange(at as int, at + 32));
    key
}

fn read_bytes(data: &Vec<u8>, from: usize, to: usize) -> (bytes: Vec<u8>)
    requires
        from <= to <= data.len(),
    ensures
        bytes@ == data@.subrange(from as int, to as int),
{
    let mut bytes: Vec<u8> = Vec::new();
    let mut i: usize = from;
    while i < to
        invariant
            from <= i <= to <= data.len(),
            bytes@ == data@.subrange(from as int, i as int),
        decreases to - i,
    {
        bytes.push(data[i]);
        assert(bytes@ =~= data@.subrange(from as int, i + 1));
        i += 1;
    }
    bytes
}

/// Reads text with `String::from_utf8`, which accepts exactly the byte
/// strings that are well-formed UTF-8 and returns the characters they encode.
#[verifier::external_body]
fn text_from_utf8(bytes: Vec<u8>) -> (text: Option<String>)
    ensures
        text is Some <==> valid_utf8(bytes@),
        text is Some ==> text.unwrap()@ == decode_utf8(bytes@),
{
    match String::from_utf8(bytes) {
        Ok(text) => Some(text),
        Err(_) => None,
    }
}

/// The length that the symbol of a position record announces.
pub open spec fn symbol_len(data: Seq<u8>) -> int {
    le_u32(data, TAG_LEN + KEY_LEN)
}

/// Whether account data holds a position record: the tag, the owner, the
/// symbol as a length and that many bytes of well-formed UTF-8, three
/// amounts, the leverage and the maintenance margin, and nothing after them.
pub open spec fn is_position_record(data: Seq<u8>) -> bool {
    &&& data.len() >= 44
    &&& data.len() == 44 + symbol_len(data) + 34
    &&& valid_utf8(data.subrange(44, 44 + symbol_len(data)))
}

/// Whether `record` is what the data of a position record spells.
pub open spec fn position_record_of(data: Seq<u8>, record: OnChainPosition) -> bool {
    let fixed: int = 44 + symbol_len(data);
    &&& record.owner@ == data.subrange(8, 40)
    &&& record.symbol@ == decode_utf8(data.subrange(44, fixed))
    &&& record.size == le_u64(data, fixed)
    &&& record.collateral == le_u64(data, fixed + 8)
    &&& record.entry_price == le_u64(data, fixed + 16)
    &&& record.leverage == le_u16(data, fixed + 24)
    &&& record.maintenance_margin == le_u64(data, fixed + 26)
}

/// Decodes a position record from account data, or returns `None` where the
/// data does not hold one.
pub fn decode_position(data: &Vec<u8>) -> (record: Option<OnChainPosition>)
    ensures
        record is Some <==> is_position_record(data@),
        record is Some ==> position_record_of(data@, record.unwrap()),
{
    if data.len() < 44 {
        return None;
    }
    let announced: u32 = read_u32(data, 40);
    let rest: usize = data.len() - 44;
    if rest < 34 || (rest - 34) as u64 != announced as u64 {
        return None;
    }
    let fixed: usize = data.len() - 34;
    let symbol = match text_from_utf8(read_bytes(data, 44, fixed)) {
        Some(text) => text,
        None => {
            return None;
        },
    };
    Some(
        OnChainPosition {
            owner: read_key(data, 8),
            symbol,
            size: read_u64(data, fixed),
            collateral: read_u64(data, fixed + 8),
            entry_price: read_u64(data, fixed + 16),
            leverage: read_u16(data, fixed + 24),
            maintenance_margin: read_u64(data, fixed + 26),
        },
    )
}

/// Whether account data holds an insurance reserve record: the tag, the
/// authority and four amounts, and nothing after them.
pub open spec fn is_reserve_record(data: Seq<u8>) -> bool {
    data.len() == 72
}

/// Decodes the insurance reserve from account data, or returns `None` where
/// the data does not hold one.
pub fn decode_insurance_fund(data: &Vec<u8>) -> (record: Option<OnChainInsuranceFund>)
    ensures
        record is Some <==> is_reserve_record(data@),
        record is Some ==> {
            &&& record.unwrap().authority@ == data@.subrange(8, 40)
            &&& record.unwrap().balance == le_u64(data@, 40)
            &&& record.unwrap().total_contributions == le_u64(data@, 48)
            &&& record.unwrap().total_bad_debt_covered == le_u64(data@, 56)
            &&& record.unwrap().utilization_ratio == le_u64(data@, 64)
        },
{
    if data.len() != 72 {
        return None;
    }
    Some(
        OnChainInsuranceFund {
            authority: read_key(data, 8),
            balance: read_u64(data, 40),
            total_contributions: read_u64(data, 48),
            total_bad_debt_covered: read_u64(data, 56),
            utilization_ratio: read_u64(data, 64),
        },
    )
}

/// Whether an account is read as an open position: it is not the reserve
/// account and its data holds a position record.
pub open spec fn is_position_account(account: LedgerAccount) -> bool {
    account.id@ != RESERVE_ACCOUNT_ID@ && is_position_record(account.data@)
}

/// Whether `position` is the snapshot of the position that `account` holds.
/// Every position is taken as long.
pub open spec fn snapshot_of(account: LedgerAccount, position: Position) -> bool {
    let data = account.data@;
    let fixed: int = 44 + symbol_len(data);
    &&& position.id@ == account.id@
    &&& position.owner@ == data.subrange(8, 40)
    &&& position.symbol@ == decode_utf8(data.subrange(44, fixed))
    &&& position.size == le_u64(data, fixed)
    &&& position.collateral == le_u64(data, fixed + 8)
    &&& position.entry_price == le_u64(data, fixed + 16)
    &&& position.leverage == le_u16(data, fixed + 24)
    &&& position.is_long
}

/// How many of the first `n` accounts are read as open positions.
pub open spec fn position_count(accounts: Seq<LedgerAccount>, n: int) -> int
    decreases n,
{
    if n <= 0 {
        0
    } else {
        position_count(accounts, n - 1) + if is_position_account(accounts[n - 1]) {
            1int
        } else {
            0int
        }
    }
}

/// The snapshot of the position that an account holds, or `None` where the
/// account is the reserve account or holds no position record.
pub fn position_from_account(account: &LedgerAccount) -> (position: Option<Position>)
    ensures
        position is Some <==> is_position_account(*account),
        position is Some ==> snapshot_of(*account, position.unwrap()),
{
    if same_text(account.id.as_str(), RESERVE_ACCOUNT_ID) {
        return None;
    }
    match decode_position(&account.data) {
        None => None,
        Some(record) => Some(
            Position {
                id: account.id.clone(),
                owner: record.owner,
                symbol: record.symbol,
                size: record.size,
                collateral: record.collateral,
                entry_price: record.entry_price,
                leverage: record.leverage,
                is_long: true,
            },
        ),
    }
}

/// The open positions among the accounts of the ledger program, in the order
/// of the accounts. Accounts that hold no position record are passed over.
pub fn positions_from_accounts(accounts: &Vec<LedgerAccount>) -> (positions: Vec<Position>)
    ensures
        positions@.len() == position_count(accounts@, accounts@.len() as int),
        forall|i: int|
            0 <= i < accounts@.len() && is_position_account(#[trigger] accounts@[i]) ==> {
                &&& 0 <= position_count(accounts@, i) < positions@.len()
                &&& snapshot_of(accounts@[i], positions@[position_count(accounts@, i)])
            },
{
    let mut positions: Vec<Position> = Vec::new();
    let mut i: usize = 0;
    while i < accounts.len()
        invariant
            i <= accounts.len(),
            positions@.len() == position_count(accounts@, i as int),
            forall|j: int|
                0 <= j < i && is_position_account(#[trigger] accounts@[j]) ==> {
                    &&& 0 <= position_count(accounts@, j) < positions@.len()
                    &&& snapshot_of(accounts@[j], positions@[position_count(accounts@, j)])
                },
        decreases accounts.len() - i,
    {
        proof {
            lemma_position_count_bounds(accounts@, i as int);
        }
        match position_from_account(&accounts[i]) {
            Some(position) => {
                positions.push(position);
            },
            None => {},
        }
        i += 1;
    }
    positions
}

/// The count of positions among the first `n` accounts is between zero and
/// `n`, and never falls as `n` grows.
pub proof fn lemma_position_count_bounds(accounts: Seq<LedgerAccount>, n: int)
    requires
        0 <= n,
    ensures
        0 <= position_count(accounts, n) <= n,
        forall|m: int| 0 <= m <= n ==> position_count(accounts, m) <= position_count(accounts, n),
    decreases n,
{
    if n > 0 {
        lemma_position_count_bounds(accounts, n - 1);
    }
}

} // verus!
