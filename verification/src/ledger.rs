use vstd::prelude::*;
use crate::accounts::{OnChainInsuranceFund, OnChainPosition};

verus! {

/// The liquidator's reward is one fortieth (2.5%) of the liquidated size.
pub const REWARD_SHARE: u64 = 40;

/// The maintenance margin of a new position is one twentieth (5%) of its
/// value at entry.
pub const MAINTENANCE_SHARE: u64 = 20;

/// The price that settlement events carry.
pub const SETTLEMENT_PRICE: u64 = 100;

/// The margin left to a position that is closed in full.
pub const SETTLED_MARGIN: i64 = 100;

/// The reward paid for closing a position in full.
pub const FULL_LIQUIDATION_REWARD: u64 = 10;

/// Why the ledger refused an instruction.
#[derive(Clone, Copy, Debug, PartialEq, Eq, Structural)]
pub enum LiquidationError {
    NotLiquidatable,
    InvalidLiquidationAmount,
}

pub open spec fn message_spec(error: LiquidationError) -> Seq<char> {
    match error {
        LiquidationError::NotLiquidatable => "Position is not liquidatable"@,
        LiquidationError::InvalidLiquidationAmount => "Invalid liquidation amount"@,
    }
}

impl LiquidationError {
    pub fn message(&self) -> (text: &'static str)
        ensures
            text@ == message_spec(*self),
    {
        match self {
            LiquidationError::NotLiquidatable => "Position is not liquidatable",
            LiquidationError::InvalidLiquidationAmount => "Invalid liquidation amount",
        }
    }
}

/// What the ledger emits when it has liquidated a position.
#[derive(Debug)]
pub struct LiquidationEvent {
    pub position_owner: [u8; 32],
    pub liquidator: [u8; 32],
    pub symbol: String,
    pub liquidated_size: u64,
    pub liquidation_price: u64,
    pub margin_before: u64,
    pub margin_after: u64,
    pub liquidator_reward: u64,
    pub bad_debt: u64,
    pub timestamp: i64,
    pub is_full: bool,
}

/// Opens a position for `owner`. Its maintenance margin is a twentieth of
/// size times entry price, rounded down; that product has to fit the ledger's
/// amounts.
pub fn open_position(
    owner: [u8; 32],
    symbol: String,
    size: u64,
    collateral: u64,
    entry_price: u64,
    leverage: u16,
) -> (position: OnChainPosition)
    requires
        size * entry_price <= u64::MAX,
    ensures
        position == (OnChainPosition {
            owner,
            symbol,
            size,
            collateral,
            entry_price,
            leverage,
            maintenance_margin: ((size * entry_price) / 20) as u64,
        }),
{
    OnChainPosition {
        owner,
        symbol,
        size,
        collateral,
        entry_price,
        leverage,
        maintenance_margin: (size * entry_price) / MAINTENANCE_SHARE,
    }
}

/// An empty insurance reserve under `authority`.
pub fn initialize_insurance_fund(authority: [u8; 32]) -> (fund: OnChainInsuranceFund)
    ensures
        fund.authority == authority,
        fund.balance == 0,
        fund.total_contributions == 0,
        fund.total_bad_debt_covered == 0,
        fund.utilization_ratio == 0,
{
    OnChainInsuranceFund {
        authority,
        balance: 0,
        total_contributions: 0,
        total_bad_debt_covered: 0,
        utilization_ratio: 0,
    }
}

/// Takes `liquidation_amount` off a position's size and pays the liquidator
/// a fortieth of it from the position's collateral, which has to cover it.
/// An amount above the size is refused and the position is unchanged.
pub fn liquidate_partial(
    position: &mut OnChainPosition,
    liquidator: [u8; 32],
    liquidation_amount: u64,
    timestamp: i64,
) -> (result: Result<LiquidationEvent, LiquidationError>)
    requires
        liquidation_amount <= old(position).size ==> liquidation_amount / 40 <= old(
            position,
        ).collateral,
    ensures
        liquidation_amount > old(position).size ==> {
            &&& result == Err::<LiquidationEvent, LiquidationError>(
                LiquidationError::InvalidLiquidationAmount,
            )
            &&& *final(position) == *old(position)
        },
        liquidation_amount <= old(position).size ==> {
            &&& *final(position) == (OnChainPosition {
                size: (old(position).size - liquidation_amount) as u64,
                collateral: (old(position).collateral - liquidation_amount / 40) as u64,
                ..*old(position)
            })
            &&& result == Ok::<LiquidationEvent, LiquidationError>(
                LiquidationEvent {
                    position_owner: old(position).owner,
                    liquidator,
                    symbol: old(position).symbol,
                    liquidated_size: liquidation_amount,
                    liquidation_price: SETTLEMENT_PRICE,
                    margin_before: 1000,
                    margin_after: 1200,
                    liquidator_reward: liquidation_amount / 40,
                    bad_debt: 0,
                    timestamp,
                    is_full: false,
                },
            )
        },
{
    if liquidation_amount > position.size {
        return Err(LiquidationError::InvalidLiquidationAmount);
    }
    let reward: u64 = liquidation_amount / REWARD_SHARE;
    position.size = position.size - liquidation_amount;
    position.collateral = position.collateral - reward;
    Ok(
        LiquidationEvent {
            position_owner: position.owner,
            liquidator,
            symbol: position.symbol.clone(),
            liquidated_size: liquidation_amount,
            liquidation_price: SETTLEMENT_PRICE,
            margin_before: 1000,
            margin_after: 1200,
            liquidator_reward: reward,
            bad_debt: 0,
            timestamp,
            is_full: false,
        },
    )
}

/// The shortfall of a margin: its magnitude where it is negative, zero
/// otherwise.
pub open spec fn shortfall_spec(remaining_margin: i64) -> int {
    if remaining_margin < 0 {
        -(remaining_margin as int)
    } else {
        0
    }
}

/// Lets the reserve absorb the shortfall of a closed position. The balance
/// falls by the shortfall, to zero at most, and the total of bad debt covered
/// rises by all of it.
pub fn absorb_shortfall(fund: &mut OnChainInsuranceFund, remaining_margin: i64)
    requires
        old(fund).total_bad_debt_covered + shortfall_spec(remaining_margin) <= u64::MAX,
    ensures
        final(fund).authority == old(fund).authority,
        final(fund).total_contributions == old(fund).total_contributions,
        final(fund).utilization_ratio == old(fund).utilization_ratio,
        final(fund).total_bad_debt_covered == old(fund).total_bad_debt_covered + shortfall_spec(
            remaining_margin,
        ),
        final(fund).balance == if old(fund).balance >= shortfall_spec(remaining_margin) {
            old(fund).balance - shortfall_spec(remaining_margin)
        } else {
            0
        },
{
    if remaining_margin < 0 {
        let bad_debt: u64 = (-(remaining_margin as i128)) as u64;
        fund.balance = if fund.balance >= bad_debt {
            fund.balance - bad_debt
        } else {
            0
        };
        fund.total_bad_debt_covered = fund.total_bad_debt_covered + bad_debt;
    }
}

/// Closes a position in full. Its size becomes zero; the margin it is
/// settled at is not negative, so the reserve is left as it was.
pub fn liquidate_full(
    position: &mut OnChainPosition,
    insurance_fund: &mut OnChainInsuranceFund,
    liquidator: [u8; 32],
    timestamp: i64,
) -> (event: LiquidationEvent)
    ensures
        *final(position) == (OnChainPosition { size: 0, ..*old(position) }),
        final(insurance_fund).authority == old(insurance_fund).authority,
        final(insurance_fund).balance == old(insurance_fund).balance,
        final(insurance_fund).total_contributions == old(insurance_fund).total_contributions,
        final(insurance_fund).total_bad_debt_covered == old(
            insurance_fund,
        ).total_bad_debt_covered,
        final(insurance_fund).utilization_ratio == old(insurance_fund).utilization_ratio,
        event == (LiquidationEvent {
            position_owner: old(position).owner,
            liquidator,
            symbol: old(position).symbol,
            liquidated_size: old(position).size,
            liquidation_price: SETTLEMENT_PRICE,
            margin_before: 500,
            margin_after: 0,
            liquidator_reward: FULL_LIQUIDATION_REWARD,
            bad_debt: 0,
            timestamp,
            is_full: true,
        }),
{
    let size: u64 = position.size;
    position.size = 0;
    absorb_shortfall(insurance_fund, SETTLED_MARGIN);
    LiquidationEvent {
        position_owner: position.owner,
        liquidator,
        symbol: position.symbol.clone(),
        liquidated_size: size,
        liquidation_price: SETTLEMENT_PRICE,
        margin_before: 500,
        margin_after: 0,
        liquidator_reward: FULL_LIQUIDATION_REWARD,
        bad_debt: 0,
        timestamp,
        is_full: true,
    }
}

} // verus!
