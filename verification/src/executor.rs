use vstd::prelude::*;
use crate::position::Position;
use crate::margin::{
    critical_threshold, critical_threshold_spec, equity, price_move, target_ratio,
    target_ratio_spec,
};

verus! {

/// The liquidator's reward is one fortieth (2.5%) of the liquidated value.
pub const REWARD_DIVISOR: u128 = 40;

/// One settlement action against the ledger: which position, how much of its
/// size, and whether that closes it.
#[derive(Debug)]
pub struct SettlementAction {
    pub position_id: String,
    pub amount: u64,
    pub is_full: bool,
    pub target_ratio: u32,
}

/// The result of one dispatch attempt.
///
/// `reward` and `bad_debt` are values in units of 10^-12, as notional values
/// are.
#[derive(Debug)]
pub enum LiquidationOutcome {
    Success {
        position_id: String,
        symbol: String,
        amount: u64,
        price: u64,
        is_full: bool,
        reward: u128,
        bad_debt: u128,
        margin_ratio: i128,
    },
    Failure { position_id: String, error: String, retry_count: i32 },
}

/// What the ledger answered to a settlement action: the confirmation's
/// signature, or the reason it failed.
#[derive(Debug)]
pub enum SettlementResult {
    Confirmed(String),
    Failed(String),
}

/// Half the position's size, rounded up: a partial liquidation of an open
/// position always takes something, and never more than there is.
pub open spec fn partial_amount_spec(p: Position) -> int {
    p.size - p.size as int / 2
}

/// Whether a margin ratio calls for closing the whole position.
pub open spec fn is_critical(p: Position, margin_ratio: int) -> bool {
    margin_ratio < critical_threshold_spec(p.leverage)
}

/// The amount to liquidate: the whole size at a critical ratio, half of it
/// otherwise.
pub open spec fn liquidation_amount_spec(p: Position, margin_ratio: int) -> int {
    if is_critical(p, margin_ratio) {
        p.size as int
    } else {
        partial_amount_spec(p)
    }
}

/// Whatever the margin ratio, the amount to liquidate of an open position is
/// more than nothing and no more than its size, and a partial liquidation of
/// a position of more than the smallest size leaves some of it open.
pub proof fn lemma_liquidation_amount_bounds(p: Position, margin_ratio: int)
    requires
        p.size > 0,
    ensures
        0 < liquidation_amount_spec(p, margin_ratio) <= p.size,
        !is_critical(p, margin_ratio) && p.size >= 2 ==> liquidation_amount_spec(p, margin_ratio)
            < p.size,
        is_critical(p, margin_ratio) ==> liquidation_amount_spec(p, margin_ratio) == p.size,
{
}

/// The settlement action for a position at a margin ratio: the amount to
/// liquidate, whether that closes the position, and the ratio aimed at.
pub open spec fn settlement_action_spec(p: Position, margin_ratio: int) -> SettlementAction {
    SettlementAction {
        position_id: p.id,
        amount: liquidation_amount_spec(p, margin_ratio) as u64,
        is_full: is_critical(p, margin_ratio),
        target_ratio: target_ratio_spec(p.leverage) as u32,
    }
}

/// 2.5% of the value of `amount` at `mark_price`, rounded down.
pub open spec fn reward_spec(amount: u64, mark_price: u64) -> int {
    (amount * mark_price) / 40
}

/// What the position owes beyond its collateral at `mark_price`: zero unless
/// the equity is negative.
pub open spec fn bad_debt_spec(p: Position, mark_price: u64) -> int {
    if equity(p, mark_price) < 0 {
        -equity(p, mark_price)
    } else {
        0
    }
}

/// The liquidator's reward for `amount` at `mark_price`, in units of 10^-12.
pub fn liquidation_reward(amount: u64, mark_price: u64) -> (reward: u128)
    ensures
        reward == reward_spec(amount, mark_price),
{
    assert(amount * mark_price <= 0xffff_ffff_ffff_ffff * 0xffff_ffff_ffff_ffff) by (nonlinear_arith)
        requires
            amount <= 0xffff_ffff_ffff_ffff,
            mark_price <= 0xffff_ffff_ffff_ffff,
    ;
    (amount as u128) * (mark_price as u128) / REWARD_DIVISOR
}

/// The position's shortfall at `mark_price`, in units of 10^-12.
pub fn bad_debt(position: &Position, mark_price: u64) -> (debt: u128)
    ensures
        debt == bad_debt_spec(*position, mark_price),
{
    let adverse: u64 = if position.is_long {
        if mark_price >= position.entry_price {
            0
        } else {
            position.entry_price - mark_price
        }
    } else {
        if position.entry_price >= mark_price {
            0
        } else {
            mark_price - position.entry_price
        }
    };
    assert(position.size * adverse <= 0xffff_ffff_ffff_ffff * 0xffff_ffff_ffff_ffff)
        by (nonlinear_arith)
        requires
            position.size <= 0xffff_ffff_ffff_ffff,
            adverse <= 0xffff_ffff_ffff_ffff,
    ;
    let loss: u128 = (position.size as u128) * (adverse as u128);
    let cover: u128 = (position.collateral as u128) * 1_000_000u128;
    proof {
        let mv: int = price_move(*position, mark_price);
        if adverse > 0 {
            assert(mv == -(adverse as int));
            assert(position.size * mv == -(position.size * adverse)) by (nonlinear_arith)
                requires
                    mv == -(adverse as int),
            ;
        } else {
            assert(mv >= 0);
            assert(position.size * mv >= 0) by (nonlinear_arith)
                requires
                    mv >= 0,
                    position.size >= 0,
            ;
            assert(position.size * adverse == 0) by (nonlinear_arith)
                requires
                    adverse == 0,
            ;
        }
    }
    if loss > cover {
        loss - cover
    } else {
        0
    }
}

/// A value in units of 10^-12 as the store keeps it: in whole units, rounded
/// down, and no more than the store's largest integer.
pub open spec fn stored_value_spec(value: u128) -> int {
    if value / 1_000_000_000_000 > i64::MAX {
        i64::MAX as int
    } else {
        (value / 1_000_000_000_000) as int
    }
}

/// A size or a price as the store keeps it: in whole units, rounded down.
pub open spec fn stored_units_spec(amount: u64) -> int {
    amount as int / 1_000_000
}

/// A balance change of the reserve as the store keeps it: as the ledger
/// counts it, and no more than the store's largest integer.
pub open spec fn stored_amount_spec(amount: u64) -> int {
    if amount > i64::MAX {
        i64::MAX as int
    } else {
        amount as int
    }
}

/// A value in units of 10^-12 as the store keeps it.
pub fn stored_value(value: u128) -> (stored: i64)
    ensures
        stored == stored_value_spec(value),
{
    let scaled: u128 = value / 1_000_000_000_000;
    if scaled > i64::MAX as u128 {
        i64::MAX
    } else {
        scaled as i64
    }
}

/// A size or a price as the store keeps it.
pub fn stored_units(amount: u64) -> (stored: i64)
    ensures
        stored == stored_units_spec(amount),
{
    (amount / 1_000_000) as i64
}

/// A balance change of the reserve as the store keeps it.
pub fn stored_amount(amount: u64) -> (stored: i64)
    ensures
        stored == stored_amount_spec(amount),
{
    if amount > i64::MAX as u64 {
        i64::MAX
    } else {
        amount as i64
    }
}

/// Decides how positions are liquidated and accounts for the result. It holds
/// the identity under which settlements are submitted.
pub struct LiquidationExecutor {
    pub liquidator: String,
}

impl LiquidationExecutor {
    pub fn new(liquidator: String) -> (executor: Self)
        ensures
            executor.liquidator == liquidator,
    {
        LiquidationExecutor { liquidator }
    }

    /// The size of a partial liquidation. The mark price and the target ratio
    /// do not enter into it: a partial liquidation takes half the position,
    /// the larger half where the size is odd.
    pub fn calculate_partial_amount(
        &self,
        position: &Position,
        mark_price: u64,
        target_ratio: u32,
    ) -> (amount: u64)
        ensures
            amount == partial_amount_spec(*position),
    {
        position.size - position.size / 2
    }

    /// The settlement action for a position at a margin ratio: the whole size
    /// where the ratio is under a tenth of the maintenance ratio, a partial
    /// amount otherwise. Both carry the ratio the liquidation aims at.
    pub fn liquidate_position(
        &self,
        position: &Position,
        mark_price: u64,
        margin_ratio: i128,
    ) -> (action: SettlementAction)
        ensures
            action == settlement_action_spec(*position, margin_ratio as int),
    {
        let target: u32 = target_ratio(position.leverage);
        if margin_ratio < critical_threshold(position.leverage) as i128 {
            SettlementAction {
                position_id: position.id.clone(),
                amount: position.size,
                is_full: true,
                target_ratio: target,
            }
        } else {
            SettlementAction {
                position_id: position.id.clone(),
                amount: self.calculate_partial_amount(position, mark_price, target),
                is_full: false,
                target_ratio: target,
            }
        }
    }

    /// The outcome of one attempt. A confirmed settlement yields a success
    /// with the reward on the liquidated value and the position's shortfall
    /// as bad debt; a failed one yields a failure that carries the error and
    /// the caller's retry count unchanged.
    pub fn record_outcome(
        &self,
        position: &Position,
        action: &SettlementAction,
        mark_price: u64,
        margin_ratio: i128,
        result: SettlementResult,
        retry_count: i32,
    ) -> (outcome: LiquidationOutcome)
        ensures
            match result {
                SettlementResult::Confirmed(_) => outcome == (LiquidationOutcome::Success {
                    position_id: position.id,
                    symbol: position.symbol,
                    amount: action.amount,
                    price: mark_price,
                    is_full: action.is_full,
                    reward: reward_spec(action.amount, mark_price) as u128,
                    bad_debt: bad_debt_spec(*position, mark_price) as u128,
                    margin_ratio,
                }),
                SettlementResult::Failed(error) => outcome == (LiquidationOutcome::Failure {
                    position_id: position.id,
                    error,
                    retry_count,
                }),
            },
    {
        match result {
            SettlementResult::Confirmed(_) => LiquidationOutcome::Success {
                position_id: position.id.clone(),
                symbol: position.symbol.clone(),
                amount: action.amount,
                price: mark_price,
                is_full: action.is_full,
                reward: liquidation_reward(action.amount, mark_price),
                bad_debt: bad_debt(position, mark_price),
                margin_ratio,
            },
            SettlementResult::Failed(error) => LiquidationOutcome::Failure {
                position_id: position.id.clone(),
                error,
                retry_count,
            },
        }
    }
}

} // verus!
