use vstd::prelude::*;
use vstd::arithmetic::div_mod::lemma_fundamental_div_mod;
use vstd::arithmetic::div_mod::lemma_fundamental_div_mod_converse;
use vstd::arithmetic::div_mod::lemma_mod_bound;
use crate::position::Position;

verus! {

/// One whole unit of an amount or a price (six decimal places).
pub const UNIT: u64 = 1_000_000;

/// A ratio of exactly one, in parts per million.
pub const RATIO_ONE: u64 = 1_000_000;

/// The maintenance ratio applied to a leverage outside every defined tier.
pub const DEFAULT_MAINTENANCE_RATIO: u32 = 25_000;

/// The highest leverage that belongs to a defined tier.
pub const MAX_TIERED_LEVERAGE: u16 = 1000;

/// The maintenance margin ratio of a leverage, in parts per million.
///
/// A step table: the higher the leverage, the lower the ratio. A leverage
/// that no tier covers (zero, or above the top tier) gets the highest ratio.
pub open spec fn maintenance_ratio_spec(leverage: u16) -> int {
    if 1 <= leverage <= 20 {
        25_000
    } else if 21 <= leverage <= 50 {
        10_000
    } else if 51 <= leverage <= 100 {
        5_000
    } else if 101 <= leverage <= 500 {
        2_500
    } else if 501 <= leverage <= 1000 {
        1_000
    } else {
        DEFAULT_MAINTENANCE_RATIO as int
    }
}

/// The ratio under which a position is reported as at risk: 1.1 times the
/// maintenance ratio.
pub open spec fn warning_threshold_spec(leverage: u16) -> int {
    maintenance_ratio_spec(leverage) * 11 / 10
}

/// The ratio under which a position is closed in full: one tenth of the
/// maintenance ratio.
pub open spec fn critical_threshold_spec(leverage: u16) -> int {
    maintenance_ratio_spec(leverage) / 10
}

/// The ratio a partial liquidation aims to restore: 1.2 times the
/// maintenance ratio.
pub open spec fn target_ratio_spec(leverage: u16) -> int {
    maintenance_ratio_spec(leverage) * 12 / 10
}

/// The maintenance margin ratio of a leverage, in parts per million.
pub fn get_maintenance_margin_ratio(leverage: u16) -> (ratio: u32)
    ensures
        ratio == maintenance_ratio_spec(leverage),
{
    if leverage == 0 {
        DEFAULT_MAINTENANCE_RATIO
    } else if leverage <= 20 {
        25_000
    } else if leverage <= 50 {
        10_000
    } else if leverage <= 100 {
        5_000
    } else if leverage <= 500 {
        2_500
    } else if leverage <= MAX_TIERED_LEVERAGE {
        1_000
    } else {
        DEFAULT_MAINTENANCE_RATIO
    }
}

/// The warning threshold of a leverage, in parts per million.
pub fn warning_threshold(leverage: u16) -> (ratio: u32)
    ensures
        ratio == warning_threshold_spec(leverage),
{
    get_maintenance_margin_ratio(leverage) * 11 / 10
}

/// The critical threshold of a leverage, in parts per million.
pub fn critical_threshold(leverage: u16) -> (ratio: u32)
    ensures
        ratio == critical_threshold_spec(leverage),
{
    get_maintenance_margin_ratio(leverage) / 10
}

/// The ratio that a partial liquidation of a position at this leverage aims
/// at, in parts per million.
pub fn target_ratio(leverage: u16) -> (ratio: u32)
    ensures
        ratio == target_ratio_spec(leverage),
{
    get_maintenance_margin_ratio(leverage) * 12 / 10
}

/// Within the defined tiers the maintenance ratio never rises with leverage.
pub proof fn lemma_maintenance_ratio_non_increasing(lower: u16, higher: u16)
    requires
        1 <= lower <= higher <= MAX_TIERED_LEVERAGE,
    ensures
        maintenance_ratio_spec(lower) >= maintenance_ratio_spec(higher),
{
}

/// No tier asks for more than the fallback ratio, so a leverage outside the
/// tiers is never treated more leniently than one inside them.
pub proof fn lemma_fallback_is_highest(leverage: u16, outside: u16)
    requires
        outside == 0 || outside > MAX_TIERED_LEVERAGE,
    ensures
        maintenance_ratio_spec(outside) == DEFAULT_MAINTENANCE_RATIO,
        maintenance_ratio_spec(leverage) <= maintenance_ratio_spec(outside),
{
}

/// The thresholds are exact multiples of the maintenance ratio: parts per
/// million lose nothing of 1.1 times, a tenth of, or 1.2 times any tier's
/// ratio. A critical ratio is therefore always a liquidatable one.
pub proof fn lemma_thresholds_exact(leverage: u16)
    ensures
        warning_threshold_spec(leverage) * 10 == maintenance_ratio_spec(leverage) * 11,
        critical_threshold_spec(leverage) * 10 == maintenance_ratio_spec(leverage),
        target_ratio_spec(leverage) * 10 == maintenance_ratio_spec(leverage) * 12,
        critical_threshold_spec(leverage) < maintenance_ratio_spec(leverage)
            < warning_threshold_spec(leverage) < target_ratio_spec(leverage),
{
}

/// Size times mark price: the current value of the position, in units of
/// 10^-12 (an amount times a price, six decimal places each).
pub open spec fn notional_value(p: Position, mark_price: u64) -> int {
    p.size * mark_price
}

/// The price change in the position's favour since entry.
pub open spec fn price_move(p: Position, mark_price: u64) -> int {
    if p.is_long {
        mark_price - p.entry_price
    } else {
        p.entry_price - mark_price
    }
}

/// Size times the favourable price change, in units of 10^-12.
pub open spec fn unrealized_pnl(p: Position, mark_price: u64) -> int {
    p.size * price_move(p, mark_price)
}

/// Collateral plus unrealized profit or loss, in units of 10^-12.
pub open spec fn equity(p: Position, mark_price: u64) -> int {
    p.collateral * UNIT + unrealized_pnl(p, mark_price)
}

/// Equity over notional value in parts per million, rounded down. It is
/// negative where the loss exceeds the collateral, and may exceed one.
pub open spec fn margin_ratio_spec(p: Position, mark_price: u64) -> int
    recommends
        notional_value(p, mark_price) > 0,
{
    (equity(p, mark_price) * RATIO_ONE) / notional_value(p, mark_price)
}

/// How a position stands against its thresholds.
#[derive(Clone, Copy, Debug, PartialEq, Eq, Structural)]
pub enum RiskLevel {
    Liquidatable,
    Warning,
    Healthy,
}

/// The margin state derived from one position and one mark price.
#[derive(Clone, Copy, Debug, PartialEq, Eq, Structural)]
pub struct MarginEvaluation {
    pub margin_ratio: i128,
    pub maintenance_ratio: u32,
    pub warning_threshold: u32,
    pub risk: RiskLevel,
}

/// The outcome of evaluating a position: skipped where it has no notional
/// value, evaluated otherwise.
#[derive(Clone, Copy, Debug, PartialEq, Eq, Structural)]
pub enum Evaluation {
    Skip,
    Evaluated(MarginEvaluation),
}

/// Liquidatable under the maintenance ratio, warning from there up to the
/// warning threshold, healthy from the warning threshold on.
pub open spec fn classify_spec(margin_ratio: int, leverage: u16) -> RiskLevel {
    if margin_ratio < maintenance_ratio_spec(leverage) {
        RiskLevel::Liquidatable
    } else if margin_ratio < warning_threshold_spec(leverage) {
        RiskLevel::Warning
    } else {
        RiskLevel::Healthy
    }
}

/// What evaluating a position at a mark price comes to.
pub open spec fn evaluate_spec(p: Position, mark_price: u64) -> Evaluation {
    if notional_value(p, mark_price) == 0 {
        Evaluation::Skip
    } else {
        Evaluation::Evaluated(
            MarginEvaluation {
                margin_ratio: margin_ratio_spec(p, mark_price) as i128,
                maintenance_ratio: maintenance_ratio_spec(p.leverage) as u32,
                warning_threshold: warning_threshold_spec(p.leverage) as u32,
                risk: classify_spec(margin_ratio_spec(p, mark_price), p.leverage),
            },
        )
    }
}

/// Dividing by a product is dividing by one factor and then by the other,
/// for a dividend of either sign.
proof fn lemma_div_by_product(y: int, s: int, m: int)
    requires
        s > 0,
        m > 0,
    ensures
        s * m > 0,
        (y / s) / m == y / (s * m),
{
    let d: int = s * m;
    assert(d > 0) by (nonlinear_arith)
        requires
            d == s * m,
            s > 0,
            m > 0,
    ;
    let q: int = y / d;
    let r: int = y % d;
    lemma_fundamental_div_mod(y, d);
    lemma_mod_bound(y, d);
    let rq: int = r / s;
    let rr: int = r % s;
    lemma_fundamental_div_mod(r, s);
    lemma_mod_bound(r, s);
    assert(0 <= rq < m) by (nonlinear_arith)
        requires
            r == s * rq + rr,
            0 <= rr < s,
            0 <= r < s * m,
            s > 0,
            m > 0,
    ;
    assert(y == (q * m + rq) * s + rr) by (nonlinear_arith)
        requires
            y == d * q + r,
            d == s * m,
            r == s * rq + rr,
    ;
    lemma_fundamental_div_mod_converse(y, s, q * m + rq, rr);
    lemma_fundamental_div_mod_converse(y / s, m, q, rq);
}

/// The margin ratio needs no product wider than the collateral scaled by
/// 10^12: divide the collateral by the size first, add the price change, and
/// divide by the mark price.
proof fn lemma_ratio_per_unit(c: int, s: int, m: int, mv: int)
    requires
        c >= 0,
        s > 0,
        m > 0,
    ensures
        s * m > 0,
        ((c * 1_000_000 + s * mv) * 1_000_000) / (s * m) == ((c * 1_000_000_000_000) / s
            + mv * 1_000_000) / m,
{
    let a: int = c * 1_000_000_000_000;
    let b: int = mv * 1_000_000;
    let y: int = (c * 1_000_000 + s * mv) * 1_000_000;
    lemma_fundamental_div_mod(a, s);
    lemma_mod_bound(a, s);
    assert(y == (a / s + b) * s + a % s) by (nonlinear_arith)
        requires
            y == (c * 1_000_000 + s * mv) * 1_000_000,
            a == c * 1_000_000_000_000,
            b == mv * 1_000_000,
            a == s * (a / s) + a % s,
    ;
    lemma_fundamental_div_mod_converse(y, s, a / s + b, a % s);
    lemma_div_by_product(y, s, m);
}

/// Rounding the ratio down loses nothing against a whole threshold: the
/// rounded ratio is under the threshold exactly when the equity is under that
/// share of the notional value.
pub proof fn lemma_ratio_below_threshold(p: Position, mark_price: u64, threshold: int)
    requires
        notional_value(p, mark_price) > 0,
    ensures
        margin_ratio_spec(p, mark_price) < threshold <==> equity(p, mark_price) * RATIO_ONE
            < threshold * notional_value(p, mark_price),
{
    let n: int = notional_value(p, mark_price);
    let e: int = equity(p, mark_price) * RATIO_ONE;
    let q: int = e / n;
    let r: int = e % n;
    lemma_fundamental_div_mod(e, n);
    lemma_mod_bound(e, n);
    assert(q < threshold <==> e < threshold * n) by (nonlinear_arith)
        requires
            e == n * q + r,
            0 <= r < n,
    ;
}

/// Floor division of a signed dividend by a positive divisor.
fn floor_div(x: i128, d: u64) -> (q: i128)
    requires
        d > 0,
        -0x4000_0000_0000_0000_0000_0000_0000_0000 < x < 0x4000_0000_0000_0000_0000_0000_0000_0000,
    ensures
        q == x as int / d as int,
{
    let divisor: u128 = d as u128;
    if x >= 0 {
        let q: u128 = (x as u128) / divisor;
        q as i128
    } else {
        let a: u128 = (-x) as u128;
        let q: u128 = a / divisor;
        let r: u128 = a % divisor;
        proof {
            lemma_fundamental_div_mod(a as int, d as int);
            if r == 0 {
                assert(x as int == (-(q as int)) * (d as int) + 0) by (nonlinear_arith)
                    requires
                        a as int == (d as int) * (q as int) + 0,
                        x as int == -(a as int),
                ;
                lemma_fundamental_div_mod_converse(x as int, d as int, -(q as int), 0);
            } else {
                assert(x as int == (-(q as int) - 1) * (d as int) + (d as int - r as int))
                    by (nonlinear_arith)
                    requires
                        a as int == (d as int) * (q as int) + r as int,
                        x as int == -(a as int),
                ;
                lemma_fundamental_div_mod_converse(
                    x as int,
                    d as int,
                    -(q as int) - 1,
                    d as int - r as int,
                );
            }
        }
        if r == 0 {
            -(q as i128)
        } else {
            -(q as i128) - 1
        }
    }
}

/// The margin ratio of a position at a mark price, in parts per million, or
/// `None` where the position has no notional value.
pub fn margin_ratio(position: &Position, mark_price: u64) -> (ratio: Option<i128>)
    ensures
        ratio is None <==> notional_value(*position, mark_price) == 0,
        ratio is Some ==> ratio.unwrap() == margin_ratio_spec(*position, mark_price),
{
    if position.size == 0 || mark_price == 0 {
        assert(position.size * mark_price == 0) by (nonlinear_arith)
            requires
                position.size == 0 || mark_price == 0,
        ;
        return None;
    }
    assert(position.size * mark_price > 0) by (nonlinear_arith)
        requires
            position.size > 0,
            mark_price > 0,
    ;
    let scaled: u128 = (position.collateral as u128) * 1_000_000_000_000u128;
    let per_unit: u128 = scaled / (position.size as u128);
    let change: i128 = if position.is_long {
        mark_price as i128 - position.entry_price as i128
    } else {
        position.entry_price as i128 - mark_price as i128
    };
    let adjusted: i128 = per_unit as i128 + change * 1_000_000;
    let ratio: i128 = floor_div(adjusted, mark_price);
    proof {
        lemma_ratio_per_unit(
            position.collateral as int,
            position.size as int,
            mark_price as int,
            price_move(*position, mark_price),
        );
    }
    Some(ratio)
}

/// The risk level of a margin ratio at a leverage.
pub fn classify(margin_ratio: i128, leverage: u16) -> (risk: RiskLevel)
    ensures
        risk == classify_spec(margin_ratio as int, leverage),
{
    if margin_ratio < get_maintenance_margin_ratio(leverage) as i128 {
        RiskLevel::Liquidatable
    } else if margin_ratio < warning_threshold(leverage) as i128 {
        RiskLevel::Warning
    } else {
        RiskLevel::Healthy
    }
}

/// Evaluates a position against a mark price.
///
/// A position without notional value is skipped. Any other position gets its
/// margin ratio, the two thresholds of its leverage tier, and its risk level:
/// liquidatable under the maintenance ratio, warning under 1.1 times that
/// ratio, healthy otherwise.
pub fn evaluate(position: &Position, mark_price: u64) -> (evaluation: Evaluation)
    ensures
        evaluation == evaluate_spec(*position, mark_price),
        notional_value(*position, mark_price) == 0 <==> evaluation == Evaluation::Skip,
{
    match margin_ratio(position, mark_price) {
        None => Evaluation::Skip,
        Some(ratio) => Evaluation::Evaluated(
            MarginEvaluation {
                margin_ratio: ratio,
                maintenance_ratio: get_maintenance_margin_ratio(position.leverage),
                warning_threshold: warning_threshold(position.leverage),
                risk: classify(ratio, position.leverage),
            },
        ),
    }
}

} // verus!
