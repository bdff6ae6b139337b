use vstd::prelude::*;
use crate::executor::LiquidationOutcome;
use crate::insurance::ReserveReport;

verus! {

/// A notification for subscribers: one variant per kind of event, each with
/// the fields of that kind only.
#[derive(Debug)]
pub enum WsMessage {
    PriceUpdate { symbol: String, price: u64 },
    LiquidationEvent { position_id: String, symbol: String, amount: u64, price: u64 },
    InsuranceFundUpdate { balance: u64 },
}

impl Clone for WsMessage {
    fn clone(&self) -> (copy: Self)
        ensures
            copy == *self,
    {
        match self {
            WsMessage::PriceUpdate { symbol, price } => WsMessage::PriceUpdate {
                symbol: symbol.clone(),
                price: *price,
            },
            WsMessage::LiquidationEvent {
                position_id,
                symbol,
                amount,
                price,
            } => WsMessage::LiquidationEvent {
                position_id: position_id.clone(),
                symbol: symbol.clone(),
                amount: *amount,
                price: *price,
            },
            WsMessage::InsuranceFundUpdate { balance } => WsMessage::InsuranceFundUpdate {
                balance: *balance,
            },
        }
    }
}

/// The event to publish for a dispatch attempt: a liquidation event for a
/// success, nothing for a failure.
pub fn liquidation_event(outcome: &LiquidationOutcome) -> (event: Option<WsMessage>)
    ensures
        match *outcome {
            LiquidationOutcome::Success { position_id, symbol, amount, price, .. } => event == Some(
                WsMessage::LiquidationEvent { position_id, symbol, amount, price },
            ),
            LiquidationOutcome::Failure { .. } => event is None,
        },
{
    match outcome {
        LiquidationOutcome::Success { position_id, symbol, amount, price, .. } => Some(
            WsMessage::LiquidationEvent {
                position_id: position_id.clone(),
                symbol: symbol.clone(),
                amount: *amount,
                price: *price,
            },
        ),
        LiquidationOutcome::Failure { .. } => None,
    }
}

/// The event to publish for an observation of the reserve: an update with
/// the new balance where the balance changed, nothing where it did not.
pub fn reserve_event(report: &ReserveReport) -> (event: Option<WsMessage>)
    ensures
        event == if report.change is Some {
            Some(WsMessage::InsuranceFundUpdate { balance: report.balance })
        } else {
            None
        },
{
    match report.change {
        Some(_) => Some(WsMessage::InsuranceFundUpdate { balance: report.balance }),
        None => None,
    }
}

} // verus!
