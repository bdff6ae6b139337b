use vstd::prelude::*;
use crate::accounts::OnChainInsuranceFund;

verus! {

/// The balance under which the reserve counts as low.
pub const MIN_RESERVE_BALANCE: u64 = 1_000_000;

/// Why the reserve's balance changed.
#[derive(Clone, Copy, Debug, PartialEq, Eq, Structural)]
pub enum ReserveChangeKind {
    /// The balance rose: a deposit or a fee.
    DepositOrFee,
    /// The balance fell: the reserve covered bad debt.
    BadDebtCover,
}

/// A change of the reserve's balance between two observations.
#[derive(Clone, Copy, Debug, PartialEq, Eq, Structural)]
pub struct ReserveChange {
    pub amount: u64,
    pub kind: ReserveChangeKind,
}

/// What one observation of the reserve came to.
#[derive(Clone, Copy, Debug, PartialEq, Eq, Structural)]
pub struct ReserveReport {
    /// The change since the last observation, if the balance changed.
    pub change: Option<ReserveChange>,
    /// Whether the balance is under the minimum.
    pub low_balance: bool,
    /// The balance observed, for the update that is published on a change.
    pub balance: u64,
}

/// The change from the balance seen last to the balance seen now, if they
/// differ: a rise is a deposit or fee, a fall is cover for bad debt.
pub open spec fn change_spec(last: u64, now: u64) -> Option<ReserveChange> {
    if now > last {
        Some(ReserveChange { amount: (now - last) as u64, kind: ReserveChangeKind::DepositOrFee })
    } else if now < last {
        Some(ReserveChange { amount: (last - now) as u64, kind: ReserveChangeKind::BadDebtCover })
    } else {
        None
    }
}

/// What observing the balance `now` after the balance `last` comes to.
pub open spec fn report_spec(last: u64, now: u64) -> ReserveReport {
    ReserveReport {
        change: change_spec(last, now),
        low_balance: now < MIN_RESERVE_BALANCE,
        balance: now,
    }
}

pub open spec fn reason_spec(kind: ReserveChangeKind) -> Seq<char> {
    match kind {
        ReserveChangeKind::DepositOrFee => "Deposit/Fee"@,
        ReserveChangeKind::BadDebtCover => "Bad Debt Cover"@,
    }
}

pub open spec fn transaction_type_spec(kind: ReserveChangeKind) -> Seq<char> {
    match kind {
        ReserveChangeKind::DepositOrFee => "DEPOSIT"@,
        ReserveChangeKind::BadDebtCover => "WITHDRAWAL"@,
    }
}

impl ReserveChangeKind {
    /// The label under which a change of this kind is recorded.
    pub fn reason(&self) -> (label: &'static str)
        ensures
            label@ == reason_spec(*self),
    {
        match self {
            ReserveChangeKind::DepositOrFee => "Deposit/Fee",
            ReserveChangeKind::BadDebtCover => "Bad Debt Cover",
        }
    }

    /// The direction under which a change of this kind is recorded.
    pub fn transaction_type(&self) -> (label: &'static str)
        ensures
            label@ == transaction_type_spec(*self),
    {
        match self {
            ReserveChangeKind::DepositOrFee => "DEPOSIT",
            ReserveChangeKind::BadDebtCover => "WITHDRAWAL",
        }
    }
}

/// Watches the insurance reserve. It keeps the balance it saw last and
/// nothing else.
pub struct InsuranceFundManager {
    last_balance: u64,
}

impl InsuranceFundManager {
    /// The balance seen at the last observation, zero before the first.
    pub closed spec fn last_balance_spec(&self) -> u64 {
        self.last_balance
    }

    pub fn new() -> (manager: Self)
        ensures
            manager.last_balance_spec() == 0,
    {
        InsuranceFundManager { last_balance: 0 }
    }

    pub fn last_balance(&self) -> (balance: u64)
        ensures
            balance == self.last_balance_spec(),
    {
        self.last_balance
    }

    /// Takes one observation of the reserve. A balance that differs from the
    /// last one seen is reported as a change, with its magnitude and its
    /// kind, and becomes the last one seen. A balance under the minimum is
    /// reported as low at every observation, changed or not.
    pub fn check_fund_health(&mut self, fund: &OnChainInsuranceFund) -> (report: ReserveReport)
        ensures
            report == report_spec(old(self).last_balance_spec(), fund.balance),
            final(self).last_balance_spec() == fund.balance,
    {
        let last: u64 = self.last_balance;
        let change = if fund.balance > last {
            Some(
                ReserveChange { amount: fund.balance - last, kind: ReserveChangeKind::DepositOrFee },
            )
        } else if fund.balance < last {
            Some(
                ReserveChange { amount: last - fund.balance, kind: ReserveChangeKind::BadDebtCover },
            )
        } else {
            None
        };
        self.last_balance = fund.balance;
        ReserveReport {
            change,
            low_balance: fund.balance < MIN_RESERVE_BALANCE,
            balance: fund.balance,
        }
    }
}

/// The net of the changes over two observations in a row is the change from
/// the first balance to the last: no part of a movement is reported twice
/// and none is lost.
pub proof fn lemma_changes_add_up(first: u64, second: u64, third: u64)
    ensures
        signed_change(change_spec(first, second)) + signed_change(change_spec(second, third))
            == third - first,
        signed_change(change_spec(first, third)) == third - first,
{
}

/// A change as a signed amount: positive for a rise, negative for a fall.
pub open spec fn signed_change(change: Option<ReserveChange>) -> int {
    match change {
        Some(c) => match c.kind {
            ReserveChangeKind::DepositOrFee => c.amount as int,
            ReserveChangeKind::BadDebtCover => -(c.amount as int),
        },
        None => 0,
    }
}

} // verus!
