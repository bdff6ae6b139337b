use vstd::prelude::*;

verus! {

/// A snapshot of one open position as observed on the ledger.
///
/// `size`, `collateral` and `entry_price` are fixed-point amounts with six
/// decimal places. `owner` is the raw 32-byte identity of the account that
/// opened the position and `id` is the textual identifier of the position
/// account itself.
#[derive(Debug)]
pub struct Position {
    pub id: String,
    pub owner: [u8; 32],
    pub symbol: String,
    pub size: u64,
    pub collateral: u64,
    pub entry_price: u64,
    pub leverage: u16,
    pub is_long: bool,
}

impl Clone for Position {
    fn clone(&self) -> (copy: Self)
        ensures
            copy == *self,
    {
        Position {
            id: self.id.clone(),
            owner: self.owner,
            symbol: self.symbol.clone(),
            size: self.size,
            collateral: self.collateral,
            entry_price: self.entry_price,
            leverage: self.leverage,
            is_long: self.is_long,
        }
    }
}

} // verus!
