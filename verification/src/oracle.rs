use vstd::prelude::*;
use rand::Rng;
use crate::text::{same_text, starts_with};

verus! {

/// The widest swing, in parts per million of the base price, that a quote may
/// show to either side: five percent.
pub const MAX_VOLATILITY: i64 = 50_000;

/// The base price of an instrument, six decimal places.
pub open spec fn base_price_spec(symbol: Seq<char>) -> u64 {
    if "SOL/USD"@.is_prefix_of(symbol) {
        9_000_000
    } else if symbol == "BTC/USD"@ {
        58_000_000_000
    } else if symbol == "ETH/USD"@ {
        3_000_000_000
    } else {
        10_000_000
    }
}

/// The base price moved by `volatility` parts per million, rounded down and
/// kept within what a price can hold.
pub open spec fn quote_spec(base: u64, volatility: i64) -> u64 {
    let raw: int = (base * (1_000_000 + volatility)) / 1_000_000;
    if raw < 0 {
        0
    } else if raw > u64::MAX {
        u64::MAX
    } else {
        raw as u64
    }
}

/// The base price of an instrument.
pub fn base_price(symbol: &str) -> (price: u64)
    ensures
        price == base_price_spec(symbol@),
{
    if starts_with(symbol, "SOL/USD") {
        9_000_000
    } else if same_text(symbol, "BTC/USD") {
        58_000_000_000
    } else if same_text(symbol, "ETH/USD") {
        3_000_000_000
    } else {
        10_000_000
    }
}

/// Moves a base price by a volatility given in parts per million.
pub fn quote(base: u64, volatility: i64) -> (price: u64)
    ensures
        price == quote_spec(base, volatility),
{
    let factor: i128 = 1_000_000 + volatility as i128;
    if factor <= 0 {
        assert(base * factor <= 0) by (nonlinear_arith)
            requires
                base >= 0,
                factor <= 0,
        ;
        return 0;
    }
    assert(0 <= base * factor <= 0xffff_ffff_ffff_ffff * 0x8000_0000_0010_0000) by (nonlinear_arith)
        requires
            0 <= base <= 0xffff_ffff_ffff_ffff,
            0 < factor <= 0x8000_0000_0010_0000,
    ;
    let raw: u128 = (base as u128) * (factor as u128) / 1_000_000;
    if raw > u64::MAX as u128 {
        u64::MAX
    } else {
        raw as u64
    }
}

/// Draws a number from the thread's random number generator with
/// `rand::Rng::gen_range` on the half-open range from `low` to `high`. That
/// function panics on an empty range, which the precondition rules out; the
/// contract claims only that the number lies in the range.
#[verifier::external_body]
fn sample_between(low: i64, high: i64) -> (value: i64)
    requires
        low < high,
    ensures
        low <= value < high,
{
    rand::thread_rng().gen_range(low..high)
}

/// A source of mark prices: a fixed base price per instrument, moved at each
/// query by a random swing of at most five percent.
pub struct PriceOracle {}

impl PriceOracle {
    pub fn new() -> (oracle: Self) {
        PriceOracle {  }
    }

    /// A mark price for `symbol`: its base price moved by some volatility
    /// within five percent to either side.
    pub fn get_mark_price(&self, symbol: &str) -> (price: u64)
        ensures
            exists|volatility: i64|
                -MAX_VOLATILITY <= volatility < MAX_VOLATILITY && price == #[trigger] quote_spec(
                    base_price_spec(symbol@),
                    volatility,
                ),
    {
        let volatility: i64 = sample_between(-MAX_VOLATILITY, MAX_VOLATILITY);
        quote(base_price(symbol), volatility)
    }
}

/// One instrument's mark price for the current cycle.
#[derive(Debug)]
pub struct PriceQuote {
    pub symbol: String,
    pub price: u64,
}

/// The mark prices resolved so far in one cycle, one per instrument: the
/// first price recorded for an instrument stays until the cache is cleared.
pub struct PriceCache {
    quotes: Vec<PriceQuote>,
    prices: Ghost<Map<Seq<char>, u64>>,
}

impl View for PriceCache {
    type V = Map<Seq<char>, u64>;

    closed spec fn view(&self) -> Map<Seq<char>, u64> {
        self.prices@
    }
}

impl PriceCache {
    /// The list of quotes and the map of prices say the same.
    pub closed spec fn well_formed(&self) -> bool {
        &&& forall|i: int|
            0 <= i < self.quotes@.len() ==> self.prices@.contains_key(
                (#[trigger] self.quotes@[i]).symbol@,
            ) && self.prices@[self.quotes@[i].symbol@] == self.quotes@[i].price
        &&& forall|symbol: Seq<char>| #[trigger]
            self.prices@.contains_key(symbol) ==> exists|i: int|
                0 <= i < self.quotes@.len() && (#[trigger] self.quotes@[i]).symbol@ == symbol
    }

    pub fn new() -> (cache: Self)
        ensures
            cache.well_formed(),
            cache@ == Map::<Seq<char>, u64>::empty(),
    {
        PriceCache { quotes: Vec::new(), prices: Ghost(Map::empty()) }
    }

    /// The price recorded for `symbol`, if there is one.
    pub fn get(&self, symbol: &String) -> (price: Option<u64>)
        requires
            self.well_formed(),
        ensures
            price == if self@.contains_key(symbol@) {
                Some(self@[symbol@])
            } else {
                None
            },
    {
        let mut i: usize = 0;
        while i < self.quotes.len()
            invariant
                self.well_formed(),
                i <= self.quotes.len(),
                forall|j: int| 0 <= j < i ==> (#[trigger] self.quotes@[j]).symbol@ != symbol@,
            decreases self.quotes.len() - i,
        {
            if self.quotes[i].symbol == *symbol {
                return Some(self.quotes[i].price);
            }
            i += 1;
        }
        None
    }

    /// Records `price` for `symbol` unless the instrument has a price already.
    pub fn insert(&mut self, symbol: String, price: u64)
        requires
            old(self).well_formed(),
        ensures
            final(self).well_formed(),
            final(self)@ == if old(self)@.contains_key(symbol@) {
                old(self)@
            } else {
                old(self)@.insert(symbol@, price)
            },
    {
        if self.get(&symbol).is_some() {
            return ;
        }
        let ghost before = self.quotes@;
        self.prices = Ghost(self.prices@.insert(symbol@, price));
        self.quotes.push(PriceQuote { symbol, price });
        proof {
            assert forall|i: int| 0 <= i < self.quotes@.len() implies self.prices@.contains_key(
                (#[trigger] self.quotes@[i]).symbol@,
            ) && self.prices@[self.quotes@[i].symbol@] == self.quotes@[i].price by {
                if i < before.len() {
                    assert(self.quotes@[i] == before[i]);
                }
            }
            assert forall|s: Seq<char>| #[trigger] self.prices@.contains_key(s) implies exists|
                i: int,
            |
                0 <= i < self.quotes@.len() && (#[trigger] self.quotes@[i]).symbol@ == s by {
                if s == symbol@ {
                    assert(self.quotes@[before.len() as int].symbol@ == s);
                } else {
                    let i = choose|i: int|
                        0 <= i < before.len() && (#[trigger] before[i]).symbol@ == s;
                    assert(self.quotes@[i] == before[i]);
                }
            }
        }
    }

    /// Forgets every price: what a cycle does before it resolves any.
    pub fn clear(&mut self)
        ensures
            final(self).well_formed(),
            final(self)@ == Map::<Seq<char>, u64>::empty(),
    {
        self.quotes = Vec::new();
        self.prices = Ghost(Map::empty());
    }
}

} // verus!
