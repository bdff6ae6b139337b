use vstd::prelude::*;
use crate::position::Position;
use crate::margin::{evaluate, evaluate_spec, Evaluation, RiskLevel};
use crate::oracle::PriceCache;
use crate::queue::{consistent, lemma_push_consistent, push_spec, LiquidationQueue, QueueItem};
use crate::executor::{settlement_action_spec, LiquidationExecutor, SettlementAction};

verus! {

/// Where a poll cycle stands. A cycle runs from `Idle` through `Fetching`,
/// `Evaluating` and `Dispatching` back to `Idle`, and no second cycle starts
/// before it is back there.
#[derive(Clone, Copy, Debug, PartialEq, Eq, Structural)]
pub enum CyclePhase {
    Idle,
    Fetching,
    Evaluating,
    Dispatching,
}

/// What one cycle found out about one position.
#[derive(Clone, Copy, Debug, PartialEq, Eq, Structural)]
pub enum Assessment {
    /// No mark price was had for the position's instrument in this cycle.
    Unpriced,
    Priced { mark_price: u64, evaluation: Evaluation },
}

/// One step of the dispatching phase.
#[derive(Debug)]
pub enum Dispatch {
    /// The most severe pending position, with the settlement action to submit.
    Liquidate { position: Position, mark_price: u64, margin_ratio: i128, action: SettlementAction },
    /// The most severe pending position has no mark price in this cycle: it
    /// left the queue and nothing is submitted for it.
    Unpriced { position: Position },
}

/// The characters of each string.
pub open spec fn texts(strings: Seq<String>) -> Seq<Seq<char>> {
    strings.map_values(|s: String| s@)
}

/// The instruments of the first `n` positions, each once, in the order in
/// which they first occur.
pub open spec fn distinct_symbols(positions: Seq<Position>, n: int) -> Seq<Seq<char>>
    decreases n,
{
    if n <= 0 {
        Seq::empty()
    } else {
        let earlier = distinct_symbols(positions, n - 1);
        let symbol = positions[n - 1].symbol@;
        if earlier.contains(symbol) {
            earlier
        } else {
            earlier.push(symbol)
        }
    }
}

/// The assessment of a position under the prices of a cycle: unpriced where
/// its instrument has none, evaluated at its instrument's price otherwise.
pub open spec fn assess_spec(p: Position, prices: Map<Seq<char>, u64>) -> Assessment {
    if prices.contains_key(p.symbol@) {
        Assessment::Priced {
            mark_price: prices[p.symbol@],
            evaluation: evaluate_spec(p, prices[p.symbol@]),
        }
    } else {
        Assessment::Unpriced
    }
}

/// Whether an assessment calls for liquidation, and at which margin ratio.
pub open spec fn liquidatable_ratio(assessment: Assessment) -> Option<i128> {
    match assessment {
        Assessment::Priced { evaluation: Evaluation::Evaluated(e), .. } => if e.risk
            == RiskLevel::Liquidatable {
            Some(e.margin_ratio)
        } else {
            None
        },
        _ => None,
    }
}

/// The queue's entries after one position was assessed: the position is
/// pushed where it is liquidatable, and nothing changes otherwise.
pub open spec fn enqueue_spec(
    entries: Seq<QueueItem>,
    p: Position,
    prices: Map<Seq<char>, u64>,
) -> Seq<QueueItem> {
    match liquidatable_ratio(assess_spec(p, prices)) {
        Some(margin_ratio) => push_spec(entries, QueueItem { position: p, margin_ratio }),
        None => entries,
    }
}

/// The queue's entries after the first `n` positions were assessed in order.
pub open spec fn enqueue_all(
    entries: Seq<QueueItem>,
    positions: Seq<Position>,
    prices: Map<Seq<char>, u64>,
    n: int,
) -> Seq<QueueItem>
    decreases n,
{
    if n <= 0 {
        entries
    } else {
        enqueue_spec(enqueue_all(entries, positions, prices, n - 1), positions[n - 1], prices)
    }
}

/// Assessing a position keeps the queue in order and free of duplicates.
pub proof fn lemma_enqueue_consistent(
    entries: Seq<QueueItem>,
    p: Position,
    prices: Map<Seq<char>, u64>,
)
    requires
        consistent(entries),
    ensures
        consistent(enqueue_spec(entries, p, prices)),
{
    match liquidatable_ratio(assess_spec(p, prices)) {
        Some(margin_ratio) => lemma_push_consistent(
            entries,
            QueueItem { position: p, margin_ratio },
        ),
        None => {},
    }
}

/// Assessing any number of positions in a row keeps the queue in order and
/// free of duplicates, whatever the positions and the prices.
pub proof fn lemma_enqueue_all_consistent(
    entries: Seq<QueueItem>,
    positions: Seq<Position>,
    prices: Map<Seq<char>, u64>,
    n: int,
)
    requires
        consistent(entries),
    ensures
        consistent(enqueue_all(entries, positions, prices, n)),
    decreases n,
{
    if n > 0 {
        lemma_enqueue_all_consistent(entries, positions, prices, n - 1);
        lemma_enqueue_consistent(
            enqueue_all(entries, positions, prices, n - 1),
            positions[n - 1],
            prices,
        );
    }
}

/// Assessing an unchanged position again at unchanged prices gives the same
/// assessment and leaves the queue as the first assessment left it: the
/// position is not queued twice.
pub proof fn lemma_reassessment_changes_nothing(
    entries: Seq<QueueItem>,
    p: Position,
    again: Position,
    prices: Map<Seq<char>, u64>,
)
    requires
        consistent(entries),
        again == p,
    ensures
        assess_spec(again, prices) == assess_spec(p, prices),
        enqueue_spec(enqueue_spec(entries, p, prices), again, prices) == enqueue_spec(
            entries,
            p,
            prices,
        ),
{
    match liquidatable_ratio(assess_spec(p, prices)) {
        Some(margin_ratio) => lemma_push_consistent(
            entries,
            QueueItem { position: p, margin_ratio },
        ),
        None => {},
    }
}

fn holds_text(strings: &Vec<String>, text: &String) -> (yes: bool)
    ensures
        yes == texts(strings@).contains(text@),
{
    let mut i: usize = 0;
    while i < strings.len()
        invariant
            i <= strings.len(),
            forall|j: int| 0 <= j < i ==> texts(strings@)[j] != text@,
        decreases strings.len() - i,
    {
        if strings[i] == *text {
            assert(texts(strings@)[i as int] == text@);
            return true;
        }
        i += 1;
    }
    false
}

/// The instruments that a list of positions needs a mark price for: each
/// once, in the order of first occurrence.
pub fn symbols_to_price(positions: &Vec<Position>) -> (symbols: Vec<String>)
    ensures
        texts(symbols@) == distinct_symbols(positions@, positions@.len() as int),
{
    let mut symbols: Vec<String> = Vec::new();
    let mut i: usize = 0;
    assert(texts(symbols@) =~= distinct_symbols(positions@, 0));
    while i < positions.len()
        invariant
            i <= positions.len(),
            texts(symbols@) == distinct_symbols(positions@, i as int),
        decreases positions.len() - i,
    {
        if !holds_text(&symbols, &positions[i].symbol) {
            let ghost before = symbols@;
            symbols.push(positions[i].symbol.clone());
            assert(texts(symbols@) =~= texts(before).push(positions@[i as int].symbol@));
        }
        i += 1;
    }
    symbols
}

/// The decisions of the poll cycle: fetch, evaluate, dispatch.
///
/// The engine performs no outside work. Its caller fetches positions, asks
/// for prices and submits settlements, and tells the engine what came back;
/// the engine says what to do next and keeps the cycle's state.
pub struct LiquidationEngine {
    phase: CyclePhase,
    positions: Vec<Position>,
    prices: PriceCache,
}

impl LiquidationEngine {
    /// The engine's price cache is in order.
    pub closed spec fn well_formed(&self) -> bool {
        self.prices.well_formed()
    }

    /// Where the current cycle stands.
    pub closed spec fn phase_spec(&self) -> CyclePhase {
        self.phase
    }

    /// The positions fetched in the current cycle.
    pub closed spec fn positions_spec(&self) -> Seq<Position> {
        self.positions@
    }

    /// The mark prices resolved in the current cycle, by instrument.
    pub closed spec fn prices_spec(&self) -> Map<Seq<char>, u64> {
        self.prices@
    }

    pub fn new() -> (engine: Self)
        ensures
            engine.well_formed(),
            engine.phase_spec() == CyclePhase::Idle,
            engine.positions_spec() == Seq::<Position>::empty(),
            engine.prices_spec() == Map::<Seq<char>, u64>::empty(),
    {
        LiquidationEngine { phase: CyclePhase::Idle, positions: Vec::new(), prices: PriceCache::new() }
    }

    pub fn phase(&self) -> (phase: CyclePhase)
        ensures
            phase == self.phase_spec(),
    {
        self.phase
    }

    /// Starts a cycle on a timer tick. An idle engine forgets the last
    /// cycle's positions and prices and goes on to fetch; an engine in the
    /// middle of a cycle refuses and is unchanged.
    pub fn begin_cycle(&mut self) -> (started: bool)
        requires
            old(self).well_formed(),
        ensures
            final(self).well_formed(),
            started == (old(self).phase_spec() == CyclePhase::Idle),
            started ==> final(self).phase_spec() == CyclePhase::Fetching
                && final(self).positions_spec() == Seq::<Position>::empty()
                && final(self).prices_spec() == Map::<Seq<char>, u64>::empty(),
            !started ==> *final(self) == *old(self),
    {
        match self.phase {
            CyclePhase::Idle => {
                self.phase = CyclePhase::Fetching;
                self.positions = Vec::new();
                self.prices.clear();
                true
            },
            _ => false,
        }
    }

    /// Ends the cycle where the positions could not be fetched. Outside the
    /// fetching phase nothing changes.
    pub fn fetch_failed(&mut self)
        requires
            old(self).well_formed(),
        ensures
            final(self).well_formed(),
            final(self).phase_spec() == if old(self).phase_spec() == CyclePhase::Fetching {
                CyclePhase::Idle
            } else {
                old(self).phase_spec()
            },
            final(self).positions_spec() == old(self).positions_spec(),
            final(self).prices_spec() == old(self).prices_spec(),
    {
        match self.phase {
            CyclePhase::Fetching => {
                self.phase = CyclePhase::Idle;
            },
            _ => {},
        }
    }

    /// Takes the fetched positions and returns the instruments to price,
    /// each once. No positions end the cycle. Outside the fetching phase
    /// nothing changes and nothing is to be priced.
    pub fn positions_fetched(&mut self, positions: Vec<Position>) -> (symbols: Vec<String>)
        requires
            old(self).well_formed(),
        ensures
            final(self).well_formed(),
            final(self).prices_spec() == old(self).prices_spec(),
            old(self).phase_spec() == CyclePhase::Fetching ==> {
                &&& final(self).positions_spec() == positions@
                &&& final(self).phase_spec() == if positions@.len() == 0 {
                    CyclePhase::Idle
                } else {
                    CyclePhase::Evaluating
                }
                &&& texts(symbols@) == distinct_symbols(positions@, positions@.len() as int)
            },
            old(self).phase_spec() != CyclePhase::Fetching ==> {
                &&& final(self).positions_spec() == old(self).positions_spec()
                &&& final(self).phase_spec() == old(self).phase_spec()
                &&& symbols@.len() == 0
            },
    {
        match self.phase {
            CyclePhase::Fetching => {
                let symbols = symbols_to_price(&positions);
                self.phase = if positions.len() == 0 {
                    CyclePhase::Idle
                } else {
                    CyclePhase::Evaluating
                };
                self.positions = positions;
                symbols
            },
            _ => Vec::new(),
        }
    }

    /// Records the mark price of an instrument for this cycle. The first
    /// price of an instrument stays; outside the evaluating phase nothing
    /// changes. An instrument whose price could not be had is simply never
    /// recorded, and its positions are not evaluated in this cycle.
    pub fn record_price(&mut self, symbol: String, price: u64)
        requires
            old(self).well_formed(),
        ensures
            final(self).well_formed(),
            final(self).phase_spec() == old(self).phase_spec(),
            final(self).positions_spec() == old(self).positions_spec(),
            final(self).prices_spec() == if old(self).phase_spec() == CyclePhase::Evaluating
                && !old(self).prices_spec().contains_key(symbol@) {
                old(self).prices_spec().insert(symbol@, price)
            } else {
                old(self).prices_spec()
            },
    {
        match self.phase {
            CyclePhase::Evaluating => {
                self.prices.insert(symbol, price);
            },
            _ => {},
        }
    }

    /// Evaluates every fetched position at its instrument's mark price and
    /// queues the liquidatable ones, then goes on to dispatch. The result
    /// holds one assessment per position, in the order of the positions.
    /// Outside the evaluating phase nothing changes and the result is empty.
    pub fn evaluate_positions(&mut self, queue: &mut LiquidationQueue) -> (log: Vec<Assessment>)
        requires
            old(self).well_formed(),
            old(queue).well_formed(),
        ensures
            final(self).well_formed(),
            final(queue).well_formed(),
            final(self).positions_spec() == old(self).positions_spec(),
            final(self).prices_spec() == old(self).prices_spec(),
            old(self).phase_spec() == CyclePhase::Evaluating ==> {
                &&& final(self).phase_spec() == CyclePhase::Dispatching
                &&& final(queue)@ == enqueue_all(
                    old(queue)@,
                    old(self).positions_spec(),
                    old(self).prices_spec(),
                    old(self).positions_spec().len() as int,
                )
                &&& log@.len() == old(self).positions_spec().len()
                &&& forall|i: int|
                    0 <= i < log@.len() ==> #[trigger] log@[i] == assess_spec(
                        old(self).positions_spec()[i],
                        old(self).prices_spec(),
                    )
            },
            old(self).phase_spec() != CyclePhase::Evaluating ==> {
                &&& final(self).phase_spec() == old(self).phase_spec()
                &&& final(queue)@ == old(queue)@
                &&& log@.len() == 0
            },
    {
        let mut log: Vec<Assessment> = Vec::new();
        match self.phase {
            CyclePhase::Evaluating => {},
            _ => {
                return log;
            },
        }
        let mut i: usize = 0;
        while i < self.positions.len()
            invariant
                i <= self.positions.len(),
                self.prices.well_formed(),
                self.positions@ == old(self).positions@,
                self.prices@ == old(self).prices@,
                self.phase == old(self).phase,
                queue.well_formed(),
                queue@ == enqueue_all(old(queue)@, self.positions@, self.prices@, i as int),
                log@.len() == i,
                forall|j: int|
                    0 <= j < i ==> #[trigger] log@[j] == assess_spec(
                        self.positions@[j],
                        self.prices@,
                    ),
            decreases self.positions.len() - i,
        {
            let assessment = match self.prices.get(&self.positions[i].symbol) {
                None => Assessment::Unpriced,
                Some(mark_price) => Assessment::Priced {
                    mark_price,
                    evaluation: evaluate(&self.positions[i], mark_price),
                },
            };
            match assessment {
                Assessment::Priced { evaluation: Evaluation::Evaluated(e), .. } => {
                    match e.risk {
                        RiskLevel::Liquidatable => {
                            queue.push(self.positions[i].clone(), e.margin_ratio);
                        },
                        _ => {},
                    }
                },
                _ => {},
            }
            log.push(assessment);
            i += 1;
        }
        self.phase = CyclePhase::Dispatching;
        log
    }

    /// Takes the most severe pending position off the queue and says what to
    /// do with it. An empty queue ends the cycle. Outside the dispatching
    /// phase nothing changes and nothing is to be done.
    pub fn next_dispatch(
        &mut self,
        queue: &mut LiquidationQueue,
        executor: &LiquidationExecutor,
    ) -> (step: Option<Dispatch>)
        requires
            old(self).well_formed(),
            old(queue).well_formed(),
        ensures
            final(self).well_formed(),
            final(queue).well_formed(),
            final(self).positions_spec() == old(self).positions_spec(),
            final(self).prices_spec() == old(self).prices_spec(),
            old(self).phase_spec() != CyclePhase::Dispatching ==> {
                &&& step is None
                &&& final(self).phase_spec() == old(self).phase_spec()
                &&& final(queue)@ == old(queue)@
            },
            old(self).phase_spec() == CyclePhase::Dispatching && old(queue)@.len() == 0 ==> {
                &&& step is None
                &&& final(self).phase_spec() == CyclePhase::Idle
                &&& final(queue)@ == old(queue)@
            },
            old(self).phase_spec() == CyclePhase::Dispatching && old(queue)@.len() > 0 ==> {
                &&& final(self).phase_spec() == CyclePhase::Dispatching
                &&& final(queue)@ == old(queue)@.subrange(1, old(queue)@.len() as int)
                &&& step == Some(dispatch_spec(old(queue)@[0], old(self).prices_spec()))
            },
    {
        match self.phase {
            CyclePhase::Dispatching => {},
            _ => {
                return None;
            },
        }
        match queue.pop_entry() {
            None => {
                self.phase = CyclePhase::Idle;
                None
            },
            Some(item) => {
                match self.prices.get(&item.position.symbol) {
                    None => Some(Dispatch::Unpriced { position: item.position }),
                    Some(mark_price) => {
                        let action = executor.liquidate_position(
                            &item.position,
                            mark_price,
                            item.margin_ratio,
                        );
                        Some(
                            Dispatch::Liquidate {
                                position: item.position,
                                mark_price,
                                margin_ratio: item.margin_ratio,
                                action,
                            },
                        )
                    },
                }
            },
        }
    }
}

/// What is to be done with an entry taken off the queue: nothing where its
/// instrument has no mark price in this cycle; otherwise a settlement action
/// for the whole size where the entry's margin ratio is critical and for half
/// of it where it is not.
pub open spec fn dispatch_spec(entry: QueueItem, prices: Map<Seq<char>, u64>) -> Dispatch {
    if prices.contains_key(entry.position.symbol@) {
        Dispatch::Liquidate {
            position: entry.position,
            mark_price: prices[entry.position.symbol@],
            margin_ratio: entry.margin_ratio,
            action: settlement_action_spec(entry.position, entry.margin_ratio as int),
        }
    } else {
        Dispatch::Unpriced { position: entry.position }
    }
}

} // verus!
