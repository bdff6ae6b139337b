use vstd::prelude::*;
use crate::position::Position;

verus! {

/// A position waiting for liquidation, with the margin ratio (in parts per
/// million) it had when it was queued.
#[derive(Debug)]
pub struct QueueItem {
    pub position: Position,
    pub margin_ratio: i128,
}

impl Clone for QueueItem {
    fn clone(&self) -> (copy: Self)
        ensures
            copy == *self,
    {
        QueueItem { position: self.position.clone(), margin_ratio: self.margin_ratio }
    }
}

/// Whether some entry belongs to the position `id`.
pub open spec fn contains_id(entries: Seq<QueueItem>, id: Seq<char>) -> bool {
    exists|i: int| 0 <= i < entries.len() && (#[trigger] entries[i]).position.id@ == id
}

/// The identifiers that have an entry: what the queue refuses to admit again.
pub open spec fn pending_ids(entries: Seq<QueueItem>) -> Set<Seq<char>> {
    Set::new(|id: Seq<char>| contains_id(entries, id))
}

/// No two entries belong to the same position.
pub open spec fn distinct_ids(entries: Seq<QueueItem>) -> bool {
    forall|i: int, j: int|
        0 <= i < j < entries.len() ==> (#[trigger] entries[i]).position.id@ != (
        #[trigger] entries[j]).position.id@
}

/// Entries stand in rising order of margin ratio: the most severe first.
pub open spec fn ascending(entries: Seq<QueueItem>) -> bool {
    forall|i: int, j: int|
        0 <= i <= j < entries.len() ==> (#[trigger] entries[i]).margin_ratio <= (
        #[trigger] entries[j]).margin_ratio
}

/// What every queue maintains: one entry per position, most severe first.
pub open spec fn consistent(entries: Seq<QueueItem>) -> bool {
    distinct_ids(entries) && ascending(entries)
}

/// The first index at or after `from` whose entry has a ratio above `ratio`,
/// or the length where there is none.
pub open spec fn first_above(entries: Seq<QueueItem>, ratio: int, from: int) -> int
    decreases entries.len() - from,
{
    if from < 0 || from >= entries.len() {
        entries.len() as int
    } else if entries[from].margin_ratio > ratio {
        from
    } else {
        first_above(entries, ratio, from + 1)
    }
}

/// Where a new entry goes: behind every entry that is at least as severe, so
/// that equal ratios leave in the order they came.
pub open spec fn insertion_index(entries: Seq<QueueItem>, ratio: int) -> int {
    first_above(entries, ratio, 0)
}

/// The entries after a push: unchanged where the position already has an
/// entry, the new entry inserted in order otherwise.
pub open spec fn push_spec(entries: Seq<QueueItem>, item: QueueItem) -> Seq<QueueItem> {
    if contains_id(entries, item.position.id@) {
        entries
    } else {
        entries.insert(insertion_index(entries, item.margin_ratio as int), item)
    }
}

/// The entries after a pop: all but the first.
pub open spec fn pop_spec(entries: Seq<QueueItem>) -> Seq<QueueItem> {
    if entries.len() == 0 {
        entries
    } else {
        entries.subrange(1, entries.len() as int)
    }
}

/// The first index at or after `from` whose entry belongs to the position
/// `id`, or the length where there is none.
pub open spec fn index_of_id(entries: Seq<QueueItem>, id: Seq<char>, from: int) -> int
    decreases entries.len() - from,
{
    if from < 0 || from >= entries.len() {
        entries.len() as int
    } else if entries[from].position.id@ == id {
        from
    } else {
        index_of_id(entries, id, from + 1)
    }
}

/// The entries after the removal of a position: without its entry where it
/// has one, unchanged otherwise.
pub open spec fn remove_spec(entries: Seq<QueueItem>, id: Seq<char>) -> Seq<QueueItem> {
    if index_of_id(entries, id, 0) < entries.len() {
        entries.remove(index_of_id(entries, id, 0))
    } else {
        entries
    }
}

/// No entry before the index of a position belongs to it, and the entry at
/// the index, if there is one, does.
pub proof fn lemma_index_of_id(entries: Seq<QueueItem>, id: Seq<char>, from: int)
    requires
        0 <= from <= entries.len(),
    ensures
        from <= index_of_id(entries, id, from) <= entries.len(),
        forall|j: int|
            from <= j < index_of_id(entries, id, from) ==> (#[trigger] entries[j]).position.id@
                != id,
        index_of_id(entries, id, from) < entries.len() ==> entries[index_of_id(
            entries,
            id,
            from,
        )].position.id@ == id,
    decreases entries.len() - from,
{
    if from < entries.len() && entries[from].position.id@ != id {
        lemma_index_of_id(entries, id, from + 1);
    }
}

/// A removal keeps the entries in order and free of duplicates, and the
/// position it names has no entry afterwards.
pub proof fn lemma_remove_consistent(entries: Seq<QueueItem>, id: Seq<char>)
    requires
        consistent(entries),
    ensures
        consistent(remove_spec(entries, id)),
        !contains_id(remove_spec(entries, id), id),
        index_of_id(entries, id, 0) < entries.len() <==> contains_id(entries, id),
{
    let k = index_of_id(entries, id, 0);
    lemma_index_of_id(entries, id, 0);
    let rest = remove_spec(entries, id);
    if k < entries.len() {
        assert forall|i: int| 0 <= i < rest.len() implies #[trigger] rest[i] == entries[if i < k {
            i
        } else {
            i + 1
        }] by {}
        assert forall|i: int, j: int| 0 <= i < j < rest.len() implies (#[trigger] rest[i]).position.id@
            != (#[trigger] rest[j]).position.id@ by {
            assert(rest[i] == entries[if i < k { i } else { i + 1 }]);
            assert(rest[j] == entries[if j < k { j } else { j + 1 }]);
        }
        assert forall|i: int, j: int| 0 <= i <= j < rest.len() implies (#[trigger] rest[i]).margin_ratio
            <= (#[trigger] rest[j]).margin_ratio by {
            assert(rest[i] == entries[if i < k { i } else { i + 1 }]);
            assert(rest[j] == entries[if j < k { j } else { j + 1 }]);
        }
        if contains_id(rest, id) {
            let i = choose|i: int| 0 <= i < rest.len() && (#[trigger] rest[i]).position.id@ == id;
            assert(rest[i] == entries[if i < k { i } else { i + 1 }]);
            assert(false);
        }
    } else {
        if contains_id(entries, id) {
            let i = choose|i: int|
                0 <= i < entries.len() && (#[trigger] entries[i]).position.id@ == id;
            assert(false);
        }
    }
}

/// Every entry before the insertion index is at least as severe as the new
/// ratio, and the entry at the index, if there is one, is less severe.
pub proof fn lemma_first_above(entries: Seq<QueueItem>, ratio: int, from: int)
    requires
        0 <= from <= entries.len(),
    ensures
        from <= first_above(entries, ratio, from) <= entries.len(),
        forall|j: int|
            from <= j < first_above(entries, ratio, from) ==> (#[trigger] entries[j]).margin_ratio
                <= ratio,
        first_above(entries, ratio, from) < entries.len() ==> entries[first_above(
            entries,
            ratio,
            from,
        )].margin_ratio > ratio,
    decreases entries.len() - from,
{
    if from < entries.len() && entries[from].margin_ratio <= ratio {
        lemma_first_above(entries, ratio, from + 1);
    }
}

/// A push keeps the entries in order and free of duplicates.
pub proof fn lemma_push_consistent(entries: Seq<QueueItem>, item: QueueItem)
    requires
        consistent(entries),
    ensures
        consistent(push_spec(entries, item)),
        contains_id(push_spec(entries, item), item.position.id@),
        push_spec(entries, item).len() == if contains_id(entries, item.position.id@) {
            entries.len()
        } else {
            entries.len() + 1
        },
{
    if !contains_id(entries, item.position.id@) {
        let k = insertion_index(entries, item.margin_ratio as int);
        lemma_first_above(entries, item.margin_ratio as int, 0);
        let after = entries.insert(k, item);
        assert(after[k] == item);
        assert forall|i: int, j: int| 0 <= i < j < after.len() implies (#[trigger] after[i]).position.id@
            != (#[trigger] after[j]).position.id@ by {
            let oi = if i < k { i } else { i - 1 };
            let oj = if j < k { j } else { j - 1 };
            if i != k && j != k {
                assert(after[i] == entries[oi]);
                assert(after[j] == entries[oj]);
            } else if i == k {
                assert(after[j] == entries[oj]);
            } else {
                assert(after[i] == entries[oi]);
            }
        }
        assert forall|i: int, j: int| 0 <= i <= j < after.len() implies (#[trigger] after[i]).margin_ratio
            <= (#[trigger] after[j]).margin_ratio by {
            let oi = if i < k { i } else { i - 1 };
            let oj = if j < k { j } else { j - 1 };
            if i != k {
                assert(after[i] == entries[oi]);
            }
            if j != k {
                assert(after[j] == entries[oj]);
            }
            if k < entries.len() {
                assert(entries[k].margin_ratio > item.margin_ratio);
            }
        }
    }
}

/// A pop keeps the entries in order and free of duplicates, and what it
/// removes is the only entry of its position.
pub proof fn lemma_pop_consistent(entries: Seq<QueueItem>)
    requires
        consistent(entries),
    ensures
        consistent(pop_spec(entries)),
        entries.len() > 0 ==> !contains_id(pop_spec(entries), entries[0].position.id@),
{
    if entries.len() > 0 {
        let rest = pop_spec(entries);
        assert forall|i: int| 0 <= i < rest.len() implies #[trigger] rest[i] == entries[i + 1] by {}
        assert forall|i: int, j: int| 0 <= i < j < rest.len() implies (#[trigger] rest[i]).position.id@
            != (#[trigger] rest[j]).position.id@ by {
            assert(rest[i] == entries[i + 1]);
            assert(rest[j] == entries[j + 1]);
        }
        assert forall|i: int, j: int| 0 <= i <= j < rest.len() implies (#[trigger] rest[i]).margin_ratio
            <= (#[trigger] rest[j]).margin_ratio by {
            assert(rest[i] == entries[i + 1]);
            assert(rest[j] == entries[j + 1]);
        }
        if contains_id(rest, entries[0].position.id@) {
            let i = choose|i: int|
                0 <= i < rest.len() && (#[trigger] rest[i]).position.id@ == entries[0].position.id@;
            assert(rest[i] == entries[i + 1]);
            assert(false);
        }
    }
}

/// A push adds the position's identifier to the pending identifiers and
/// nothing else.
pub proof fn lemma_push_pending_ids(entries: Seq<QueueItem>, item: QueueItem)
    requires
        consistent(entries),
    ensures
        pending_ids(push_spec(entries, item)) == pending_ids(entries).insert(item.position.id@),
{
    let after = push_spec(entries, item);
    let id = item.position.id@;
    lemma_push_consistent(entries, item);
    assert forall|other: Seq<char>| contains_id(after, other) == (other == id || contains_id(
        entries,
        other,
    )) by {
        if !contains_id(entries, id) {
            let k = insertion_index(entries, item.margin_ratio as int);
            lemma_first_above(entries, item.margin_ratio as int, 0);
            if contains_id(entries, other) {
                let i = choose|i: int|
                    0 <= i < entries.len() && (#[trigger] entries[i]).position.id@ == other;
                let j = if i < k {
                    i
                } else {
                    i + 1
                };
                assert(after[j] == entries[i]);
            }
            if contains_id(after, other) && other != id {
                let j = choose|j: int|
                    0 <= j < after.len() && (#[trigger] after[j]).position.id@ == other;
                let i = if j < k {
                    j
                } else {
                    j - 1
                };
                assert(after[j] == entries[i]);
            }
        }
    }
    assert(pending_ids(after) =~= pending_ids(entries).insert(id));
}

/// A pop takes the identifier of the entry it removes out of the pending
/// identifiers and nothing else.
pub proof fn lemma_pop_pending_ids(entries: Seq<QueueItem>)
    requires
        consistent(entries),
        entries.len() > 0,
    ensures
        pending_ids(pop_spec(entries)) == pending_ids(entries).remove(entries[0].position.id@),
{
    let rest = pop_spec(entries);
    let id = entries[0].position.id@;
    lemma_pop_consistent(entries);
    assert forall|other: Seq<char>| contains_id(rest, other) == (other != id && contains_id(
        entries,
        other,
    )) by {
        if contains_id(rest, other) {
            let j = choose|j: int| 0 <= j < rest.len() && (#[trigger] rest[j]).position.id@ == other;
            assert(rest[j] == entries[j + 1]);
        }
        if other != id && contains_id(entries, other) {
            let i = choose|i: int|
                0 <= i < entries.len() && (#[trigger] entries[i]).position.id@ == other;
            assert(rest[i - 1] == entries[i]);
        }
    }
    assert(pending_ids(rest) =~= pending_ids(entries).remove(id));
}

/// A removal takes the identifier it names out of the pending identifiers
/// and nothing else.
pub proof fn lemma_remove_pending_ids(entries: Seq<QueueItem>, id: Seq<char>)
    requires
        consistent(entries),
    ensures
        pending_ids(remove_spec(entries, id)) == pending_ids(entries).remove(id),
{
    let rest = remove_spec(entries, id);
    let k = index_of_id(entries, id, 0);
    lemma_remove_consistent(entries, id);
    lemma_index_of_id(entries, id, 0);
    assert forall|other: Seq<char>| contains_id(rest, other) == (other != id && contains_id(
        entries,
        other,
    )) by {
        if k < entries.len() {
            if contains_id(rest, other) {
                let j = choose|j: int|
                    0 <= j < rest.len() && (#[trigger] rest[j]).position.id@ == other;
                assert(rest[j] == entries[if j < k { j } else { j + 1 }]);
            }
            if other != id && contains_id(entries, other) {
                let i = choose|i: int|
                    0 <= i < entries.len() && (#[trigger] entries[i]).position.id@ == other;
                assert(rest[if i < k { i } else { i - 1 }] == entries[i]);
            }
        }
    }
    assert(pending_ids(rest) =~= pending_ids(entries).remove(id));
}

/// Pushing a position that already has an entry changes nothing: after one
/// push of a position, a second push of it, at whatever ratio, leaves exactly
/// the entries of the first.
pub proof fn lemma_push_twice(entries: Seq<QueueItem>, first: QueueItem, second: QueueItem)
    requires
        consistent(entries),
        first.position.id@ == second.position.id@,
    ensures
        push_spec(push_spec(entries, first), second) == push_spec(entries, first),
{
    lemma_push_consistent(entries, first);
}

/// Successive pops never go back in severity: the entry that a pop removes
/// has a margin ratio no higher than the one the next pop removes.
pub proof fn lemma_pops_ascend(entries: Seq<QueueItem>)
    requires
        consistent(entries),
        entries.len() >= 2,
    ensures
        entries[0].margin_ratio <= pop_spec(entries)[0].margin_ratio,
{
    assert(pop_spec(entries)[0] == entries[1]);
}

/// One step of a queue's history.
pub enum QueueOp {
    Push(QueueItem),
    Pop,
    Remove(Seq<char>),
}

/// The entries after one step.
pub open spec fn apply_op(entries: Seq<QueueItem>, op: QueueOp) -> Seq<QueueItem> {
    match op {
        QueueOp::Push(item) => push_spec(entries, item),
        QueueOp::Pop => pop_spec(entries),
        QueueOp::Remove(id) => remove_spec(entries, id),
    }
}

/// The entries of a queue that started empty and went through `ops` in order.
pub open spec fn replay(ops: Seq<QueueOp>) -> Seq<QueueItem>
    decreases ops.len(),
{
    if ops.len() == 0 {
        Seq::empty()
    } else {
        apply_op(replay(ops.drop_last()), ops.last())
    }
}

/// Whatever pushes, pops and removals a queue has gone through, in whatever
/// order, it holds at most one entry per position and holds them in rising
/// order of margin ratio.
pub proof fn lemma_every_history_consistent(ops: Seq<QueueOp>)
    ensures
        consistent(replay(ops)),
    decreases ops.len(),
{
    if ops.len() > 0 {
        lemma_every_history_consistent(ops.drop_last());
        let before = replay(ops.drop_last());
        match ops.last() {
            QueueOp::Push(item) => lemma_push_consistent(before, item),
            QueueOp::Pop => lemma_pop_consistent(before),
            QueueOp::Remove(id) => lemma_remove_consistent(before, id),
        }
    }
}

/// The positions waiting for liquidation, most severe first, at most one
/// entry per position.
///
/// The ordering and the record of which positions are present are one
/// structure, so neither can be seen without the other. A caller that shares
/// the queue between tasks guards the whole of it with one lock.
pub struct LiquidationQueue {
    items: Vec<QueueItem>,
}

impl View for LiquidationQueue {
    type V = Seq<QueueItem>;

    closed spec fn view(&self) -> Seq<QueueItem> {
        self.items@
    }
}

impl LiquidationQueue {
    /// The queue holds one entry per position, most severe first.
    pub open spec fn well_formed(&self) -> bool {
        consistent(self@)
    }

    pub fn new() -> (queue: Self)
        ensures
            queue.well_formed(),
            queue@ == Seq::<QueueItem>::empty(),
    {
        LiquidationQueue { items: Vec::new() }
    }

    /// The number of pending entries.
    pub fn len(&self) -> (n: usize)
        ensures
            n == self@.len(),
    {
        self.items.len()
    }

    /// Whether the position `id` has an entry.
    pub fn contains(&self, id: &String) -> (present: bool)
        ensures
            present == contains_id(self@, id@),
    {
        let mut i: usize = 0;
        while i < self.items.len()
            invariant
                i <= self.items.len(),
                forall|j: int| 0 <= j < i ==> (#[trigger] self.items@[j]).position.id@ != id@,
            decreases self.items.len() - i,
        {
            if self.items[i].position.id == *id {
                return true;
            }
            i += 1;
        }
        false
    }

    /// Queues a position at a margin ratio, unless it is queued already.
    pub fn push(&mut self, position: Position, margin_ratio: i128)
        requires
            old(self).well_formed(),
        ensures
            final(self).well_formed(),
            final(self)@ == push_spec(old(self)@, (QueueItem { position, margin_ratio })),
    {
        if self.contains(&position.id) {
            return ;
        }
        let ghost item = QueueItem { position, margin_ratio };
        let mut i: usize = 0;
        while i < self.items.len() && self.items[i].margin_ratio <= margin_ratio
            invariant
                i <= self.items.len(),
                self.items@ == old(self)@,
                first_above(self.items@, margin_ratio as int, 0) == first_above(
                    self.items@,
                    margin_ratio as int,
                    i as int,
                ),
            decreases self.items.len() - i,
        {
            i += 1;
        }
        self.items.insert(i, QueueItem { position, margin_ratio });
        proof {
            lemma_push_consistent(old(self)@, item);
        }
    }

    /// Removes the entry with the lowest margin ratio and returns it, or
    /// returns `None` where the queue is empty. The position of the entry is
    /// no longer present afterwards, so it may be queued again.
    pub fn pop_entry(&mut self) -> (popped: Option<QueueItem>)
        requires
            old(self).well_formed(),
        ensures
            final(self).well_formed(),
            final(self)@ == pop_spec(old(self)@),
            popped is None <==> old(self)@.len() == 0,
            popped is Some ==> {
                &&& popped.unwrap() == old(self)@[0]
                &&& !contains_id(final(self)@, popped.unwrap().position.id@)
                &&& forall|i: int|
                    0 <= i < old(self)@.len() ==> popped.unwrap().margin_ratio <= (
                    #[trigger] old(self)@[i]).margin_ratio
            },
    {
        proof {
            lemma_pop_consistent(old(self)@);
        }
        if self.items.len() == 0 {
            return None;
        }
        let item = self.items.remove(0);
        Some(item)
    }

    /// Removes the entry with the lowest margin ratio and returns its
    /// position, or returns `None` where the queue is empty.
    pub fn pop(&mut self) -> (popped: Option<Position>)
        requires
            old(self).well_formed(),
        ensures
            final(self).well_formed(),
            final(self)@ == pop_spec(old(self)@),
            popped is None <==> old(self)@.len() == 0,
            popped is Some ==> {
                &&& popped.unwrap() == old(self)@[0].position
                &&& !contains_id(final(self)@, popped.unwrap().id@)
                &&& forall|i: int|
                    0 <= i < old(self)@.len() ==> old(self)@[0].margin_ratio <= (
                    #[trigger] old(self)@[i]).margin_ratio
            },
    {
        match self.pop_entry() {
            Some(item) => Some(item.position),
            None => None,
        }
    }

    /// Takes the entry of the position `id` out of the queue and returns it,
    /// or returns `None` where the position has no entry. The other entries
    /// keep their order.
    pub fn remove(&mut self, id: &String) -> (removed: Option<QueueItem>)
        requires
            old(self).well_formed(),
        ensures
            final(self).well_formed(),
            final(self)@ == remove_spec(old(self)@, id@),
            !contains_id(final(self)@, id@),
            removed is Some <==> contains_id(old(self)@, id@),
            removed is Some ==> removed.unwrap() == old(self)@[index_of_id(old(self)@, id@, 0)]
                && removed.unwrap().position.id@ == id@,
    {
        let mut i: usize = 0;
        while i < self.items.len()
            invariant
                i <= self.items.len(),
                self.items@ == old(self)@,
                consistent(old(self)@),
                index_of_id(self.items@, id@, 0) == index_of_id(self.items@, id@, i as int),
            decreases self.items.len() - i,
        {
            if self.items[i].position.id == *id {
                proof {
                    lemma_remove_consistent(old(self)@, id@);
                }
                let item = self.items.remove(i);
                return Some(item);
            }
            i += 1;
        }
        proof {
            lemma_remove_consistent(old(self)@, id@);
        }
        None
    }

    /// A copy of the entries for reporting, in rising order of margin ratio:
    /// the most severe first, as they will be popped. The queue is unchanged.
    pub fn get_snapshot(&self) -> (snapshot: Vec<QueueItem>)
        ensures
            snapshot@ == self@,
            self.well_formed() ==> consistent(snapshot@),
    {
        let n: usize = self.items.len();
        let mut snapshot: Vec<QueueItem> = Vec::new();
        let mut i: usize = 0;
        while i < n
            invariant
                n == self.items.len(),
                i <= n,
                snapshot@.len() == i,
                forall|j: int| 0 <= j < i ==> #[trigger] snapshot@[j] == self.items@[j],
            decreases n - i,
        {
            snapshot.push(self.items[i].clone());
            i += 1;
        }
        assert(snapshot@ =~= self.items@);
        snapshot
    }
}

} // verus!
