//! The registry of live filters.
//!
//! A filter is created by one of the three "new filter" calls, which hand
//! out its id. Matches found for it are buffered until the next poll, which
//! drains them. It lives until it is uninstalled; nothing expires by itself.
//! Ids are issued from a counter that only grows, so an id is never given
//! twice, not even after its filter is gone.
//!
//! The registry is the one mutable thing that requests share. Each call here
//! is one step; whoever shares a registry puts it behind a single guard, so
//! that concurrent calls run as some sequence of these steps.

use vstd::prelude::*;

use crate::error::{filter_not_found_text, ClientError, ErrorKind};

verus! {

/// What a filter watches: logs that meet criteria, new blocks, or pending
/// transactions.
#[derive(Clone, Debug, PartialEq, Eq)]
pub enum FilterKind<C> {
    Logs(C),
    NewBlocks,
    PendingTransactions,
}

/// A live filter as the contracts see it.
pub struct FilterView<C, M> {
    pub kind: FilterKind<C>,
    /// The matches found since the last poll, oldest first.
    pub pending: Seq<M>,
}

/// A registry as the contracts see it.
pub struct RegistryView<C, M> {
    /// The id the next new filter gets.
    pub next_id: nat,
    /// The live filters by id.
    pub live: Map<u64, FilterView<C, M>>,
}

/// One call on a registry.
pub enum FilterOp<C, M> {
    Install(FilterKind<C>),
    Record(u64, M),
    Poll(u64),
    Uninstall(u64),
}

impl<C, M> RegistryView<C, M> {
    /// Every live id was issued: it lies below the counter.
    pub open spec fn wf(self) -> bool {
        forall|id: u64| self.live.contains_key(id) ==> id < self.next_id
    }

    /// No filter yet, and ids start at zero.
    pub open spec fn empty() -> Self {
        RegistryView { next_id: 0, live: Map::empty() }
    }

    /// A new filter of the given kind under the next id, with nothing buffered.
    pub open spec fn install(self, kind: FilterKind<C>) -> Self {
        RegistryView {
            next_id: self.next_id + 1,
            live: self.live.insert(
                self.next_id as u64,
                FilterView { kind, pending: Seq::empty() },
            ),
        }
    }

    /// One more match buffered for a live filter.
    pub open spec fn record(self, id: u64, matched: M) -> Self {
        RegistryView {
            next_id: self.next_id,
            live: self.live.insert(
                id,
                FilterView {
                    kind: self.live[id].kind,
                    pending: self.live[id].pending.push(matched),
                },
            ),
        }
    }

    /// The buffer of a live filter emptied; the filter stays.
    pub open spec fn drain(self, id: u64) -> Self {
        RegistryView {
            next_id: self.next_id,
            live: self.live.insert(
                id,
                FilterView { kind: self.live[id].kind, pending: Seq::empty() },
            ),
        }
    }

    /// A filter gone; its id is not issued again.
    pub open spec fn remove(self, id: u64) -> Self {
        RegistryView { next_id: self.next_id, live: self.live.remove(id) }
    }

    /// The registry after one call. A call that names an unknown id changes
    /// nothing.
    pub open spec fn apply(self, op: FilterOp<C, M>) -> Self {
        match op {
            FilterOp::Install(kind) => self.install(kind),
            FilterOp::Record(id, matched) => if self.live.contains_key(id) {
                self.record(id, matched)
            } else {
                self
            },
            FilterOp::Poll(id) => if self.live.contains_key(id) {
                self.drain(id)
            } else {
                self
            },
            FilterOp::Uninstall(id) => if self.live.contains_key(id) {
                self.remove(id)
            } else {
                self
            },
        }
    }

    /// The registry after a sequence of calls, first to last.
    pub open spec fn run(self, ops: Seq<FilterOp<C, M>>) -> Self
        decreases ops.len(),
    {
        if ops.len() == 0 {
            self
        } else {
            self.run(ops.drop_last()).apply(ops.last())
        }
    }

    /// The ids that a sequence of calls hands out, in the order of the calls.
    pub open spec fn issued(self, ops: Seq<FilterOp<C, M>>) -> Seq<nat>
        decreases ops.len(),
    {
        if ops.len() == 0 {
            Seq::empty()
        } else {
            let before = self.issued(ops.drop_last());
            match ops.last() {
                FilterOp::Install(_) => before.push(self.run(ops.drop_last()).next_id),
                _ => before,
            }
        }
    }
}

/// Whatever calls are made and in whatever order, the registry stays well
/// formed, its counter never falls, and every id handed out lies between the
/// counter before and the counter after.
pub proof fn lemma_run_keeps_order<C, M>(start: RegistryView<C, M>, ops: Seq<FilterOp<C, M>>)
    requires
        start.wf(),
        start.run(ops).next_id <= u64::MAX,
    ensures
        start.run(ops).wf(),
        start.next_id <= start.run(ops).next_id,
        forall|k: int|
            0 <= k < start.issued(ops).len() ==> start.next_id <= #[trigger] start.issued(ops)[k]
                < start.run(ops).next_id,
        forall|a: int, b: int|
            0 <= a < b < start.issued(ops).len() ==> start.issued(ops)[a] < start.issued(ops)[b],
    decreases ops.len(),
{
    if ops.len() > 0 {
        let prefix = ops.drop_last();
        let before = start.run(prefix);
        assert(before.next_id <= before.apply(ops.last()).next_id);
        lemma_run_keeps_order(start, prefix);
        let earlier = start.issued(prefix);
        let ids = start.issued(ops);
        if ops.last() is Install {
            assert(ids == earlier.push(before.next_id));
            assert forall|k: int| 0 <= k < ids.len() implies start.next_id <= #[trigger] ids[k]
                < start.run(ops).next_id by {
                if k < earlier.len() {
                    assert(ids[k] == earlier[k]);
                }
            }
            assert forall|a: int, b: int| 0 <= a < b < ids.len() implies ids[a] < ids[b] by {
                assert(ids[a] == earlier[a]);
                if b < earlier.len() {
                    assert(ids[b] == earlier[b]);
                }
            }
        } else {
            assert(ids == earlier);
        }
    }
}

/// However many new filters are asked for, and whatever polls, records and
/// uninstalls run between them, no two of them get the same id, and none gets
/// the id of a filter that was live before.
pub proof fn lemma_issued_ids_distinct<C, M>(start: RegistryView<C, M>, ops: Seq<FilterOp<C, M>>)
    requires
        start.wf(),
        start.run(ops).next_id <= u64::MAX,
    ensures
        start.issued(ops).no_duplicates(),
        forall|k: int|
            0 <= k < start.issued(ops).len() ==> !start.live.contains_key(
                #[trigger] start.issued(ops)[k] as u64,
            ),
{
    lemma_run_keeps_order(start, ops);
    assert forall|a: int, b: int|
        0 <= a < start.issued(ops).len() && 0 <= b < start.issued(ops).len() && a != b implies
        start.issued(ops)[a] != start.issued(ops)[b] by {
        if a < b {
        } else {
        }
    }
}

/// A live filter: its id, what it watches, and the matches not yet polled.
struct Filter<C, M> {
    id: u64,
    kind: FilterKind<C>,
    pending: Vec<M>,
}

/// The live filters of one node, and the counter that ids come from.
pub struct FilterRegistry<C, M> {
    next_id: u64,
    filters: Vec<Filter<C, M>>,
}

/// Whether a filter with this id is in the list.
spec fn listed<C, M>(filters: Seq<Filter<C, M>>, id: u64) -> bool {
    exists|i: int| 0 <= i < filters.len() && filters[i].id == id
}

/// Where the filter with this id is in the list.
spec fn place<C, M>(filters: Seq<Filter<C, M>>, id: u64) -> int {
    choose|i: int| 0 <= i < filters.len() && filters[i].id == id
}

/// No id occurs twice in the list.
spec fn distinct_ids<C, M>(filters: Seq<Filter<C, M>>) -> bool {
    forall|a: int, b: int| 0 <= a < b < filters.len() ==> filters[a].id != filters[b].id
}

/// The list as a map from id to filter.
spec fn live_map<C, M>(filters: Seq<Filter<C, M>>) -> Map<u64, FilterView<C, M>> {
    Map::new(
        |id: u64| listed(filters, id),
        |id: u64|
            FilterView {
                kind: filters[place(filters, id)].kind,
                pending: filters[place(filters, id)].pending@,
            },
    )
}

/// In a list without repeated ids, the filter at a position is the one the
/// map holds under its id.
proof fn lemma_live_at<C, M>(filters: Seq<Filter<C, M>>, i: int)
    requires
        distinct_ids(filters),
        0 <= i < filters.len(),
    ensures
        live_map(filters).contains_key(filters[i].id),
        live_map(filters)[filters[i].id] == (FilterView {
            kind: filters[i].kind,
            pending: filters[i].pending@,
        }),
        place(filters, filters[i].id) == i,
{
    let id = filters[i].id;
    assert(listed(filters, id));
    let p = place(filters, id);
    assert(filters[p].id == id);
    if p < i {
    } else if i < p {
    }
}

impl<C, M> View for FilterRegistry<C, M> {
    type V = RegistryView<C, M>;

    closed spec fn view(&self) -> RegistryView<C, M> {
        RegistryView { next_id: self.next_id as nat, live: live_map(self.filters@) }
    }
}

impl<C, M> FilterRegistry<C, M> {
    /// No id occurs twice, and every id was issued.
    #[verifier::type_invariant]
    spec fn inv(&self) -> bool {
        &&& distinct_ids(self.filters@)
        &&& forall|i: int| 0 <= i < self.filters@.len() ==> self.filters@[i].id < self.next_id
    }

    /// A registry without filters.
    pub fn new() -> (r: Self)
        ensures
            r@ == RegistryView::<C, M>::empty(),
            r@.wf(),
    {
        let r = FilterRegistry { next_id: 0, filters: Vec::new() };
        assert(r@.live =~= Map::<u64, FilterView<C, M>>::empty());
        r
    }

    /// Where the filter with this id is, if it is live.
    fn find(&self, id: u64) -> (at: Option<usize>)
        ensures
            match at {
                Some(i) => i < self.filters@.len() && self.filters@[i as int].id == id
                    && self@.live.contains_key(id),
                None => !self@.live.contains_key(id),
            },
    {
        proof {
            use_type_invariant(self);
        }
        let mut i: usize = 0;
        while i < self.filters.len()
            invariant
                i <= self.filters@.len(),
                distinct_ids(self.filters@),
                forall|j: int| 0 <= j < i ==> self.filters@[j].id != id,
            decreases self.filters.len() - i,
        {
            if self.filters[i].id == id {
                proof {
                    lemma_live_at(self.filters@, i as int);
                }
                return Some(i);
            }
            i += 1;
        }
        None
    }

    /// Whether a filter with this id is live.
    pub fn contains(&self, id: u64) -> (b: bool)
        ensures
            b == self@.live.contains_key(id),
    {
        self.find(id).is_some()
    }

    /// The id that the next new filter gets.
    pub fn next_id(&self) -> (id: u64)
        ensures
            id == self@.next_id,
    {
        self.next_id
    }

    /// How many filters are live.
    pub fn len(&self) -> (n: usize)
        ensures
            n == self@.live.dom().len(),
    {
        proof {
            use_type_invariant(self);
            lemma_live_count(self.filters@);
        }
        self.filters.len()
    }

    /// Registers a filter of the given kind and hands out its id: the
    /// counter's value, which no filter had before and none gets again.
    pub fn install(&mut self, kind: FilterKind<C>) -> (id: u64)
        requires
            old(self)@.next_id < u64::MAX,
        ensures
            id == old(self)@.next_id,
            !old(self)@.live.contains_key(id),
            final(self)@ == old(self)@.install(kind),
    {
        proof {
            use_type_invariant(&*self);
        }
        let id = self.next_id;
        let ghost before = self.filters@;
        proof {
            if listed(before, id) {
                let p = place(before, id);
                assert(before[p].id == id);
            }
        }
        let mut filters: Vec<Filter<C, M>> = Vec::new();
        core::mem::swap(&mut self.filters, &mut filters);
        filters.push(Filter { id, kind, pending: Vec::new() });
        self.next_id = id + 1;
        core::mem::swap(&mut self.filters, &mut filters);
        proof {
            let after = self.filters@;
            let last = before.len() as int;
            assert(after[last].id == id);
            assert(distinct_ids(after));
            assert forall|other: u64| listed(after, other) <==> (other == id || listed(
                before,
                other,
            )) by {
                if listed(after, other) {
                    let p = place(after, other);
                    assert(after[p].id == other);
                    if p < last {
                        assert(before[p].id == other);
                    }
                } else if other != id && listed(before, other) {
                    let p = place(before, other);
                    assert(after[p].id == other);
                }
            }
            assert forall|other: u64| listed(after, other) implies live_map(after)[other]
                == old(self)@.install(kind).live[other] by {
                let p = place(after, other);
                assert(after[p].id == other);
                lemma_live_at(after, p);
                if p < last {
                    assert(before[p].id == other);
                    lemma_live_at(before, p);
                    assert(after[p] == before[p]);
                } else {
                    assert(after[last].pending@ =~= Seq::<M>::empty());
                }
            }
            assert(self@.live =~= old(self)@.install(kind).live);
        }
        id
    }

    /// Buffers a match for a live filter, behind those already buffered.
    /// An unknown id is refused and nothing changes.
    pub fn record(&mut self, id: u64, matched: M) -> (r: Result<(), ClientError>)
        ensures
            old(self)@.live.contains_key(id) ==> r is Ok && final(self)@ == old(self)@.record(
                id,
                matched,
            ),
            !old(self)@.live.contains_key(id) ==> r is Err && r->Err_0.kind
                == ErrorKind::FilterNotFound && r->Err_0.description() == filter_not_found_text()
                && final(self)@ == old(self)@,
    {
        proof {
            use_type_invariant(&*self);
        }
        match self.find(id) {
            None => Err(ClientError::filter_not_found()),
            Some(i) => {
                let ghost before = self.filters@;
                let mut filters: Vec<Filter<C, M>> = Vec::new();
                core::mem::swap(&mut self.filters, &mut filters);
                let mut filter = filters.remove(i);
                filter.pending.push(matched);
                filters.insert(i, filter);
                proof {
                    lemma_live_at(before, i as int);
                    lemma_live_update(before, filters@, i as int);
                }
                core::mem::swap(&mut self.filters, &mut filters);
                Ok(())
            },
        }
    }

    /// Hands out the matches buffered for a filter since its last poll,
    /// oldest first, and empties its buffer. The filter stays live. An
    /// unknown id is refused and nothing changes.
    pub fn get_filter_changes(&mut self, id: u64) -> (r: Result<Vec<M>, ClientError>)
        ensures
            old(self)@.live.contains_key(id) ==> r is Ok && r->Ok_0@ == old(self)@.live[id].pending
                && final(self)@ == old(self)@.drain(id),
            !old(self)@.live.contains_key(id) ==> r is Err && r->Err_0.kind
                == ErrorKind::FilterNotFound && r->Err_0.description() == filter_not_found_text()
                && final(self)@ == old(self)@,
    {
        proof {
            use_type_invariant(&*self);
        }
        match self.find(id) {
            None => Err(ClientError::filter_not_found()),
            Some(i) => {
                let ghost before = self.filters@;
                let mut filters: Vec<Filter<C, M>> = Vec::new();
                core::mem::swap(&mut self.filters, &mut filters);
                let filter = filters.remove(i);
                let Filter { id: _, kind, pending } = filter;
                filters.insert(i, Filter { id, kind, pending: Vec::new() });
                proof {
                    lemma_live_at(before, i as int);
                    lemma_live_update(before, filters@, i as int);
                    assert(filters@[i as int].pending@ =~= Seq::<M>::empty());
                }
                core::mem::swap(&mut self.filters, &mut filters);
                Ok(pending)
            },
        }
    }

    /// Removes a live filter and answers `true`. An unknown id, or one whose
    /// filter is already gone, is refused and nothing changes.
    pub fn uninstall_filter(&mut self, id: u64) -> (r: Result<bool, ClientError>)
        ensures
            old(self)@.live.contains_key(id) ==> r == Ok::<bool, ClientError>(true) && final(self)@
                == old(self)@.remove(id),
            !old(self)@.live.contains_key(id) ==> r is Err && r->Err_0.kind
                == ErrorKind::FilterNotFound && r->Err_0.description() == filter_not_found_text()
                && final(self)@ == old(self)@,
    {
        proof {
            use_type_invariant(&*self);
        }
        match self.find(id) {
            None => Err(ClientError::filter_not_found()),
            Some(i) => {
                let ghost before = self.filters@;
                let mut filters: Vec<Filter<C, M>> = Vec::new();
                core::mem::swap(&mut self.filters, &mut filters);
                let _ = filters.remove(i);
                proof {
                    lemma_live_remove(before, i as int);
                }
                core::mem::swap(&mut self.filters, &mut filters);
                Ok(true)
            },
        }
    }

    /// Registers a log filter with the given criteria.
    pub fn new_filter(&mut self, criteria: C) -> (id: u64)
        requires
            old(self)@.next_id < u64::MAX,
        ensures
            id == old(self)@.next_id,
            !old(self)@.live.contains_key(id),
            final(self)@ == old(self)@.install(FilterKind::Logs(criteria)),
    {
        self.install(FilterKind::Logs(criteria))
    }

    /// Registers a filter for new blocks.
    pub fn new_block_filter(&mut self) -> (id: u64)
        requires
            old(self)@.next_id < u64::MAX,
        ensures
            id == old(self)@.next_id,
            !old(self)@.live.contains_key(id),
            final(self)@ == old(self)@.install(FilterKind::NewBlocks),
    {
        self.install(FilterKind::NewBlocks)
    }

    /// Registers a filter for pending transactions.
    pub fn new_pending_transaction_filter(&mut self) -> (id: u64)
        requires
            old(self)@.next_id < u64::MAX,
        ensures
            id == old(self)@.next_id,
            !old(self)@.live.contains_key(id),
            final(self)@ == old(self)@.install(FilterKind::PendingTransactions),
    {
        self.install(FilterKind::PendingTransactions)
    }
}

/// Changing what one filter of the list holds, and not its id, changes the
/// map at that id alone.
proof fn lemma_live_update<C, M>(before: Seq<Filter<C, M>>, after: Seq<Filter<C, M>>, i: int)
    requires
        distinct_ids(before),
        0 <= i < before.len(),
        after.len() == before.len(),
        forall|j: int| 0 <= j < before.len() ==> after[j].id == before[j].id,
        forall|j: int| 0 <= j < before.len() && j != i ==> after[j] == before[j],
    ensures
        distinct_ids(after),
        live_map(after) == live_map(before).insert(
            before[i].id,
            FilterView { kind: after[i].kind, pending: after[i].pending@ },
        ),
{
    assert(distinct_ids(after));
    assert forall|id: u64| listed(after, id) <==> listed(before, id) by {
        if listed(after, id) {
            let p = place(after, id);
            assert(before[p].id == id);
        } else if listed(before, id) {
            let p = place(before, id);
            assert(after[p].id == id);
        }
    }
    lemma_live_at(before, i);
    assert forall|id: u64| listed(after, id) implies live_map(after)[id] == live_map(
        before,
    ).insert(before[i].id, FilterView { kind: after[i].kind, pending: after[i].pending@ })[id] by {
        let p = place(after, id);
        assert(after[p].id == id);
        lemma_live_at(after, p);
        lemma_live_at(before, p);
    }
    assert(live_map(after) =~= live_map(before).insert(
        before[i].id,
        FilterView { kind: after[i].kind, pending: after[i].pending@ },
    ));
}

/// Taking one filter out of the list takes its id, and nothing else, out of
/// the map.
proof fn lemma_live_remove<C, M>(before: Seq<Filter<C, M>>, i: int)
    requires
        distinct_ids(before),
        0 <= i < before.len(),
    ensures
        distinct_ids(before.remove(i)),
        live_map(before.remove(i)) == live_map(before).remove(before[i].id),
{
    let after = before.remove(i);
    assert forall|a: int, b: int| 0 <= a < b < after.len() implies after[a].id != after[b].id by {
        let first = if a < i { a } else { a + 1 };
        let second = if b < i { b } else { b + 1 };
        assert(after[a] == before[first]);
        assert(after[b] == before[second]);
    }
    assert forall|id: u64| listed(after, id) <==> (listed(before, id) && id != before[i].id) by {
        if listed(after, id) {
            let p = place(after, id);
            let prior = if p < i { p } else { p + 1 };
            assert(after[p] == before[prior]);
            assert(before[prior].id == id);
        } else if listed(before, id) && id != before[i].id {
            let prior = place(before, id);
            assert(before[prior].id == id);
            let p = if prior < i { prior } else { prior - 1 };
            assert(after[p] == before[prior]);
        }
    }
    assert forall|id: u64| listed(after, id) implies live_map(after)[id] == live_map(before)[id] by {
        let p = place(after, id);
        let prior = if p < i { p } else { p + 1 };
        assert(after[p] == before[prior]);
        lemma_live_at(after, p);
        lemma_live_at(before, prior);
    }
    assert(live_map(after) =~= live_map(before).remove(before[i].id));
}

/// A list without repeated ids has as many filters as its map has ids.
proof fn lemma_live_count<C, M>(filters: Seq<Filter<C, M>>)
    requires
        distinct_ids(filters),
    ensures
        live_map(filters).dom().finite(),
        live_map(filters).dom().len() == filters.len(),
    decreases filters.len(),
{
    if filters.len() == 0 {
        assert(live_map(filters).dom() =~= Set::<u64>::empty());
    } else {
        let rest = filters.drop_last();
        let id = filters.last().id;
        lemma_live_count(rest);
        assert(!listed(rest, id)) by {
            if listed(rest, id) {
                let p = place(rest, id);
                assert(filters[p].id == id);
            }
        }
        assert forall|other: u64| listed(filters, other) <==> (other == id || listed(
            rest,
            other,
        )) by {
            if listed(filters, other) {
                let p = place(filters, other);
                if p < rest.len() {
                    assert(rest[p].id == other);
                }
            } else if listed(rest, other) {
                let p = place(rest, other);
                assert(filters[p].id == other);
            } else if other == id {
                assert(filters[filters.len() - 1].id == id);
            }
        }
        assert(live_map(filters).dom() =~= live_map(rest).dom().insert(id));
    }
}

} // verus!
