//! Causal log entries and the signed-delta counter built on them.
use vstd::prelude::*;

verus! {

/// One operation of the causal log: a value together with the identifiers of
/// the entries it causally follows and its authentication metadata.
pub struct CmRDTEntry<T> {
    pub value: T,
    pub predecessors: Vec<String>,
    pub author: String,
    pub nonce: String,
    pub signature: String,
}

impl<T> CmRDTEntry<T> {
    /// An entry carrying `value`, with no predecessors and empty metadata.
    pub fn new(value: T) -> (r: Self)
        ensures
            r.value == value,
            r.predecessors@.len() == 0,
            r.author@.len() == 0,
            r.nonce@.len() == 0,
            r.signature@.len() == 0,
    {
        CmRDTEntry {
            value,
            predecessors: Vec::new(),
            author: String::new(),
            nonce: String::new(),
            signature: String::new(),
        }
    }
}

/// The value of a counter entry: a signed change of the counter.
pub struct PositiveNegativeCounterEntry(pub i64);

impl PositiveNegativeCounterEntry {
    /// The change this entry applies.
    pub fn delta(&self) -> (r: i64)
        ensures
            r == self.0,
    {
        self.0
    }
}

/// A counter whose state is the sum of the deltas of all entries seen.
pub struct PositiveNegativeCounter;

/// The sum of the deltas carried by `entries`.
pub open spec fn sum_deltas(entries: Seq<CmRDTEntry<PositiveNegativeCounterEntry>>) -> int
    decreases entries.len(),
{
    if entries.len() == 0 {
        0
    } else {
        entries[0].value.0 as int + sum_deltas(entries.drop_first())
    }
}

/// A value type for log entries whose merge does not depend on the order in
/// which entries are applied.
pub trait Commutative {
    /// The value carried by each entry.
    type Value;
    /// The merged state.
    type State;

    /// The state after applying an entry's value to `state`.
    spec fn apply(state: Self::State, value: Self::Value) -> Self::State;

    /// Applying two values gives the same state in either order.
    proof fn lemma_apply_commutes(state: Self::State, a: Self::Value, b: Self::Value)
        ensures
            Self::apply(Self::apply(state, a), b) == Self::apply(Self::apply(state, b), a),
    ;
}

/// The state reached from `state` by applying the entries front to back.
pub open spec fn merged<C: Commutative>(state: C::State, entries: Seq<CmRDTEntry<C::Value>>) -> C::State
    decreases entries.len(),
{
    if entries.len() == 0 {
        state
    } else {
        merged::<C>(C::apply(state, entries[0].value), entries.drop_first())
    }
}

proof fn lemma_merged_take<C: Commutative>(state: C::State, entries: Seq<CmRDTEntry<C::Value>>, j: int)
    requires
        0 <= j < entries.len(),
    ensures
        merged::<C>(state, entries) == merged::<C>(C::apply(state, entries[j].value), entries.remove(j)),
    decreases j,
{
    if j == 0 {
        assert(entries.remove(0) == entries.drop_first());
    } else {
        let rest = entries.drop_first();
        lemma_merged_take::<C>(C::apply(state, entries[0].value), rest, j - 1);
        C::lemma_apply_commutes(state, entries[0].value, entries[j].value);
        assert(entries.remove(j).drop_first() == rest.remove(j - 1));
        assert(entries.remove(j)[0] == entries[0]);
    }
}

/// Merging is independent of replay order: any reordering of the same entries
/// reaches the same state.
pub proof fn lemma_merge_any_order<C: Commutative>(
    state: C::State,
    a: Seq<CmRDTEntry<C::Value>>,
    b: Seq<CmRDTEntry<C::Value>>,
)
    requires
        a.to_multiset() == b.to_multiset(),
    ensures
        merged::<C>(state, a) == merged::<C>(state, b),
    decreases a.len(),
{
    broadcast use vstd::seq_lib::group_to_multiset_ensures;

    if a.len() == 0 {
        assert(a.to_multiset().len() == 0);
        assert(b.to_multiset().len() == 0);
    } else {
        let x = a[0];
        assert(a.to_multiset().count(x) > 0) by {
            assert(a.contains(x));
        }
        assert(b.contains(x));
        let j = b.index_of(x);
        assert(a.drop_first().to_multiset() == a.to_multiset().remove(x)) by {
            assert(a.drop_first() == a.remove(0));
        }
        lemma_merged_take::<C>(state, b, j);
        lemma_merge_any_order::<C>(C::apply(state, x.value), a.drop_first(), b.remove(j));
    }
}

impl Commutative for PositiveNegativeCounter {
    type Value = PositiveNegativeCounterEntry;
    type State = int;

    open spec fn apply(state: int, value: PositiveNegativeCounterEntry) -> int {
        state + value.0
    }

    proof fn lemma_apply_commutes(state: int, a: PositiveNegativeCounterEntry, b: PositiveNegativeCounterEntry) {
    }
}

/// Merging counter entries from `state` adds their deltas to it.
pub proof fn lemma_counter_merge_is_sum(state: int, entries: Seq<CmRDTEntry<PositiveNegativeCounterEntry>>)
    ensures
        merged::<PositiveNegativeCounter>(state, entries) == state + sum_deltas(entries),
    decreases entries.len(),
{
    if entries.len() > 0 {
        lemma_counter_merge_is_sum(state + entries[0].value.0, entries.drop_first());
    }
}

impl PositiveNegativeCounter {
    pub fn new() -> (r: Self) {
        PositiveNegativeCounter
    }

    /// The entry value that changes the counter by `diff`.
    pub fn change_by(diff: i64) -> (r: PositiveNegativeCounterEntry)
        ensures
            r.0 == diff,
    {
        PositiveNegativeCounterEntry(diff)
    }

    /// The merged state of the counter after `entries`: the sum of their deltas.
    pub fn merge(entries: &Vec<CmRDTEntry<PositiveNegativeCounterEntry>>) -> (r: i128)
        ensures
            r as int == sum_deltas(entries@),
            r as int == merged::<PositiveNegativeCounter>(0, entries@),
    {
        let mut acc: i128 = 0;
        let mut i: usize = 0;
        assert(entries@.subrange(0, entries@.len() as int) == entries@);
        while i < entries.len()
            invariant
                i <= entries@.len(),
                sum_deltas(entries@) == acc as int + sum_deltas(entries@.subrange(i as int, entries@.len() as int)),
                -(i as int) * 0x8000_0000_0000_0000 <= acc as int <= (i as int) * 0x8000_0000_0000_0000,
            decreases entries@.len() - i,
        {
            assert(entries@.subrange(i as int, entries@.len() as int).drop_first() == entries@.subrange(
                i + 1,
                entries@.len() as int,
            ));
            let d = entries[i].value.0;
            proof {
                assert((i as int + 1) * 0x8000_0000_0000_0000 < 0x8000_0000_0000_0000_0000_0000_0000_0000)
                    by (nonlinear_arith)
                    requires
                        (i as int) < 0xFFFF_FFFF_FFFF_FFFF,
                ;
                assert((i as int + 1) * 0x8000_0000_0000_0000 == (i as int) * 0x8000_0000_0000_0000
                    + 0x8000_0000_0000_0000) by (nonlinear_arith);
            }
            acc = acc + d as i128;
            i = i + 1;
        }
        proof {
            lemma_counter_merge_is_sum(0, entries@);
        }
        acc
    }
}

/// Counter entries merge to the same total in any order.
pub proof fn lemma_merge_order_independent(
    a: Seq<CmRDTEntry<PositiveNegativeCounterEntry>>,
    b: Seq<CmRDTEntry<PositiveNegativeCounterEntry>>,
)
    requires
        a.to_multiset() == b.to_multiset(),
    ensures
        sum_deltas(a) == sum_deltas(b),
{
    lemma_merge_any_order::<PositiveNegativeCounter>(0, a, b);
    lemma_counter_merge_is_sum(0, a);
    lemma_counter_merge_is_sum(0, b);
}

} // verus!
