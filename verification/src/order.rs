//! The order of a listing: folders first, then by key, and among equals the
//! one that was read first.

use crate::entry::{DirectoryEntry, EntryKind};
use crate::text::{
    lemma_lex_le_antisymmetric, lemma_lex_le_reflexive, lemma_lex_le_total,
    lemma_lex_le_transitive, lex_le, text_le,
};
use vstd::prelude::*;

verus! {

/// An entry together with the key by which it is ordered within its tier.
#[derive(Clone, Debug, PartialEq, Eq)]
pub struct Keyed {
    pub key: String,
    pub entry: DirectoryEntry,
}

/// What decides the place of an entry but for ties: its tier and its key.
pub struct Rank {
    pub folder: bool,
    pub key: Seq<char>,
}

pub open spec fn rank_of(item: Keyed) -> Rank {
    Rank { folder: item.entry.kind == EntryKind::Folder, key: item.key@ }
}

pub open spec fn ranks_of(items: Seq<Keyed>) -> Seq<Rank> {
    Seq::new(items.len(), |k: int| rank_of(items[k]))
}

/// Folders come before the rest; within a tier the keys decide.
pub open spec fn rank_le(x: Rank, y: Rank) -> bool {
    if x.folder != y.folder {
        x.folder
    } else {
        lex_le(x.key, y.key)
    }
}

/// Whether the item at `a` has its place before the item at `b`: by rank,
/// and for equal ranks by where each stood.
pub open spec fn precedes(ranks: Seq<Rank>, a: int, b: int) -> bool {
    if ranks[a] == ranks[b] {
        a < b
    } else {
        rank_le(ranks[a], ranks[b])
    }
}

/// `order` names every position of `ranks` once, each before all those that
/// it precedes.
pub open spec fn is_order_of(order: Seq<int>, ranks: Seq<Rank>) -> bool {
    &&& order.len() == ranks.len()
    &&& forall|k: int| 0 <= k < order.len() ==> 0 <= #[trigger] order[k] < ranks.len()
    &&& forall|x: int| 0 <= x < ranks.len() ==> #[trigger] order.contains(x)
    &&& forall|a: int, b: int|
        0 <= a < b < order.len() ==> precedes(ranks, #[trigger] order[a], #[trigger] order[b])
}

/// The items of `items` in the order that `order` names.
pub open spec fn permuted<T>(items: Seq<T>, order: Seq<int>) -> Seq<T> {
    Seq::new(order.len(), |k: int| items[order[k]])
}

pub proof fn lemma_rank_le_reflexive(x: Rank)
    ensures
        rank_le(x, x),
{
    lemma_lex_le_reflexive(x.key);
}

pub proof fn lemma_rank_le_total(x: Rank, y: Rank)
    ensures
        rank_le(x, y) || rank_le(y, x),
{
    lemma_lex_le_total(x.key, y.key);
}

pub proof fn lemma_rank_le_transitive(x: Rank, y: Rank, z: Rank)
    requires
        rank_le(x, y),
        rank_le(y, z),
    ensures
        rank_le(x, z),
{
    if x.folder == y.folder && y.folder == z.folder {
        lemma_lex_le_transitive(x.key, y.key, z.key);
    }
}

pub proof fn lemma_rank_le_antisymmetric(x: Rank, y: Rank)
    requires
        rank_le(x, y),
        rank_le(y, x),
    ensures
        x == y,
{
    lemma_lex_le_antisymmetric(x.key, y.key);
}

/// Whether `x` may stand at or before `y` as far as rank goes.
pub fn at_or_before(x: &Keyed, y: &Keyed) -> (le: bool)
    ensures
        le == rank_le(rank_of(*x), rank_of(*y)),
{
    let x_folder = x.entry.kind == EntryKind::Folder;
    let y_folder = y.entry.kind == EntryKind::Folder;
    if x_folder != y_folder {
        x_folder
    } else {
        text_le(&x.key, &y.key)
    }
}

/// Sorts `items` in place by rank, keeping those of equal rank in the order
/// in which they stood.
pub fn sort_keyed(items: &mut Vec<Keyed>)
    ensures
        exists|order: Seq<int>| #[trigger]
            is_order_of(order, ranks_of(old(items)@)) && final(items)@ == permuted(
                old(items)@,
                order,
            ),
{
    let ghost start = items@;
    let ghost ranks = ranks_of(start);
    let ghost mut order: Seq<int> = Seq::new(start.len(), |k: int| k);
    let n = items.len();
    let mut i: usize = 0;
    proof {
        assert forall|x: int| 0 <= x < n implies #[trigger] order.contains(x) by {
            assert(order[x] == x);
        }
        assert(items@ =~= permuted(start, order));
    }
    while i < n
        invariant
            i <= n,
            n == start.len(),
            order.len() == n,
            ranks == ranks_of(start),
            items@ == permuted(start, order),
            forall|k: int| 0 <= k < n ==> 0 <= #[trigger] order[k] < n,
            forall|x: int| 0 <= x < n ==> #[trigger] order.contains(x),
            forall|k: int| i <= k < n ==> #[trigger] order[k] == k,
            forall|k: int| 0 <= k < i ==> #[trigger] order[k] < i,
            forall|a: int, b: int|
                0 <= a < b < i ==> precedes(ranks, #[trigger] order[a], #[trigger] order[b]),
        decreases n - i,
    {
        let mut pos: usize = i;
        let mut searching = true;
        while searching && pos > 0
            invariant
                pos <= i < n,
                n == start.len(),
                order.len() == n,
                ranks == ranks_of(start),
                items@ == permuted(start, order),
                order[i as int] == i,
                forall|k: int| 0 <= k < n ==> 0 <= #[trigger] order[k] < n,
                forall|k: int| pos <= k < i ==> !rank_le(ranks[#[trigger] order[k]], ranks[i as int]),
                !searching ==> pos > 0 && rank_le(ranks[order[pos - 1]], ranks[i as int]),
            decreases pos + if searching { 1nat } else { 0nat },
        {
            if at_or_before(&items[pos - 1], &items[i]) {
                searching = false;
            } else {
                pos -= 1;
            }
        }
        let ghost before = order;
        let ghost held = items@;
        let item = items.remove(i);
        items.insert(pos, item);
        proof {
            order = Seq::new(
                n as nat,
                |k: int|
                    if k < pos {
                        before[k]
                    } else if k == pos {
                        i as int
                    } else if k <= i {
                        before[k - 1]
                    } else {
                        before[k]
                    },
            );
            assert(items@ =~= permuted(start, order));
            assert forall|x: int| 0 <= x < n implies #[trigger] order.contains(x) by {
                assert(before.contains(x));
                let k = choose|k: int| 0 <= k < before.len() && before[k] == x;
                let moved = if k == i {
                    pos as int
                } else if k < pos {
                    k
                } else if k < i {
                    k + 1
                } else {
                    k
                };
                assert(order[moved] == x);
            }
            assert forall|a: int, b: int| 0 <= a < b < i + 1 implies precedes(
                ranks,
                #[trigger] order[a],
                #[trigger] order[b],
            ) by {
                if b == pos {
                    lemma_stands_before(ranks, before, a, pos as int, i as int);
                } else if a == pos {
                    let other = before[b - 1];
                    lemma_rank_le_reflexive(ranks[i as int]);
                    lemma_rank_le_total(ranks[i as int], ranks[other]);
                } else {
                    let from_a = if a < pos { a } else { a - 1 };
                    let from_b = if b < pos { b } else { b - 1 };
                    assert(precedes(ranks, before[from_a], before[from_b]));
                }
            }
        }
        i += 1;
    }
    proof {
        assert(is_order_of(order, ranks_of(start)));
    }
}

/// In a sorted run that ends with an item at or before the one at `x`, every
/// item of the run precedes that one, if the run holds only positions less
/// than `x`.
proof fn lemma_stands_before(ranks: Seq<Rank>, run: Seq<int>, a: int, end: int, x: int)
    requires
        0 <= a < end <= run.len(),
        0 <= x < ranks.len(),
        forall|k: int| 0 <= k < end ==> 0 <= #[trigger] run[k] < x,
        forall|c: int, d: int|
            0 <= c < d < end ==> precedes(ranks, #[trigger] run[c], #[trigger] run[d]),
        rank_le(ranks[run[end - 1]], ranks[x]),
    ensures
        precedes(ranks, run[a], x),
{
    let last = run[end - 1];
    if a < end - 1 {
        assert(precedes(ranks, run[a], last));
        lemma_rank_le_reflexive(ranks[last]);
        lemma_rank_le_transitive(ranks[run[a]], ranks[last], ranks[x]);
    }
}

/// The entries that `items` hold, in the same order.
pub open spec fn entries_of(items: Seq<Keyed>) -> Seq<DirectoryEntry> {
    Seq::new(items.len(), |k: int| items[k].entry)
}

/// Whether `listing` holds the entries of `items`, each once, folders first
/// and each tier by key, equals in the order in which they stood.
pub open spec fn is_arrangement(listing: Seq<DirectoryEntry>, items: Seq<Keyed>) -> bool {
    exists|order: Seq<int>| #[trigger]
        is_order_of(order, ranks_of(items)) && listing == permuted(entries_of(items), order)
}

/// Puts the entries of `items` in the order of a listing.
pub fn arrange(items: Vec<Keyed>) -> (listing: Vec<DirectoryEntry>)
    ensures
        is_arrangement(listing@, items@),
{
    let mut items = items;
    let ghost start = items@;
    sort_keyed(&mut items);
    let ghost order = choose|order: Seq<int>| #[trigger]
        is_order_of(order, ranks_of(start)) && items@ == permuted(start, order);
    let ghost sorted = items@;
    let mut listing: Vec<DirectoryEntry> = Vec::new();
    for item in it: items
        invariant
            it.seq() == sorted,
            listing@.len() == it.index(),
            forall|k: int| 0 <= k < listing@.len() ==> listing@[k] == sorted[k].entry,
    {
        listing.push(item.entry);
    }
    proof {
        assert(listing@ =~= permuted(entries_of(start), order));
    }
    listing
}

/// No position precedes itself, and of two positions at most one precedes
/// the other.
pub proof fn lemma_precedes_one_way(ranks: Seq<Rank>, a: int, b: int)
    ensures
        !(precedes(ranks, a, b) && precedes(ranks, b, a)),
{
    if ranks[a] != ranks[b] && rank_le(ranks[a], ranks[b]) && rank_le(ranks[b], ranks[a]) {
        lemma_rank_le_antisymmetric(ranks[a], ranks[b]);
    }
}

/// Whether each position that `run` names precedes all those that follow it
/// in `run`.
pub open spec fn ascends(run: Seq<int>, ranks: Seq<Rank>) -> bool {
    forall|a: int, b: int|
        0 <= a < b < run.len() ==> precedes(ranks, #[trigger] run[a], #[trigger] run[b])
}

proof fn lemma_ascending_agree(p: Seq<int>, q: Seq<int>, ranks: Seq<Rank>, upto: int)
    requires
        ascends(p, ranks),
        ascends(q, ranks),
        forall|k: int| 0 <= k < p.len() ==> q.contains(#[trigger] p[k]),
        forall|k: int| 0 <= k < q.len() ==> p.contains(#[trigger] q[k]),
        0 <= upto <= p.len(),
    ensures
        upto <= q.len(),
        forall|k: int| 0 <= k < upto ==> p[k] == q[k],
    decreases upto,
{
    if upto > 0 {
        let here = upto - 1;
        lemma_ascending_agree(p, q, ranks, here);
        let x = p[here];
        assert(q.contains(x));
        let m = choose|m: int| 0 <= m < q.len() && q[m] == x;
        if m < here {
            assert(p[m] == x);
            lemma_precedes_one_way(ranks, p[m], p[here]);
            assert(false);
        }
        assert(here < q.len());
        let y = q[here];
        assert(p.contains(y));
        let w = choose|w: int| 0 <= w < p.len() && p[w] == y;
        if w < here {
            assert(q[w] == y);
            lemma_precedes_one_way(ranks, q[w], q[here]);
            assert(false);
        }
        if x != y {
            assert(precedes(ranks, q[here], q[m]));
            assert(precedes(ranks, p[here], p[w]));
            lemma_precedes_one_way(ranks, x, y);
            assert(false);
        }
    }
}

/// Two runs that name the same positions, each in ascending order, are the
/// same run: the order leaves no choice.
pub proof fn lemma_ascending_unique(p: Seq<int>, q: Seq<int>, ranks: Seq<Rank>)
    requires
        ascends(p, ranks),
        ascends(q, ranks),
        forall|k: int| 0 <= k < p.len() ==> q.contains(#[trigger] p[k]),
        forall|k: int| 0 <= k < q.len() ==> p.contains(#[trigger] q[k]),
    ensures
        p == q,
{
    lemma_ascending_agree(p, q, ranks, p.len() as int);
    lemma_ascending_agree(q, p, ranks, q.len() as int);
    assert(p =~= q);
}

/// There is one way only to arrange given items.
pub proof fn lemma_arrangement_unique(
    first: Seq<DirectoryEntry>,
    second: Seq<DirectoryEntry>,
    items: Seq<Keyed>,
)
    requires
        is_arrangement(first, items),
        is_arrangement(second, items),
    ensures
        first == second,
{
    let ranks = ranks_of(items);
    let p = choose|order: Seq<int>| #[trigger]
        is_order_of(order, ranks) && first == permuted(entries_of(items), order);
    let q = choose|order: Seq<int>| #[trigger]
        is_order_of(order, ranks) && second == permuted(entries_of(items), order);
    lemma_ascending_unique(p, q, ranks);
}

} // verus!
