//! The listing of a directory, made anew from each reading of its children.

use crate::entry::{
    describe, entry_of, text_or_empty, ChildRecord, DirectoryEntry, EntryKind, EntryView,
};
use crate::order::{
    arrange, ascends, entries_of, is_order_of, lemma_ascending_unique, lemma_rank_le_reflexive,
    permuted, precedes, ranks_of, Keyed, Rank,
};
use crate::paths::extension_text;
use crate::text::{lex_le, lowercase, lowercase_of};
use vstd::prelude::*;

verus! {

/// Whether the child at `c` gets an entry: it is there, and its metadata could
/// be had.
pub open spec fn is_listed(children: Seq<ChildRecord>, c: int) -> bool {
    0 <= c < children.len() && children[c].facts is Some
}

/// Whether `entry` is the entry of `child`. The extension is what std found
/// in the child's path and is not held to anything here.
pub open spec fn shows(entry: DirectoryEntry, child: ChildRecord) -> bool {
    child.facts matches Some(facts) && entry@ == (EntryView {
        extension: entry@.extension,
        ..entry_of(child, facts, None)
    })
}

/// The rank by which a child is placed: whether it is a directory, and its
/// name in lower case.
pub open spec fn child_rank(child: ChildRecord) -> Rank {
    Rank {
        folder: child.facts matches Some(facts) && facts.is_dir,
        key: lowercase_of(text_or_empty(child.name)),
    }
}

pub open spec fn child_ranks(children: Seq<ChildRecord>) -> Seq<Rank> {
    Seq::new(children.len(), |c: int| child_rank(children[c]))
}

/// Whether `listing` is the snapshot of `children` with the entry at each
/// place made from the child that `source` names for it: every listed child
/// has one entry, folders stand before the rest, each tier ascends by name in
/// lower case, and children whose names agree so keep the order in which they
/// were read.
pub open spec fn is_snapshot_by(
    listing: Seq<DirectoryEntry>,
    children: Seq<ChildRecord>,
    source: Seq<int>,
) -> bool {
    &&& source.len() == listing.len()
    &&& forall|k: int|
        0 <= k < source.len() ==> is_listed(children, #[trigger] source[k]) && shows(
            listing[k],
            children[source[k]],
        )
    &&& forall|c: int| is_listed(children, c) ==> #[trigger] source.contains(c)
    &&& ascends(source, child_ranks(children))
}

/// Whether `listing` is the snapshot of `children`.
pub open spec fn is_snapshot(listing: Seq<DirectoryEntry>, children: Seq<ChildRecord>) -> bool {
    exists|source: Seq<int>| #[trigger] is_snapshot_by(listing, children, source)
}

/// Makes the listing of a directory from its children as they were read.
/// A child without metadata is passed over; nothing else can fail.
pub fn build_snapshot(children: &Vec<ChildRecord>) -> (listing: Vec<DirectoryEntry>)
    ensures
        is_snapshot(listing@, children@),
{
    let mut items: Vec<Keyed> = Vec::new();
    let ghost mut origin: Seq<int> = Seq::empty();
    let n = children.len();
    let mut c: usize = 0;
    while c < n
        invariant
            c <= n,
            n == children@.len(),
            origin.len() == items@.len(),
            forall|k: int|
                0 <= k < origin.len() ==> is_listed(children@, #[trigger] origin[k]) && origin[k]
                    < c && shows(items@[k].entry, children@[origin[k]]) && items@[k].key@
                    == lowercase_of(items@[k].entry.name@),
            forall|a: int, b: int|
                0 <= a < b < origin.len() ==> #[trigger] origin[a] < #[trigger] origin[b],
            forall|x: int| 0 <= x < c && is_listed(children@, x) ==> #[trigger] origin.contains(x),
        decreases n - c,
    {
        let child = &children[c];
        match child.facts {
            Some(facts) => {
                let extension = extension_text(&child.path);
                let entry = describe(child, &facts, extension);
                let key = lowercase(&entry.name);
                let ghost held = origin;
                items.push(Keyed { key, entry });
                proof {
                    origin = held.push(c as int);
                    assert forall|x: int| 0 <= x < c + 1 && is_listed(
                        children@,
                        x,
                    ) implies #[trigger] origin.contains(x) by {
                        if x < c {
                            assert(held.contains(x));
                            let k = choose|k: int| 0 <= k < held.len() && held[k] == x;
                            assert(origin[k] == x);
                        } else {
                            assert(origin[held.len() as int] == x);
                        }
                    }
                }
            },
            None => {},
        }
        c += 1;
    }
    let ghost keyed = items@;
    let listing = arrange(items);
    proof {
        let order = choose|order: Seq<int>| #[trigger]
            is_order_of(order, ranks_of(keyed)) && listing@ == permuted(entries_of(keyed), order);
        let source = Seq::new(order.len(), |k: int| origin[order[k]]);
        let ranks = child_ranks(children@);
        assert forall|x: int| is_listed(children@, x) implies #[trigger] source.contains(x) by {
            assert(origin.contains(x));
            let k = choose|k: int| 0 <= k < origin.len() && origin[k] == x;
            assert(order.contains(k));
            let m = choose|m: int| 0 <= m < order.len() && order[m] == k;
            assert(source[m] == x);
        }
        assert forall|k: int| 0 <= k < origin.len() implies #[trigger] ranks_of(keyed)[k]
            == ranks[origin[k]] by {
            assert(shows(keyed[k].entry, children@[origin[k]]));
        }
        assert forall|a: int, b: int| 0 <= a < b < source.len() implies precedes(
            ranks,
            #[trigger] source[a],
            #[trigger] source[b],
        ) by {
            assert(precedes(ranks_of(keyed), order[a], order[b]));
            assert(ranks_of(keyed)[order[a]] == ranks[origin[order[a]]]);
            assert(ranks_of(keyed)[order[b]] == ranks[origin[order[b]]]);
        }
        assert(is_snapshot_by(listing@, children@, source));
    }
    listing
}

/// The entries of a snapshot stand in two tiers, all folders before all
/// that are none, and within each tier the names ascend when compared in
/// lower case.
pub proof fn lemma_snapshot_ordered(listing: Seq<DirectoryEntry>, children: Seq<ChildRecord>)
    requires
        is_snapshot(listing, children),
    ensures
        forall|a: int, b: int|
            0 <= a < b < listing.len() ==> {
                let x = #[trigger] listing[a];
                let y = #[trigger] listing[b];
                &&& y.kind == EntryKind::Folder ==> x.kind == EntryKind::Folder
                &&& (x.kind == EntryKind::Folder) == (y.kind == EntryKind::Folder) ==> lex_le(
                    lowercase_of(x.name@),
                    lowercase_of(y.name@),
                )
            },
{
    let source = choose|source: Seq<int>| #[trigger] is_snapshot_by(listing, children, source);
    let ranks = child_ranks(children);
    assert forall|a: int, b: int| 0 <= a < b < listing.len() implies {
        let x = #[trigger] listing[a];
        let y = #[trigger] listing[b];
        &&& y.kind == EntryKind::Folder ==> x.kind == EntryKind::Folder
        &&& (x.kind == EntryKind::Folder) == (y.kind == EntryKind::Folder) ==> lex_le(
            lowercase_of(x.name@),
            lowercase_of(y.name@),
        )
    } by {
        assert(precedes(ranks, source[a], source[b]));
        assert(shows(listing[a], children[source[a]]));
        assert(shows(listing[b], children[source[b]]));
        lemma_rank_le_reflexive(ranks[source[a]]);
    }
}

/// Two snapshots of the same children hold the same entries in the same
/// order: they can differ in nothing but the extensions, which come from
/// outside.
pub proof fn lemma_snapshot_unique(
    first: Seq<DirectoryEntry>,
    second: Seq<DirectoryEntry>,
    children: Seq<ChildRecord>,
)
    requires
        is_snapshot(first, children),
        is_snapshot(second, children),
    ensures
        first.len() == second.len(),
        forall|k: int|
            0 <= k < first.len() ==> (#[trigger] first[k])@ == (EntryView {
                extension: first[k]@.extension,
                ..second[k]@
            }),
{
    let p = choose|source: Seq<int>| #[trigger] is_snapshot_by(first, children, source);
    let q = choose|source: Seq<int>| #[trigger] is_snapshot_by(second, children, source);
    lemma_ascending_unique(p, q, child_ranks(children));
    assert forall|k: int| 0 <= k < first.len() implies (#[trigger] first[k])@ == (EntryView {
        extension: first[k]@.extension,
        ..second[k]@
    }) by {
        assert(shows(first[k], children[p[k]]));
        assert(shows(second[k], children[q[k]]));
    }
}

/// Whether the entry at `k` of `listing` is that of the listed child at `c`.
pub open spec fn shown_from(
    listing: Seq<DirectoryEntry>,
    children: Seq<ChildRecord>,
    k: int,
    c: int,
) -> bool {
    0 <= k < listing.len() && is_listed(children, c) && shows(listing[k], children[c])
}

/// Whether the entry at `k` of `listing` is that of some listed child.
pub open spec fn has_source(listing: Seq<DirectoryEntry>, children: Seq<ChildRecord>, k: int) -> bool {
    exists|c: int| #[trigger] shown_from(listing, children, k, c)
}

/// Whether the child at `c` has its entry in `listing`.
pub open spec fn has_entry(listing: Seq<DirectoryEntry>, children: Seq<ChildRecord>, c: int) -> bool {
    exists|k: int| #[trigger] shown_from(listing, children, k, c)
}

/// A snapshot shows the listed children and nothing else: each of its
/// entries is that of a listed child, and each listed child has its entry.
pub proof fn lemma_snapshot_members(listing: Seq<DirectoryEntry>, children: Seq<ChildRecord>)
    requires
        is_snapshot(listing, children),
    ensures
        forall|k: int| 0 <= k < listing.len() ==> #[trigger] has_source(listing, children, k),
        forall|c: int| is_listed(children, c) ==> #[trigger] has_entry(listing, children, c),
{
    let source = choose|source: Seq<int>| #[trigger] is_snapshot_by(listing, children, source);
    assert forall|k: int| 0 <= k < listing.len() implies #[trigger] has_source(
        listing,
        children,
        k,
    ) by {
        assert(is_listed(children, source[k]));
        assert(shown_from(listing, children, k, source[k]));
    }
    assert forall|c: int| is_listed(children, c) implies #[trigger] has_entry(
        listing,
        children,
        c,
    ) by {
        assert(source.contains(c));
        let k = choose|k: int| 0 <= k < source.len() && source[k] == c;
        assert(is_listed(children, source[k]));
        assert(shown_from(listing, children, k, c));
    }
}

/// Whether a listed child of `children` other than the one at `at` goes by
/// `name`.
pub open spec fn name_held_elsewhere(children: Seq<ChildRecord>, at: int, name: Seq<char>) -> bool {
    exists|c: int| #[trigger]
        is_listed(children, c) && c != at && text_or_empty(children[c].name) == name
}

/// When a child has been given a new name that differs from its old one,
/// and no other child goes by the old name, the snapshot of the directory as
/// read afterwards shows the new name and no longer the old one.
pub proof fn lemma_snapshot_after_rename(
    listing: Seq<DirectoryEntry>,
    before: Seq<ChildRecord>,
    at: int,
    renamed: ChildRecord,
)
    requires
        is_listed(before, at),
        renamed.facts is Some,
        text_or_empty(renamed.name) != text_or_empty(before[at].name),
        !name_held_elsewhere(before, at, text_or_empty(before[at].name)),
        is_snapshot(listing, before.update(at, renamed)),
    ensures
        exists|k: int|
            0 <= k < listing.len() && (#[trigger] listing[k]).name@ == text_or_empty(renamed.name),
        forall|k: int|
            0 <= k < listing.len() ==> (#[trigger] listing[k]).name@ != text_or_empty(
                before[at].name,
            ),
{
    let after = before.update(at, renamed);
    let old_name = text_or_empty(before[at].name);
    lemma_snapshot_members(listing, after);
    assert(is_listed(after, at));
    assert(has_entry(listing, after, at));
    let shown = choose|k: int| #[trigger] shown_from(listing, after, k, at);
    assert(listing[shown].name@ == text_or_empty(renamed.name));
    assert forall|k: int| 0 <= k < listing.len() implies (#[trigger] listing[k]).name@
        != old_name by {
        assert(has_source(listing, after, k));
        let c = choose|c: int| #[trigger] shown_from(listing, after, k, c);
        if c != at {
            assert(after[c] == before[c]);
            assert(is_listed(before, c));
        }
    }
}

/// When a child has been removed and its path belongs to no other child,
/// the snapshot of the directory as read afterwards has no entry for that
/// path.
pub proof fn lemma_snapshot_after_removal(
    listing: Seq<DirectoryEntry>,
    before: Seq<ChildRecord>,
    at: int,
)
    requires
        0 <= at < before.len(),
        forall|c: int|
            0 <= c < before.len() && c != at ==> (#[trigger] before[c]).path != before[at].path,
        is_snapshot(listing, before.remove(at)),
    ensures
        forall|k: int| 0 <= k < listing.len() ==> (#[trigger] listing[k]).path != before[at].path,
{
    let after = before.remove(at);
    lemma_snapshot_members(listing, after);
    assert forall|k: int| 0 <= k < listing.len() implies (#[trigger] listing[k]).path
        != before[at].path by {
        assert(has_source(listing, after, k));
        let c = choose|c: int| #[trigger] shown_from(listing, after, k, c);
        let from = if c < at {
            c
        } else {
            c + 1
        };
        assert(after[c] == before[from]);
        assert(before[from].path != before[at].path);
    }
}

} // verus!
