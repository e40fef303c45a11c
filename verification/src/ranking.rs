//! The answer of a search in its final order: by distance, then by `z`, then
//! by `x`, then by the name of the biome.

use crate::biome::{names_are_distinct, Biome};
use crate::geometry::{taxicab, taxicab_distance, Coord};
use crate::nearest::NearestMap;
use itertools::Itertools;
use vstd::prelude::*;

verus! {

/// One line of the answer: a biome, the block column where it was found
/// closest to the anchor, and the distance of that column from the anchor.
#[derive(Clone, Copy, Debug, PartialEq, Eq, Structural)]
pub struct Found {
    pub biome: Biome,
    pub at: Coord,
    pub distance: u64,
}

/// Whether the text `a` comes before the text `b`: at the first position
/// where they differ `a` has the character with the smaller code point, or
/// `a` ends there and `b` does not.
pub open spec fn text_before(a: Seq<char>, b: Seq<char>) -> bool
    decreases a.len(),
{
    if b.len() == 0 {
        false
    } else if a.len() == 0 {
        true
    } else if a[0] != b[0] {
        (a[0] as int) < (b[0] as int)
    } else {
        text_before(a.skip(1), b.skip(1))
    }
}

/// Whether the line `a` comes before the line `b`: by distance, then by `z`,
/// then by `x`, then by the name of the biome.
pub open spec fn ranks_before(a: Found, b: Found) -> bool {
    a.distance < b.distance || (a.distance == b.distance && (a.at.z < b.at.z || (a.at.z == b.at.z
        && (a.at.x < b.at.x || (a.at.x == b.at.x && text_before(
        a.biome.name_spec(),
        b.biome.name_spec(),
    ))))))
}

/// Of two different texts one comes before the other.
pub proof fn text_order_is_total(a: Seq<char>, b: Seq<char>)
    requires
        a != b,
    ensures
        text_before(a, b) || text_before(b, a),
    decreases a.len(),
{
    if a.len() > 0 && b.len() > 0 && a[0] == b[0] {
        if a.skip(1) == b.skip(1) {
            assert(a.len() == a.skip(1).len() + 1);
            assert(b.len() == b.skip(1).len() + 1);
            assert forall|i: int| 0 <= i < a.len() implies a[i] == b[i] by {
                if i > 0 {
                    assert(a[i] == a.skip(1)[i - 1]);
                    assert(b[i] == b.skip(1)[i - 1]);
                }
            }
            assert(a =~= b);
        }
        text_order_is_total(a.skip(1), b.skip(1));
    } else if a.len() == 0 || b.len() == 0 {
        assert(a.len() != b.len()) by {
            if a.len() == b.len() {
                assert(a =~= b);
            }
        }
    }
}

/// What a line is ordered by.
pub fn sort_key(line: &Found) -> (key: (u64, i32, i32, &'static str))
    ensures
        key.0 == line.distance,
        key.1 == line.at.z,
        key.2 == line.at.x,
        key.3@ == line.biome.name_spec(),
{
    (line.distance, line.at.z, line.at.x, line.biome.name())
}

/// itertools' `sorted_by_key` over the lines, with `sort_key` as the key.
///
/// Claimed of it: it gives back the same lines, each as often as it was
/// given, in ascending order of their keys. The keys are tuples, which std
/// orders by their first component, then the second, and so on; the last
/// component is a text, which std orders by the code points of its
/// characters. Lines with equal keys would come out in the order in which
/// they went in; none are admitted here, so nothing is claimed of that.
#[verifier::external_body]
fn sorted_by_rank(lines: Vec<Found>) -> (sorted: Vec<Found>)
    requires
        forall|i: int, j: int|
            0 <= i < j < lines@.len() ==> ranks_before(#[trigger] lines@[i], #[trigger] lines@[j])
                || ranks_before(lines@[j], lines@[i]),
    ensures
        sorted@.to_multiset() == lines@.to_multiset(),
        forall|i: int, j: int|
            0 <= i < j < sorted@.len() ==> !ranks_before(#[trigger] sorted@[j], #[trigger] sorted@[i]),
{
    lines.into_iter().sorted_by_key(|line| sort_key(line)).collect()
}

/// Whether `list` is the answer that `found` holds for a search around
/// `anchor`: one line for each biome of `found`, with the biome's block
/// column and its distance from `anchor`, and each line before all those that
/// it ranks before.
pub open spec fn is_ranking_of(list: Seq<Found>, anchor: Coord, found: Map<Biome, Coord>) -> bool {
    &&& forall|i: int|
        0 <= i < list.len() ==> {
            let line = #[trigger] list[i];
            &&& found.contains_key(line.biome)
            &&& line.at == found[line.biome]
            &&& line.distance == taxicab(anchor, line.at)
        }
    &&& forall|k: Biome| #[trigger]
        found.contains_key(k) ==> exists|i: int| 0 <= i < list.len() && (#[trigger] list[i]).biome == k
    &&& forall|i: int, j: int|
        0 <= i < j < list.len() ==> ranks_before(#[trigger] list[i], #[trigger] list[j])
}

/// The answer of a search around `anchor` that has found `found`, in its
/// final order.
pub fn ranked(anchor: Coord, found: &NearestMap) -> (list: Vec<Found>)
    ensures
        is_ranking_of(list@, anchor, found@),
{
    let entries = found.entries();
    let mut lines: Vec<Found> = Vec::new();
    let mut i: usize = 0;
    while i < entries.len()
        invariant
            i <= entries@.len(),
            lines@.len() == i,
            forall|n: int|
                0 <= n < i ==> {
                    let line = #[trigger] lines@[n];
                    &&& line.biome == entries@[n].0
                    &&& line.at == entries@[n].1
                    &&& line.distance == taxicab(anchor, line.at)
                },
        decreases entries@.len() - i,
    {
        let (biome, at) = entries[i];
        lines.push(Found { biome, at, distance: taxicab_distance(anchor, at) });
        i += 1;
    }
    let ghost unsorted = lines@;
    proof {
        assert forall|n: int, m: int| 0 <= n < m < unsorted.len() implies ranks_before(
            #[trigger] unsorted[n],
            #[trigger] unsorted[m],
        ) || ranks_before(unsorted[m], unsorted[n]) by {
            assert(entries@[n].0.ordinal() < entries@[m].0.ordinal());
            names_are_distinct(unsorted[n].biome, unsorted[m].biome);
            text_order_is_total(unsorted[n].biome.name_spec(), unsorted[m].biome.name_spec());
        }
    }
    let list = sorted_by_rank(lines);
    proof {
        assert(unsorted.no_duplicates()) by {
            assert forall|n: int, m: int|
                0 <= n < unsorted.len() && 0 <= m < unsorted.len() && n != m implies unsorted[n]
                != unsorted[m] by {
                if n < m {
                    assert(entries@[n].0.ordinal() < entries@[m].0.ordinal());
                } else {
                    assert(entries@[m].0.ordinal() < entries@[n].0.ordinal());
                }
            }
        }
        unsorted.lemma_multiset_has_no_duplicates();
        list@.lemma_multiset_has_no_duplicates_conv();
        assert forall|n: int| 0 <= n < list@.len() implies {
            let line = #[trigger] list@[n];
            &&& found@.contains_key(line.biome)
            &&& line.at == found@[line.biome]
            &&& line.distance == taxicab(anchor, line.at)
        } by {
            let line = list@[n];
            assert(list@.contains(line));
            vstd::seq_lib::to_multiset_contains(list@, line);
            vstd::seq_lib::to_multiset_contains(unsorted, line);
            let m = choose|m: int| 0 <= m < unsorted.len() && unsorted[m] == line;
            assert(unsorted[m].biome == entries@[m].0);
        }
        assert forall|k: Biome| #[trigger] found@.contains_key(k) implies exists|n: int|
            0 <= n < list@.len() && (#[trigger] list@[n]).biome == k by {
            let m = choose|m: int| 0 <= m < entries@.len() && (#[trigger] entries@[m]).0 == k;
            let line = unsorted[m];
            assert(unsorted.contains(line));
            vstd::seq_lib::to_multiset_contains(unsorted, line);
            vstd::seq_lib::to_multiset_contains(list@, line);
            let n = choose|n: int| 0 <= n < list@.len() && list@[n] == line;
            assert(list@[n].biome == k);
        }
        assert forall|n: int, m: int| 0 <= n < m < list@.len() implies ranks_before(
            #[trigger] list@[n],
            #[trigger] list@[m],
        ) by {
            let a = list@[n];
            let b = list@[m];
            assert(a != b);
            assert(!ranks_before(b, a));
            names_are_distinct(a.biome, b.biome);
            if a.biome != b.biome {
                text_order_is_total(a.biome.name_spec(), b.biome.name_spec());
            }
        }
    }
    list
}

} // verus!
