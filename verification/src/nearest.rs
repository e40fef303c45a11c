//! The closest known place of each biome, and how two such records combine.

use crate::biome::{Biome, BIOME_COUNT};
use crate::biome_set::BiomeSet;
use crate::geometry::{taxicab, taxicab_distance, Coord};
use vstd::prelude::*;

verus! {

/// Whether `a` is preferred to `b` as seen from `anchor`: it is closer, or as
/// close with a smaller `z`, or as close with the same `z` and a smaller `x`.
pub open spec fn precedes(anchor: Coord, a: Coord, b: Coord) -> bool {
    let da = taxicab(anchor, a);
    let db = taxicab(anchor, b);
    da < db || (da == db && (a.z < b.z || (a.z == b.z && a.x < b.x)))
}

/// The preferred one of two coordinates.
pub open spec fn nearer(anchor: Coord, a: Coord, b: Coord) -> Coord {
    if precedes(anchor, b, a) {
        b
    } else {
        a
    }
}

/// The record after a sighting of `biome` at `at`: where the biome is looked
/// for and was not recorded yet, or was recorded strictly farther away, the
/// sighting takes the entry.
pub open spec fn updated(
    anchor: Coord,
    wanted: Set<Biome>,
    map: Map<Biome, Coord>,
    at: Coord,
    biome: Biome,
) -> Map<Biome, Coord> {
    if wanted.contains(biome) && (!map.contains_key(biome) || taxicab(anchor, at) < taxicab(
        anchor,
        map[biome],
    )) {
        map.insert(biome, at)
    } else {
        map
    }
}

/// Two records combined: every biome of either, at the preferred one of its
/// coordinates.
pub open spec fn merged(anchor: Coord, a: Map<Biome, Coord>, b: Map<Biome, Coord>) -> Map<
    Biome,
    Coord,
> {
    Map::new(
        |k: Biome| a.contains_key(k) || b.contains_key(k),
        |k: Biome|
            if a.contains_key(k) && b.contains_key(k) {
                nearer(anchor, a[k], b[k])
            } else if a.contains_key(k) {
                a[k]
            } else {
                b[k]
            },
    )
}

/// Whether `after` keeps every biome of `before` and records none of them
/// farther from `anchor`.
pub open spec fn refines(anchor: Coord, before: Map<Biome, Coord>, after: Map<Biome, Coord>) -> bool {
    forall|k: Biome| #[trigger]
        before.contains_key(k) ==> after.contains_key(k) && taxicab(anchor, after[k]) <= taxicab(
            anchor,
            before[k],
        )
}

pub fn is_preferred(anchor: Coord, a: Coord, b: Coord) -> (yes: bool)
    ensures
        yes == precedes(anchor, a, b),
{
    let da = taxicab_distance(anchor, a);
    let db = taxicab_distance(anchor, b);
    da < db || (da == db && (a.z < b.z || (a.z == b.z && a.x < b.x)))
}

/// For each biome at most one coordinate: the best place known so far.
#[derive(Clone, Copy, Debug, PartialEq, Eq)]
pub struct NearestMap {
    best: [Option<Coord>; BIOME_COUNT],
}

impl View for NearestMap {
    type V = Map<Biome, Coord>;

    closed spec fn view(&self) -> Map<Biome, Coord> {
        Map::new(
            |b: Biome| self.best@[b.ordinal()] is Some,
            |b: Biome| self.best@[b.ordinal()]->0,
        )
    }
}

impl NearestMap {
    /// The record that knows no biome.
    pub fn new() -> (map: NearestMap)
        ensures
            map@ == Map::<Biome, Coord>::empty(),
    {
        let map = NearestMap { best: [None;BIOME_COUNT] };
        assert(map@ =~= Map::<Biome, Coord>::empty());
        map
    }

    pub fn get(&self, biome: Biome) -> (at: Option<Coord>)
        ensures
            at == if self@.contains_key(biome) {
                Some(self@[biome])
            } else {
                None
            },
    {
        self.best[biome.index()]
    }

    /// Records a sighting of `biome` at `at`.
    pub fn update(&mut self, anchor: Coord, wanted: &BiomeSet, at: Coord, biome: Biome)
        ensures
            final(self)@ == updated(anchor, wanted@, old(self)@, at, biome),
            refines(anchor, old(self)@, final(self)@),
    {
        if wanted.contains(biome) {
            let i = biome.index();
            let closer = match self.best[i] {
                None => true,
                Some(held) => taxicab_distance(anchor, at) < taxicab_distance(anchor, held),
            };
            if closer {
                self.best[i] = Some(at);
            }
        }
        assert(self@ =~= updated(anchor, wanted@, old(self)@, at, biome));
    }

    /// The combination of this record with `other`.
    pub fn merge(&self, other: &NearestMap, anchor: Coord) -> (both: NearestMap)
        ensures
            both@ == merged(anchor, self@, other@),
            refines(anchor, self@, both@),
            refines(anchor, other@, both@),
    {
        let mut best: [Option<Coord>; BIOME_COUNT] = [None;BIOME_COUNT];
        let mut i: usize = 0;
        while i < BIOME_COUNT
            invariant
                i <= BIOME_COUNT,
                forall|j: int|
                    0 <= j < i ==> #[trigger] best@[j] == match (self.best@[j], other.best@[j]) {
                        (Some(a), Some(b)) => Some(nearer(anchor, a, b)),
                        (Some(a), None) => Some(a),
                        (None, b) => b,
                    },
            decreases BIOME_COUNT - i,
        {
            let entry = match (self.best[i], other.best[i]) {
                (Some(a), Some(b)) => if is_preferred(anchor, b, a) {
                    Some(b)
                } else {
                    Some(a)
                },
                (Some(a), None) => Some(a),
                (None, b) => b,
            };
            best[i] = entry;
            i += 1;
        }
        let both = NearestMap { best };
        assert(both@ =~= merged(anchor, self@, other@));
        both
    }

    /// The entries of this record for the biomes in `wanted`.
    pub fn restrict(&self, wanted: &BiomeSet) -> (kept: NearestMap)
        ensures
            kept@ == self@.restrict(wanted@),
    {
        let mut best: [Option<Coord>; BIOME_COUNT] = [None;BIOME_COUNT];
        let mut i: usize = 0;
        while i < BIOME_COUNT
            invariant
                i <= BIOME_COUNT,
                forall|j: int|
                    0 <= j < i ==> #[trigger] best@[j] == if wanted@.contains(Biome::at(j)) {
                        self.best@[j]
                    } else {
                        None
                    },
                forall|j: int| i <= j < BIOME_COUNT ==> #[trigger] best@[j] is None,
            decreases BIOME_COUNT - i,
        {
            match Biome::from_index(i) {
                Some(b) => {
                    if wanted.contains(b) {
                        best[i] = self.best[i];
                    }
                },
                None => {},
            }
            i += 1;
        }
        let kept = NearestMap { best };
        assert(kept@ =~= self@.restrict(wanted@)) by {
            assert forall|k: Biome| kept@.contains_key(k) <==> self@.restrict(
                wanted@,
            ).contains_key(k) by {
                crate::biome::ordinal_roundtrip(k);
            }
            assert forall|k: Biome| kept@.contains_key(k) implies kept@[k] == self@.restrict(
                wanted@,
            )[k] by {
                crate::biome::ordinal_roundtrip(k);
            }
        }
        kept
    }

    /// Whether every biome of `wanted` has an entry.
    pub fn covers(&self, wanted: &BiomeSet) -> (all: bool)
        ensures
            all == wanted@.subset_of(self@.dom()),
    {
        let mut i: usize = 0;
        while i < BIOME_COUNT
            invariant
                i <= BIOME_COUNT,
                forall|j: int|
                    0 <= j < i && wanted@.contains(#[trigger] Biome::at(j)) ==> self@.contains_key(
                        Biome::at(j),
                    ),
            decreases BIOME_COUNT - i,
        {
            match Biome::from_index(i) {
                Some(b) => {
                    if wanted.contains(b) && self.best[i].is_none() {
                        proof {
                            crate::biome::position_roundtrip(i as int);
                            assert(wanted@.contains(b) && !self@.dom().contains(b));
                        }
                        return false;
                    }
                    proof {
                        crate::biome::position_roundtrip(i as int);
                    }
                },
                None => {},
            }
            i += 1;
        }
        proof {
            assert forall|k: Biome| wanted@.contains(k) implies self@.dom().contains(k) by {
                crate::biome::ordinal_roundtrip(k);
            }
        }
        true
    }

    /// The entries of this record, in the order of the enumeration of biomes.
    pub fn entries(&self) -> (list: Vec<(Biome, Coord)>)
        ensures
            forall|i: int|
                0 <= i < list@.len() ==> self@.contains_key((#[trigger] list@[i]).0) && self@[list@[i].0]
                    == list@[i].1,
            forall|i: int, j: int|
                0 <= i < j < list@.len() ==> (#[trigger] list@[i]).0.ordinal() < (
                #[trigger] list@[j]).0.ordinal(),
            forall|k: Biome|
                self@.contains_key(k) ==> exists|i: int|
                    0 <= i < list@.len() && (#[trigger] list@[i]).0 == k,
    {
        let mut list: Vec<(Biome, Coord)> = Vec::new();
        let mut i: usize = 0;
        while i < BIOME_COUNT
            invariant
                i <= BIOME_COUNT,
                forall|n: int|
                    0 <= n < list@.len() ==> self@.contains_key((#[trigger] list@[n]).0) && self@[list@[n].0]
                        == list@[n].1 && list@[n].0.ordinal() < i,
                forall|n: int, m: int|
                    0 <= n < m < list@.len() ==> (#[trigger] list@[n]).0.ordinal() < (
                    #[trigger] list@[m]).0.ordinal(),
                forall|j: int|
                    0 <= j < i && self@.contains_key(Biome::at(j)) ==> exists|n: int|
                        0 <= n < list@.len() && (#[trigger] list@[n]).0 == Biome::at(j),
            decreases BIOME_COUNT - i,
        {
            match (Biome::from_index(i), self.best[i]) {
                (Some(b), Some(at)) => {
                    proof {
                        crate::biome::position_roundtrip(i as int);
                    }
                    let ghost before = list@;
                    list.push((b, at));
                    proof {
                        assert forall|j: int|
                            0 <= j < i + 1 && self@.contains_key(Biome::at(j)) implies exists|
                            n: int,
                        |
                            0 <= n < list@.len() && (#[trigger] list@[n]).0 == Biome::at(j) by {
                            if j < i {
                                let n = choose|n: int|
                                    0 <= n < before.len() && (#[trigger] before[n]).0 == Biome::at(
                                        j,
                                    );
                                assert(list@[n].0 == Biome::at(j));
                            } else {
                                assert(list@[list@.len() - 1].0 == Biome::at(j));
                            }
                        }
                    }
                },
                _ => {
                    proof {
                        crate::biome::position_roundtrip(i as int);
                    }
                },
            }
            i += 1;
        }
        proof {
            assert forall|k: Biome| self@.contains_key(k) implies exists|n: int|
                0 <= n < list@.len() && (#[trigger] list@[n]).0 == k by {
                crate::biome::ordinal_roundtrip(k);
            }
        }
        list
    }
}

/// Combining two records gives the same record in either order.
pub proof fn merge_commutative(anchor: Coord, a: Map<Biome, Coord>, b: Map<Biome, Coord>)
    ensures
        merged(anchor, a, b) == merged(anchor, b, a),
{
    assert(merged(anchor, a, b) =~= merged(anchor, b, a));
}

/// Combining three records gives the same record in either grouping.
pub proof fn merge_associative(
    anchor: Coord,
    a: Map<Biome, Coord>,
    b: Map<Biome, Coord>,
    c: Map<Biome, Coord>,
)
    ensures
        merged(anchor, merged(anchor, a, b), c) == merged(anchor, a, merged(anchor, b, c)),
{
    assert(merged(anchor, merged(anchor, a, b), c) =~= merged(anchor, a, merged(anchor, b, c)));
}

/// Combining a record with itself changes nothing.
pub proof fn merge_idempotent(anchor: Coord, a: Map<Biome, Coord>)
    ensures
        merged(anchor, a, a) == a,
{
    assert(merged(anchor, a, a) =~= a);
}

/// The combination of two records keeps every biome of both, at a distance
/// that is the smaller of the two where both know the biome.
pub proof fn merge_takes_least_distance(
    anchor: Coord,
    a: Map<Biome, Coord>,
    b: Map<Biome, Coord>,
    k: Biome,
)
    requires
        a.contains_key(k),
        b.contains_key(k),
    ensures
        merged(anchor, a, b).contains_key(k),
        taxicab(anchor, merged(anchor, a, b)[k]) == if taxicab(anchor, a[k]) <= taxicab(
            anchor,
            b[k],
        ) {
            taxicab(anchor, a[k])
        } else {
            taxicab(anchor, b[k])
        },
{
}

/// All of `parts` combined one after the other, starting from the record
/// that knows no biome.
pub open spec fn merged_all(anchor: Coord, parts: Seq<Map<Biome, Coord>>) -> Map<Biome, Coord> {
    parts.fold_left(
        Map::empty(),
        |so_far: Map<Biome, Coord>, part: Map<Biome, Coord>| merged(anchor, so_far, part),
    )
}

/// Records combined in any order give the same record, and so the same
/// distance for every biome.
pub proof fn merge_order_is_free(
    anchor: Coord,
    parts: Seq<Map<Biome, Coord>>,
    shuffled: Seq<Map<Biome, Coord>>,
)
    requires
        parts.to_multiset() == shuffled.to_multiset(),
    ensures
        merged_all(anchor, parts) == merged_all(anchor, shuffled),
{
    let step = |so_far: Map<Biome, Coord>, part: Map<Biome, Coord>| merged(anchor, so_far, part);
    assert forall|x: Map<Biome, Coord>, y: Map<Biome, Coord>, v: Map<Biome, Coord>| #[trigger]
        step(step(v, x), y) == step(step(v, y), x) by {
        merge_associative(anchor, v, x, y);
        merge_commutative(anchor, x, y);
        merge_associative(anchor, v, y, x);
    }
    vstd::seq_lib::lemma_fold_left_permutation(parts, shuffled, step, Map::empty());
}

/// Records combined in two groups, and the two results combined, give the
/// same record as all of them combined one after the other.
pub proof fn merge_grouping_is_free(
    anchor: Coord,
    first: Seq<Map<Biome, Coord>>,
    second: Seq<Map<Biome, Coord>>,
)
    ensures
        merged_all(anchor, first + second) == merged(
            anchor,
            merged_all(anchor, first),
            merged_all(anchor, second),
        ),
    decreases second.len(),
{
    let step = |so_far: Map<Biome, Coord>, part: Map<Biome, Coord>| merged(anchor, so_far, part);
    if second.len() == 0 {
        assert(first + second =~= first);
        assert(merged(anchor, merged_all(anchor, first), Map::empty()) =~= merged_all(
            anchor,
            first,
        ));
    } else {
        let all = first + second;
        assert(all.drop_last() =~= first + second.drop_last());
        assert(all.last() == second.last());
        merge_grouping_is_free(anchor, first, second.drop_last());
        merge_associative(
            anchor,
            merged_all(anchor, first),
            merged_all(anchor, second.drop_last()),
            second.last(),
        );
    }
}

/// What all of `parts` combined knows of a biome it has from one of the
/// parts, and it knows every biome that a part knows.
pub proof fn merged_all_takes_from_a_part(
    anchor: Coord,
    parts: Seq<Map<Biome, Coord>>,
    k: Biome,
)
    ensures
        merged_all(anchor, parts).contains_key(k) <==> exists|i: int|
            0 <= i < parts.len() && (#[trigger] parts[i]).contains_key(k),
        merged_all(anchor, parts).contains_key(k) ==> exists|i: int|
            0 <= i < parts.len() && (#[trigger] parts[i]).contains_key(k) && parts[i][k]
                == merged_all(anchor, parts)[k],
    decreases parts.len(),
{
    if parts.len() > 0 {
        let front = parts.drop_last();
        let rest = merged_all(anchor, front);
        let all = merged_all(anchor, parts);
        merged_all_takes_from_a_part(anchor, front, k);
        assert(all == merged(anchor, rest, parts.last()));
        if rest.contains_key(k) {
            let i = choose|i: int|
                0 <= i < front.len() && (#[trigger] front[i]).contains_key(k) && front[i][k]
                    == rest[k];
            assert(parts[i] == front[i]);
            if all[k] != rest[k] {
                assert(parts[parts.len() - 1].contains_key(k));
            }
        } else if all.contains_key(k) {
            assert(parts[parts.len() - 1].contains_key(k));
        }
        if exists|i: int| 0 <= i < parts.len() && (#[trigger] parts[i]).contains_key(k) {
            let i = choose|i: int| 0 <= i < parts.len() && (#[trigger] parts[i]).contains_key(k);
            if i < parts.len() - 1 {
                assert(front[i].contains_key(k));
            }
        }
    }
}

/// All of `parts` combined knows a biome no farther from `anchor` than any
/// of the parts does.
pub proof fn merged_all_refines_each(anchor: Coord, parts: Seq<Map<Biome, Coord>>, i: int)
    requires
        0 <= i < parts.len(),
    ensures
        refines(anchor, parts[i], merged_all(anchor, parts)),
    decreases parts.len(),
{
    let rest = merged_all(anchor, parts.drop_last());
    if i < parts.len() - 1 {
        merged_all_refines_each(anchor, parts.drop_last(), i);
        assert(parts.drop_last()[i] == parts[i]);
        assert forall|k: Biome| #[trigger] parts[i].contains_key(k) implies merged_all(
            anchor,
            parts,
        ).contains_key(k) && taxicab(anchor, merged_all(anchor, parts)[k]) <= taxicab(
            anchor,
            parts[i][k],
        ) by {
            assert(rest.contains_key(k));
        }
    }
}

/// What refines a refinement of a record refines the record.
pub proof fn refines_transitive(
    anchor: Coord,
    a: Map<Biome, Coord>,
    b: Map<Biome, Coord>,
    c: Map<Biome, Coord>,
)
    requires
        refines(anchor, a, b),
        refines(anchor, b, c),
    ensures
        refines(anchor, a, c),
{
    assert forall|k: Biome| #[trigger] a.contains_key(k) implies c.contains_key(k) && taxicab(
        anchor,
        c[k],
    ) <= taxicab(anchor, a[k]) by {
        assert(b.contains_key(k));
    }
}

/// Along a run of records of which each refines the one before it, every
/// record refines every earlier one: a biome once recorded stays recorded,
/// and its distance from `anchor` never grows.
pub proof fn refines_along(anchor: Coord, run: Seq<Map<Biome, Coord>>, i: int, j: int)
    requires
        0 <= i <= j < run.len(),
        forall|n: int| 0 <= n < run.len() - 1 ==> refines(anchor, #[trigger] run[n], run[n + 1]),
    ensures
        refines(anchor, run[i], run[j]),
    decreases j - i,
{
    if i < j {
        refines_along(anchor, run, i, j - 1);
        assert(refines(anchor, run[j - 1], run[j - 1 + 1]));
        refines_transitive(anchor, run[i], run[j - 1], run[j]);
    }
}

} // verus!
