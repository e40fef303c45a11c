//! The closest place of each biome within one region.

use crate::biome::Biome;
use crate::biome_set::BiomeSet;
use crate::geometry::{block_at, column_at, in_world, taxicab, Coord, CELLS, SLOTS};
use crate::nearest::{
    merged_all,
    merged_all_refines_each,
    merged_all_takes_from_a_part,
    NearestMap,
};
use crate::stitch::{DenseGrid, COLUMNS};
use vstd::prelude::*;

verus! {

/// The block column of `region` at position `p` of a dense grid.
pub open spec fn column_of(region: Coord, p: int) -> Coord {
    column_at(region, p / 256, p % 256)
}

/// Whether position `p` is where a walk over the first `n` positions of
/// `dense` finds the biome `biome` closest to `anchor`: the position holds the
/// biome, no position that holds it is closer, and none that is as close
/// comes earlier.
pub open spec fn is_closest_among(
    anchor: Coord,
    region: Coord,
    dense: Seq<Biome>,
    n: int,
    biome: Biome,
    p: int,
) -> bool {
    &&& 0 <= p < n
    &&& dense[p] == biome
    &&& forall|q: int|
        0 <= q < n && #[trigger] dense[q] == biome ==> {
            let dp = taxicab(anchor, column_of(region, p));
            let dq = taxicab(anchor, column_of(region, q));
            dp < dq || (dp == dq && p <= q)
        }
}

/// Whether `found` records, for the first `n` positions of `dense`, exactly
/// the biomes of `wanted` that occur there, each at the block column where it
/// is closest to `anchor`.
pub open spec fn records_closest_among(
    anchor: Coord,
    region: Coord,
    dense: Seq<Biome>,
    n: int,
    wanted: Set<Biome>,
    found: Map<Biome, Coord>,
) -> bool {
    forall|b: Biome|
        {
            &&& #[trigger] found.contains_key(b) <==> wanted.contains(b) && exists|q: int|
                0 <= q < n && #[trigger] dense[q] == b
            &&& found.contains_key(b) ==> exists|p: int| #[trigger]
                is_closest_among(anchor, region, dense, n, b, p) && found[b] == column_of(region, p)
        }
}

/// For each biome of `wanted` that occurs in `region`, the block column where
/// it is closest to `anchor`; of several equally close ones the first, going
/// chunk slot by chunk slot and within a chunk cell by cell.
pub fn closest_biomes_in_region(
    anchor: Coord,
    region: Coord,
    dense: &DenseGrid,
    wanted: &BiomeSet,
) -> (found: NearestMap)
    requires
        in_world(region),
    ensures
        records_closest_among(anchor, region, dense@, COLUMNS as int, wanted@, found@),
{
    let mut found = NearestMap::new();
    let ghost mut place: Map<Biome, int> = Map::empty();
    let mut slot: usize = 0;
    while slot < SLOTS
        invariant
            in_world(region),
            slot <= SLOTS,
            place.dom() == found@.dom(),
            forall|b: Biome| #[trigger]
                found@.contains_key(b) <==> wanted@.contains(b) && exists|q: int|
                    0 <= q < slot * 256 && #[trigger] dense@[q] == b,
            forall|b: Biome| #[trigger]
                found@.contains_key(b) ==> is_closest_among(
                    anchor,
                    region,
                    dense@,
                    slot * 256,
                    b,
                    place[b],
                ) && found@[b] == column_of(region, place[b]),
        decreases SLOTS - slot,
    {
        let mut cell: usize = 0;
        while cell < CELLS
            invariant
                in_world(region),
                slot < SLOTS,
                cell <= CELLS,
                place.dom() == found@.dom(),
                forall|b: Biome| #[trigger]
                    found@.contains_key(b) <==> wanted@.contains(b) && exists|q: int|
                        0 <= q < slot * 256 + cell && #[trigger] dense@[q] == b,
                forall|b: Biome| #[trigger]
                    found@.contains_key(b) ==> is_closest_among(
                        anchor,
                        region,
                        dense@,
                        slot * 256 + cell,
                        b,
                        place[b],
                    ) && found@[b] == column_of(region, place[b]),
            decreases CELLS - cell,
        {
            let ghost n = slot * 256 + cell;
            let ghost before = found@;
            let ghost place_before = place;
            let biome = dense.get(slot, cell);
            let at = block_at(region, slot, cell);
            found.update(anchor, wanted, at, biome);
            proof {
                assert(n / 256 == slot && n % 256 == cell);
                assert(at == column_of(region, n));
                assert(dense@[n] == biome);
                if found@ != before {
                    place = place.insert(biome, n);
                }
                assert(place.dom() =~= found@.dom());
                assert forall|b: Biome| #[trigger]
                    found@.contains_key(b) <==> wanted@.contains(b) && exists|q: int|
                        0 <= q < n + 1 && #[trigger] dense@[q] == b by {
                    if before.contains_key(b) {
                        let q = choose|q: int| 0 <= q < n && #[trigger] dense@[q] == b;
                        assert(0 <= q < n + 1 && dense@[q] == b);
                    }
                    if wanted@.contains(b) && exists|q: int|
                        0 <= q < n + 1 && #[trigger] dense@[q] == b {
                        let q = choose|q: int| 0 <= q < n + 1 && #[trigger] dense@[q] == b;
                        if q < n {
                            assert(before.contains_key(b));
                        }
                    }
                }
                assert forall|b: Biome| #[trigger] found@.contains_key(b) implies is_closest_among(
                    anchor,
                    region,
                    dense@,
                    n + 1,
                    b,
                    place[b],
                ) && found@[b] == column_of(region, place[b]) by {
                    if before.contains_key(b) {
                        assert(is_closest_among(anchor, region, dense@, n, b, place_before[b]));
                    } else {
                        assert(b == biome);
                        assert forall|q: int| 0 <= q < n implies #[trigger] dense@[q] != b by {
                            if dense@[q] == b {
                                assert(wanted@.contains(b));
                            }
                        }
                    }
                }
            }
            cell += 1;
        }
        slot += 1;
    }
    proof {
        assert forall|b: Biome| #[trigger] found@.contains_key(b) implies exists|p: int| #[trigger]
            is_closest_among(anchor, region, dense@, COLUMNS as int, b, p) && found@[b]
                == column_of(region, p) by {
            assert(is_closest_among(anchor, region, dense@, COLUMNS as int, b, place[b]));
        }
    }
    found
}

/// Whether the block column at position `p` of the `i`-th of the dense grids
/// `denses` has the biome `biome`.
pub open spec fn occurs_at(denses: Seq<Seq<Biome>>, i: int, p: int, biome: Biome) -> bool {
    0 <= i < denses.len() && 0 <= p < COLUMNS && denses[i][p] == biome
}

/// What the scans of several regions find, combined, is the closest place of
/// each biome in all of the regions together: a biome that is looked for is
/// known exactly if it occurs in one of the regions, and then at a block
/// column that has the biome and is no farther from `anchor` than any other
/// block column of these regions that has it.
pub proof fn combined_scans_find_the_closest(
    anchor: Coord,
    wanted: Set<Biome>,
    regions: Seq<Coord>,
    denses: Seq<Seq<Biome>>,
    partials: Seq<Map<Biome, Coord>>,
    biome: Biome,
)
    requires
        regions.len() == denses.len(),
        partials.len() == denses.len(),
        forall|i: int|
            0 <= i < denses.len() ==> records_closest_among(
                anchor,
                regions[i],
                denses[i],
                COLUMNS as int,
                wanted,
                #[trigger] partials[i],
            ),
    ensures
        merged_all(anchor, partials).contains_key(biome) <==> wanted.contains(biome) && exists|
            i: int,
            p: int,
        | #[trigger] occurs_at(denses, i, p, biome),
        merged_all(anchor, partials).contains_key(biome) ==> {
            let place = merged_all(anchor, partials)[biome];
            &&& exists|i: int, p: int| #[trigger]
                occurs_at(denses, i, p, biome) && place == column_of(regions[i], p)
            &&& forall|j: int, q: int| #[trigger]
                occurs_at(denses, j, q, biome) ==> taxicab(anchor, place) <= taxicab(
                    anchor,
                    column_of(regions[j], q),
                )
        },
{
    let all = merged_all(anchor, partials);
    merged_all_takes_from_a_part(anchor, partials, biome);
    if all.contains_key(biome) {
        let i = choose|i: int|
            0 <= i < partials.len() && (#[trigger] partials[i]).contains_key(biome) && partials[i][biome]
                == all[biome];
        let p = choose|p: int| #[trigger]
            is_closest_among(anchor, regions[i], denses[i], COLUMNS as int, biome, p)
                && partials[i][biome] == column_of(regions[i], p);
        assert(occurs_at(denses, i, p, biome));
        assert forall|j: int, q: int| #[trigger] occurs_at(denses, j, q, biome) implies taxicab(
            anchor,
            all[biome],
        ) <= taxicab(anchor, column_of(regions[j], q)) by {
            merged_all_refines_each(anchor, partials, j);
            assert(partials[j].contains_key(biome)) by {
                assert(denses[j][q] == biome);
            }
            let r = choose|r: int| #[trigger]
                is_closest_among(anchor, regions[j], denses[j], COLUMNS as int, biome, r)
                    && partials[j][biome] == column_of(regions[j], r);
            assert(denses[j][q] == biome);
        }
    }
    if wanted.contains(biome) && exists|i: int, p: int| #[trigger] occurs_at(denses, i, p, biome) {
        let (i, p) = choose|i: int, p: int| #[trigger] occurs_at(denses, i, p, biome);
        assert(denses[i][p] == biome);
        assert(partials[i].contains_key(biome));
    }
}

} // verus!
