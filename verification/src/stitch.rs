//! Filling the gaps of a region grid with predictions: which block columns
//! to ask a prediction for, and the dense grid that the answers complete.

use crate::biome::Biome;
use crate::error::SearchError;
use crate::geometry::{
    block_at,
    cell_holding,
    column_at,
    column_placement,
    in_world,
    region_holding,
    slot_holding,
    Coord,
    CELLS,
    CHUNK_SIDE,
    REGION_SIDE,
    SLOTS,
};
use crate::region::RegionGrid;
use vstd::prelude::*;

verus! {

/// Block columns in a region.
pub const COLUMNS: usize = 262144;

/// How many of the chunk slots before `slot` hold nothing.
pub open spec fn absent_before(grid: Seq<Option<Seq<Biome>>>, slot: int) -> int
    decreases slot,
{
    if slot <= 0 {
        0
    } else {
        absent_before(grid, slot - 1) + if grid[slot - 1] is None {
            1int
        } else {
            0int
        }
    }
}

/// How many predictions a grid needs: one for each block column of each chunk
/// slot that holds nothing.
pub open spec fn predictions_needed(grid: Seq<Option<Seq<Biome>>>) -> int {
    CELLS * absent_before(grid, SLOTS as int)
}

/// The position, among the predictions for a grid, of the one for the block
/// column at `cell` of the empty chunk slot `slot`.
pub open spec fn prediction_index(grid: Seq<Option<Seq<Biome>>>, slot: int, cell: int) -> int {
    CELLS * absent_before(grid, slot) + cell
}

/// The number of empty slots before a slot grows with the slot, and by at
/// least one over an empty slot.
pub proof fn absent_before_grows(grid: Seq<Option<Seq<Biome>>>, a: int, b: int)
    requires
        0 <= a <= b,
    ensures
        0 <= absent_before(grid, a) <= absent_before(grid, b),
        absent_before(grid, b) <= absent_before(grid, a) + (b - a),
        a < b && grid[a] is None ==> absent_before(grid, a) < absent_before(grid, b),
    decreases b - a,
{
    if a < b {
        absent_before_grows(grid, a, b - 1);
    } else {
        absent_before_count(grid, a);
    }
}

proof fn absent_before_count(grid: Seq<Option<Seq<Biome>>>, a: int)
    requires
        0 <= a,
    ensures
        0 <= absent_before(grid, a) <= a,
    decreases a,
{
    if a > 0 {
        absent_before_count(grid, a - 1);
    }
}

/// The biome of every block column of a region, chunk slot by chunk slot.
#[derive(Debug)]
pub struct DenseGrid {
    cells: Vec<Biome>,
}

impl View for DenseGrid {
    type V = Seq<Biome>;

    closed spec fn view(&self) -> Seq<Biome> {
        self.cells@
    }
}

impl DenseGrid {
    #[verifier::type_invariant]
    spec fn well_formed(self) -> bool {
        self.cells@.len() == COLUMNS
    }

    /// The region whose block columns all have the biome `biome`.
    pub fn filled(biome: Biome) -> (dense: DenseGrid)
        ensures
            dense@.len() == COLUMNS,
            forall|i: int| 0 <= i < COLUMNS ==> dense@[i] == biome,
    {
        let mut cells: Vec<Biome> = Vec::new();
        let mut i: usize = 0;
        while i < COLUMNS
            invariant
                i <= COLUMNS,
                cells@.len() == i,
                forall|j: int| 0 <= j < i ==> cells@[j] == biome,
            decreases COLUMNS - i,
        {
            cells.push(biome);
            i += 1;
        }
        DenseGrid { cells }
    }

    /// This grid with the biome of the block column at `cell` of chunk slot
    /// `slot` set to `biome`.
    pub fn with_biome(self, slot: usize, cell: usize, biome: Biome) -> (dense: DenseGrid)
        requires
            slot < SLOTS,
            cell < CELLS,
        ensures
            dense@ == self@.update(slot * 256 + cell, biome),
    {
        proof {
            use_type_invariant(&self);
        }
        let mut cells = self.cells;
        cells.set(slot * 256 + cell, biome);
        DenseGrid { cells }
    }

    /// The biome of the block column at `cell` of chunk slot `slot`.
    pub fn get(&self, slot: usize, cell: usize) -> (biome: Biome)
        requires
            slot < SLOTS,
            cell < CELLS,
        ensures
            self@.len() == COLUMNS,
            biome == self@[slot * 256 + cell],
    {
        proof {
            use_type_invariant(self);
        }
        self.cells[slot * 256 + cell]
    }

    /// The biome of the block column in column `bx` of row `bz` of the chunk
    /// in column `cx` of row `cz` of the region.
    pub fn biome_at(&self, cx: usize, cz: usize, bx: usize, bz: usize) -> (biome: Biome)
        requires
            cx < REGION_SIDE,
            cz < REGION_SIDE,
            bx < CHUNK_SIDE,
            bz < CHUNK_SIDE,
        ensures
            biome == self@[(cz * 32 + cx) * 256 + bz * 16 + bx],
    {
        self.get(cz * 32 + cx, bz * 16 + bx)
    }
}

/// Whether `requests` are the block columns of `region` for which `grid`
/// needs a prediction: those of the empty chunk slots, slot by slot and
/// within a slot cell by cell.
pub open spec fn are_requests_for(
    requests: Seq<Coord>,
    region: Coord,
    grid: Seq<Option<Seq<Biome>>>,
) -> bool {
    &&& requests.len() == predictions_needed(grid)
    &&& forall|slot: int, cell: int|
        0 <= slot < SLOTS && grid[slot] is None && 0 <= cell < CELLS ==> 0
            <= #[trigger] prediction_index(grid, slot, cell) < requests.len()
            && requests[prediction_index(grid, slot, cell)] == column_at(region, slot, cell)
}

/// Whether the block column `column` is one that `grid`, the grid of
/// `region`, holds no biome for.
pub open spec fn needs_prediction(
    region: Coord,
    grid: Seq<Option<Seq<Biome>>>,
    column: Coord,
) -> bool {
    region_holding(column) == region && grid[slot_holding(column)] is None
}

/// The block columns of `region` to ask a prediction for, in the order in
/// which `biomes_for_region` takes the answers.
///
/// No column of a chunk that `grid` holds biomes for is among them, and each
/// column of a chunk that it holds none for is among them exactly once.
pub fn oracle_requests(region: Coord, grid: &RegionGrid) -> (requests: Vec<Coord>)
    requires
        in_world(region),
    ensures
        are_requests_for(requests@, region, grid@),
        forall|k: int|
            0 <= k < requests@.len() ==> needs_prediction(region, grid@, #[trigger] requests@[k]),
        forall|column: Coord|
            needs_prediction(region, grid@, column) ==> requests@.contains(column),
        requests@.no_duplicates(),
{
    let mut requests: Vec<Coord> = Vec::new();
    let mut slot: usize = 0;
    proof {
        grid.shape();
    }
    while slot < SLOTS
        invariant
            in_world(region),
            slot <= SLOTS,
            grid@.len() == SLOTS,
            requests@.len() == CELLS * absent_before(grid@, slot as int),
            forall|s: int, c: int|
                0 <= s < slot && grid@[s] is None && 0 <= c < CELLS ==> 0
                    <= #[trigger] prediction_index(grid@, s, c) < requests@.len()
                    && requests@[prediction_index(grid@, s, c)] == column_at(region, s, c),
            forall|k: int|
                0 <= k < requests@.len() ==> {
                    let column = #[trigger] requests@[k];
                    &&& needs_prediction(region, grid@, column)
                    &&& slot_holding(column) < slot
                    &&& k == prediction_index(grid@, slot_holding(column), cell_holding(column))
                },
        decreases SLOTS - slot,
    {
        let held = grid.slot(slot);
        if held.is_none() {
            let ghost base = requests@.len() as int;
            let ghost earlier = requests@;
            let mut cell: usize = 0;
            while cell < CELLS
                invariant
                    in_world(region),
                    slot < SLOTS,
                    cell <= CELLS,
                    grid@.len() == SLOTS,
                    grid@[slot as int] is None,
                    base == CELLS * absent_before(grid@, slot as int),
                    earlier.len() == base,
                    requests@.len() == base + cell,
                    forall|k: int| 0 <= k < base ==> requests@[k] == earlier[k],
                    forall|c: int|
                        0 <= c < cell ==> #[trigger] requests@[base + c] == column_at(
                            region,
                            slot as int,
                            c,
                        ),
                decreases CELLS - cell,
            {
                requests.push(block_at(region, slot, cell));
                cell += 1;
            }
            proof {
                assert(absent_before(grid@, slot + 1) == absent_before(grid@, slot as int) + 1);
                assert forall|s: int, c: int|
                    0 <= s < slot + 1 && grid@[s] is None && 0 <= c < CELLS implies 0
                    <= #[trigger] prediction_index(grid@, s, c) < requests@.len()
                    && requests@[prediction_index(grid@, s, c)] == column_at(region, s, c) by {
                    absent_before_grows(grid@, s, slot as int);
                    if s < slot {
                        assert(earlier[prediction_index(grid@, s, c)] == column_at(region, s, c));
                    } else {
                        assert(requests@[base + c] == column_at(region, slot as int, c));
                    }
                }
                assert forall|k: int| 0 <= k < requests@.len() implies {
                    let column = #[trigger] requests@[k];
                    &&& needs_prediction(region, grid@, column)
                    &&& slot_holding(column) < slot + 1
                    &&& k == prediction_index(grid@, slot_holding(column), cell_holding(column))
                } by {
                    if k < base {
                        assert(requests@[k] == earlier[k]);
                    } else {
                        assert(requests@[base + (k - base)] == column_at(
                            region,
                            slot as int,
                            k - base,
                        ));
                        column_placement(region, slot as int, k - base);
                    }
                }
            }
        } else {
            proof {
                assert(absent_before(grid@, slot + 1) == absent_before(grid@, slot as int));
            }
        }
        slot += 1;
    }
    proof {
        assert forall|column: Coord| needs_prediction(region, grid@, column) implies requests@.contains(
            column,
        ) by {
            crate::geometry::column_roundtrip(column);
            let s = slot_holding(column);
            let c = cell_holding(column);
            assert(requests@[prediction_index(grid@, s, c)] == column_at(region, s, c));
        }
        assert forall|i: int, j: int|
            0 <= i < requests@.len() && 0 <= j < requests@.len() && i != j implies requests@[i]
            != requests@[j] by {
            let a = requests@[i];
            let b = requests@[j];
            assert(i == prediction_index(grid@, slot_holding(a), cell_holding(a)));
            assert(j == prediction_index(grid@, slot_holding(b), cell_holding(b)));
        }
    }
    requests
}

/// Whether `dense` is `grid` with its gaps filled from `predicted`: a block
/// column of a chunk that `grid` holds biomes for has the biome held, and any
/// other has the prediction at its position among the predictions.
pub open spec fn is_stitched_from(
    dense: Seq<Biome>,
    grid: Seq<Option<Seq<Biome>>>,
    predicted: Seq<Biome>,
) -> bool {
    &&& dense.len() == COLUMNS
    &&& forall|slot: int, cell: int|
        0 <= slot < SLOTS && 0 <= cell < CELLS ==> #[trigger] dense[slot * 256 + cell] == match grid[slot] {
            Some(held) => held[cell],
            None => predicted[prediction_index(grid, slot, cell)],
        }
}

/// The biome of every block column of a region: that of `grid` where it
/// holds one, and else the prediction. `predicted` holds the predictions for
/// the block columns that `oracle_requests` lists, in the same order.
///
/// Gives nothing if `predicted` does not hold exactly one prediction for
/// each of those block columns.
pub fn biomes_for_region(grid: &RegionGrid, predicted: &Vec<Biome>) -> (dense: Option<DenseGrid>)
    ensures
        dense is Some <==> predicted@.len() == predictions_needed(grid@),
        dense is Some ==> is_stitched_from(dense->0@, grid@, predicted@),
{
    let mut cells: Vec<Biome> = Vec::new();
    let mut used: usize = 0;
    let mut slot: usize = 0;
    proof {
        grid.shape();
    }
    while slot < SLOTS
        invariant
            slot <= SLOTS,
            grid@.len() == SLOTS,
            forall|i: int| 0 <= i < SLOTS && grid@[i] is Some ==> (#[trigger] grid@[i])->0.len() == CELLS,
            used == CELLS * absent_before(grid@, slot as int),
            used <= predicted@.len(),
            cells@.len() == slot * 256,
            forall|s: int, c: int|
                0 <= s < slot && 0 <= c < CELLS ==> #[trigger] cells@[s * 256 + c] == match grid@[s] {
                    Some(held) => held[c],
                    None => predicted@[prediction_index(grid@, s, c)],
                },
        decreases SLOTS - slot,
    {
        let ghost earlier = cells@;
        match grid.slot(slot) {
            Some(chunk) => {
                let mut cell: usize = 0;
                while cell < CELLS
                    invariant
                        slot < SLOTS,
                        cell <= CELLS,
                        earlier.len() == slot * 256,
                        cells@.len() == slot * 256 + cell,
                        forall|k: int| 0 <= k < earlier.len() ==> cells@[k] == earlier[k],
                        forall|c: int| 0 <= c < cell ==> #[trigger] cells@[slot * 256 + c] == chunk@[c],
                    decreases CELLS - cell,
                {
                    cells.push(chunk.cells[cell]);
                    cell += 1;
                }
                proof {
                    assert(absent_before(grid@, slot + 1) == absent_before(grid@, slot as int));
                }
            },
            None => {
                if predicted.len() - used < CELLS {
                    proof {
                        absent_before_grows(grid@, slot as int, SLOTS as int);
                    }
                    return None;
                }
                let mut cell: usize = 0;
                while cell < CELLS
                    invariant
                        slot < SLOTS,
                        cell <= CELLS,
                        used + CELLS <= predicted@.len() <= usize::MAX,
                        earlier.len() == slot * 256,
                        cells@.len() == slot * 256 + cell,
                        forall|k: int| 0 <= k < earlier.len() ==> cells@[k] == earlier[k],
                        forall|c: int|
                            0 <= c < cell ==> #[trigger] cells@[slot * 256 + c] == predicted@[used
                                + c],
                    decreases CELLS - cell,
                {
                    cells.push(predicted[used + cell]);
                    cell += 1;
                }
                used += CELLS;
                proof {
                    assert(absent_before(grid@, slot + 1) == absent_before(grid@, slot as int) + 1);
                }
            },
        }
        proof {
            assert forall|s: int, c: int| 0 <= s < slot + 1 && 0 <= c < CELLS implies #[trigger] cells@[s
                * 256 + c] == match grid@[s] {
                Some(held) => held[c],
                None => predicted@[prediction_index(grid@, s, c)],
            } by {
                if s < slot {
                    assert(cells@[s * 256 + c] == earlier[s * 256 + c]);
                }
            }
        }
        slot += 1;
    }
    if used != predicted.len() {
        return None;
    }
    Some(DenseGrid { cells })
}

/// Requests and predictions fit together: where each prediction is what
/// `oracle` gives for the block column at the same position among the
/// requests, the stitched grid has, for every block column of a chunk
/// without stored biomes, what `oracle` gives for that very block column.
pub proof fn stitched_gaps_hold_their_predictions(
    region: Coord,
    grid: Seq<Option<Seq<Biome>>>,
    requests: Seq<Coord>,
    predicted: Seq<Biome>,
    dense: Seq<Biome>,
    oracle: spec_fn(Coord) -> Biome,
)
    requires
        are_requests_for(requests, region, grid),
        predicted.len() == requests.len(),
        forall|i: int| 0 <= i < requests.len() ==> #[trigger] predicted[i] == oracle(requests[i]),
        is_stitched_from(dense, grid, predicted),
    ensures
        forall|slot: int, cell: int|
            0 <= slot < SLOTS && 0 <= cell < CELLS ==> #[trigger] dense[slot * 256 + cell] == match grid[slot] {
                Some(held) => held[cell],
                None => oracle(column_at(region, slot, cell)),
            },
{
    assert forall|slot: int, cell: int| 0 <= slot < SLOTS && 0 <= cell < CELLS implies #[trigger] dense[slot
        * 256 + cell] == match grid[slot] {
        Some(held) => held[cell],
        None => oracle(column_at(region, slot, cell)),
    } by {
        if grid[slot] is None {
            let i = prediction_index(grid, slot, cell);
            assert(requests[i] == column_at(region, slot, cell));
            assert(predicted[i] == oracle(requests[i]));
        }
    }
}

/// The biome that a prediction for the block column `at` answered with.
/// `answer` is the name that the prediction gave, or nothing if it failed.
///
/// A failed prediction is a failure of the search, and so is a name that
/// names no biome.
pub fn predicted_biome(at: Coord, answer: Option<&str>) -> (biome: Result<Biome, SearchError>)
    ensures
        forall|b: Biome|
            biome == Ok::<Biome, SearchError>(b) <==> answer is Some && b.name_spec() == answer->0@,
        biome is Err ==> biome->Err_0 == if answer is None {
            SearchError::PredictionFailed { at }
        } else {
            SearchError::UnknownBiomeName { at }
        },
{
    match answer {
        None => Err(SearchError::PredictionFailed { at }),
        Some(name) => match Biome::from_name(name) {
            Some(b) => Ok(b),
            None => Err(SearchError::UnknownBiomeName { at }),
        },
    }
}

} // verus!
