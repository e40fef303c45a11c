//! What is stored of a region: for each of its chunks the biomes of its block
//! columns, or nothing where the chunk has not been generated yet.

use crate::biome::Biome;
use crate::error::SearchError;
use crate::geometry::{slot_of_chunk, slot_of_chunk_at, Coord, CELLS, CHUNK_SIDE, REGION_SIDE, SLOTS};
use vstd::prelude::*;

verus! {

/// The biome identifier that marks stored biome data as invalid: the chunk
/// is to be generated anew.
pub const INVALID_BIOME_ID: i32 = -127;

/// The biomes of the block columns of one chunk, row by row.
#[derive(Clone, Copy, Debug, PartialEq, Eq)]
pub struct ChunkBiomeGrid {
    pub cells: [Biome; CELLS],
}

impl View for ChunkBiomeGrid {
    type V = Seq<Biome>;

    open spec fn view(&self) -> Seq<Biome> {
        self.cells@
    }
}

impl ChunkBiomeGrid {
    /// The chunk whose block columns all have the biome `biome`.
    pub fn filled(biome: Biome) -> (grid: ChunkBiomeGrid)
        ensures
            grid@.len() == CELLS,
            forall|i: int| 0 <= i < CELLS ==> grid@[i] == biome,
    {
        ChunkBiomeGrid { cells: [biome;CELLS] }
    }

    /// The biome of the block column in column `bx` of row `bz`.
    pub fn get(&self, bx: usize, bz: usize) -> (biome: Biome)
        requires
            bx < CHUNK_SIDE,
            bz < CHUNK_SIDE,
        ensures
            biome == self@[bz * 16 + bx],
    {
        self.cells[bz * 16 + bx]
    }

    pub fn set(&mut self, bx: usize, bz: usize, biome: Biome)
        requires
            bx < CHUNK_SIDE,
            bz < CHUNK_SIDE,
        ensures
            final(self)@ == old(self)@.update(bz * 16 + bx, biome),
    {
        self.cells[bz * 16 + bx] = biome;
    }
}

/// What stands in place of the biomes of a stored chunk column.
#[derive(Clone, Copy, Debug)]
pub enum BiomeData {
    /// The biomes of the chunk's block columns.
    Grid(ChunkBiomeGrid),
    /// A biome identifier that names no biome.
    UnknownId(i32),
    /// Biomes have not been generated for this chunk yet.
    NotGenerated,
}

/// One chunk column as read from a stored region.
#[derive(Clone, Copy, Debug)]
pub enum ChunkRead {
    /// The column could not be decoded.
    Corrupt,
    /// The column at chunk coordinates (`x_pos`, `z_pos`).
    Column { x_pos: i32, z_pos: i32, biomes: BiomeData },
}

/// The outcome of reading the stored form of a region.
#[derive(Debug)]
pub enum RegionRead {
    /// Nothing is stored: the whole region is unexplored.
    Missing,
    /// Something is stored that could not be read.
    Unreadable,
    /// The chunk columns, in the order in which they are stored.
    Chunks(Vec<ChunkRead>),
}

/// For each chunk slot of a region the biomes of the chunk, or nothing where
/// they have to be predicted.
#[derive(Debug)]
pub struct RegionGrid {
    chunks: Vec<Option<ChunkBiomeGrid>>,
}

impl View for RegionGrid {
    type V = Seq<Option<Seq<Biome>>>;

    closed spec fn view(&self) -> Seq<Option<Seq<Biome>>> {
        Seq::new(
            SLOTS as nat,
            |i: int|
                match self.chunks@[i] {
                    Some(grid) => Some(grid@),
                    None => None,
                },
        )
    }
}

impl RegionGrid {
    #[verifier::type_invariant]
    spec fn well_formed(self) -> bool {
        self.chunks@.len() == SLOTS
    }

    /// A region grid has one entry for each chunk slot, and each entry that
    /// holds biomes holds one for each block column of the chunk.
    pub proof fn shape(self)
        ensures
            self@.len() == SLOTS,
            forall|i: int| 0 <= i < SLOTS && self@[i] is Some ==> (#[trigger] self@[i])->0.len() == CELLS,
    {
    }

    /// The grid of a region of which nothing is stored.
    pub fn unexplored() -> (grid: RegionGrid)
        ensures
            grid@.len() == SLOTS,
            forall|i: int| 0 <= i < SLOTS ==> grid@[i] is None,
    {
        let mut chunks: Vec<Option<ChunkBiomeGrid>> = Vec::new();
        let mut i: usize = 0;
        while i < SLOTS
            invariant
                i <= SLOTS,
                chunks@.len() == i,
                forall|j: int| 0 <= j < i ==> chunks@[j] is None,
            decreases SLOTS - i,
        {
            chunks.push(None);
            i += 1;
        }
        RegionGrid { chunks }
    }

    /// This grid with the biomes of the chunk in column `cx` of row `cz` of
    /// the region set to `chunk`.
    pub fn with_chunk(self, cx: usize, cz: usize, chunk: ChunkBiomeGrid) -> (grid: RegionGrid)
        requires
            cx < REGION_SIDE,
            cz < REGION_SIDE,
        ensures
            grid@ == self@.update(cz * 32 + cx, Some(chunk@)),
    {
        self.with_slot(cz * 32 + cx, chunk)
    }

    /// This grid with the biomes of the chunk in slot `slot` set to `chunk`.
    pub fn with_slot(self, slot: usize, chunk: ChunkBiomeGrid) -> (grid: RegionGrid)
        requires
            slot < SLOTS,
        ensures
            grid@ == self@.update(slot as int, Some(chunk@)),
    {
        proof {
            use_type_invariant(&self);
        }
        let ghost before = self@;
        let mut chunks = self.chunks;
        chunks.set(slot, Some(chunk));
        let grid = RegionGrid { chunks };
        assert(grid@ =~= before.update(slot as int, Some(chunk@)));
        grid
    }

    /// The biomes of the chunk in column `cx` of row `cz` of the region.
    pub fn chunk(&self, cx: usize, cz: usize) -> (chunk: Option<ChunkBiomeGrid>)
        requires
            cx < REGION_SIDE,
            cz < REGION_SIDE,
        ensures
            chunk is Some <==> self@[cz * 32 + cx] is Some,
            chunk is Some ==> self@[cz * 32 + cx] == Some(chunk->0@),
    {
        self.slot(cz * 32 + cx)
    }

    /// The biomes of the chunk in slot `slot`.
    pub fn slot(&self, slot: usize) -> (chunk: Option<ChunkBiomeGrid>)
        requires
            slot < SLOTS,
        ensures
            self@.len() == SLOTS,
            chunk is Some <==> self@[slot as int] is Some,
            chunk is Some ==> self@[slot as int] == Some(chunk->0@),
    {
        proof {
            use_type_invariant(self);
        }
        self.chunks[slot]
    }
}

/// The failure with which a chunk column ends the reading of `region`, if it
/// does: a column that cannot be decoded, or a biome identifier that names no
/// biome and is not the mark of invalid data.
pub open spec fn fatal_of(region: Coord, read: ChunkRead) -> Option<SearchError> {
    match read {
        ChunkRead::Corrupt => Some(SearchError::CorruptChunk { region }),
        ChunkRead::Column { x_pos, z_pos, biomes: BiomeData::UnknownId(id) } => if id
            == INVALID_BIOME_ID {
            None
        } else {
            Some(SearchError::UnknownBiomeId { id, chunk_x: x_pos, chunk_z: z_pos })
        },
        _ => None,
    }
}

/// Whether a chunk column brings the biomes of chunk slot `slot`.
pub open spec fn fills(read: ChunkRead, slot: int) -> bool {
    match read {
        ChunkRead::Column { x_pos, z_pos, biomes: BiomeData::Grid(_) } => slot_of_chunk_at(
            x_pos as int,
            z_pos as int,
        ) == slot,
        _ => false,
    }
}

/// The biomes that a chunk column brings.
pub open spec fn biomes_of(read: ChunkRead) -> Seq<Biome> {
    match read {
        ChunkRead::Column { biomes: BiomeData::Grid(grid), .. } => grid@,
        _ => Seq::empty(),
    }
}

/// What the chunk columns `reads` leave in chunk slot `slot`: the biomes of
/// the last column that fills the slot, and nothing if none does.
pub open spec fn loaded(reads: Seq<ChunkRead>, slot: int) -> Option<Seq<Biome>>
    decreases reads.len(),
{
    if reads.len() == 0 {
        None
    } else if fills(reads.last(), slot) {
        Some(biomes_of(reads.last()))
    } else {
        loaded(reads.drop_last(), slot)
    }
}

/// Whether the chunk column at position `i` of `reads` is the first that is
/// fatal.
pub open spec fn first_fatal_at(region: Coord, reads: Seq<ChunkRead>, i: int) -> bool {
    &&& 0 <= i < reads.len()
    &&& fatal_of(region, reads[i]) is Some
    &&& forall|j: int| 0 <= j < i ==> fatal_of(region, #[trigger] reads[j]) is None
}

/// Whether `grid` is what reading the chunk columns `reads` of `region`
/// comes to: the failure of the first fatal column, or else a grid that
/// holds in each slot what the columns leave there.
pub open spec fn is_outcome_of(
    region: Coord,
    reads: Seq<ChunkRead>,
    grid: Result<RegionGrid, SearchError>,
) -> bool {
    match grid {
        Ok(g) => {
            &&& forall|i: int| 0 <= i < reads.len() ==> fatal_of(region, #[trigger] reads[i]) is None
            &&& g@.len() == SLOTS
            &&& forall|s: int| 0 <= s < SLOTS ==> #[trigger] g@[s] == loaded(reads, s)
        },
        Err(e) => exists|i: int|
            first_fatal_at(region, reads, i) && fatal_of(region, reads[i]) == Some(e),
    }
}

/// The grid of `region`, from the chunk columns read of its stored form.
///
/// A column without biomes, or with the mark of invalid data, leaves its slot
/// as it is. The first fatal column ends the reading.
pub fn grid_of_chunks(region: Coord, reads: &Vec<ChunkRead>) -> (grid: Result<
    RegionGrid,
    SearchError,
>)
    ensures
        is_outcome_of(region, reads@, grid),
{
    let mut grid = RegionGrid::unexplored();
    let mut i: usize = 0;
    while i < reads.len()
        invariant
            i <= reads@.len(),
            grid@.len() == SLOTS,
            forall|j: int| 0 <= j < i ==> fatal_of(region, #[trigger] reads@[j]) is None,
            forall|s: int|
                0 <= s < SLOTS ==> #[trigger] grid@[s] == loaded(reads@.subrange(0, i as int), s),
        decreases reads@.len() - i,
    {
        let ghost before = reads@.subrange(0, i as int);
        let ghost after = reads@.subrange(0, i + 1);
        proof {
            assert(after.drop_last() =~= before);
            assert(after.last() == reads@[i as int]);
        }
        match reads[i] {
            ChunkRead::Corrupt => {
                proof {
                    assert(first_fatal_at(region, reads@, i as int));
                }
                return Err(SearchError::CorruptChunk { region });
            },
            ChunkRead::Column { x_pos, z_pos, biomes } => {
                match biomes {
                    BiomeData::Grid(chunk) => {
                        let slot = slot_of_chunk(x_pos, z_pos);
                        grid = grid.with_slot(slot, chunk);
                    },
                    BiomeData::UnknownId(id) => {
                        if id != INVALID_BIOME_ID {
                            proof {
                                assert(first_fatal_at(region, reads@, i as int));
                            }
                            return Err(
                                SearchError::UnknownBiomeId { id, chunk_x: x_pos, chunk_z: z_pos },
                            );
                        }
                    },
                    BiomeData::NotGenerated => {},
                }
            },
        }
        i += 1;
    }
    proof {
        assert(reads@.subrange(0, i as int) =~= reads@);
    }
    Ok(grid)
}

/// The grid of `region`, from what was read of its stored form.
///
/// A region of which nothing is stored is unexplored, which is no failure.
pub fn region_biomes(region: Coord, read: &RegionRead) -> (grid: Result<RegionGrid, SearchError>)
    ensures
        match *read {
            RegionRead::Missing => grid is Ok && grid->Ok_0@.len() == SLOTS && forall|s: int|
                0 <= s < SLOTS ==> (#[trigger] grid->Ok_0@[s]) is None,
            RegionRead::Unreadable => grid == Err::<RegionGrid, SearchError>(
                SearchError::RegionUnreadable { region },
            ),
            RegionRead::Chunks(reads) => is_outcome_of(region, reads@, grid),
        },
{
    match read {
        RegionRead::Missing => Ok(RegionGrid::unexplored()),
        RegionRead::Unreadable => Err(SearchError::RegionUnreadable { region }),
        RegionRead::Chunks(reads) => grid_of_chunks(region, reads),
    }
}

} // verus!
