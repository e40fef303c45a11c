//! Coordinate arithmetic on the integer lattice: the taxicab metric, the
//! diamond-shaped ring around a centre, and the exact decomposition of a block
//! coordinate into region, chunk slot and cell.

use vstd::prelude::*;

verus! {

/// A point of the two-dimensional integer lattice.
#[derive(Clone, Copy, Debug, PartialEq, Eq, Hash, Structural)]
pub struct Coord {
    pub x: i32,
    pub z: i32,
}

/// The coordinate of one block column.
pub type BlockCoord = Coord;

/// The coordinate of one region, a square of 512 by 512 block columns.
pub type RegionCoord = Coord;

/// Chunks along one side of a region.
pub const REGION_SIDE: usize = 32;

/// Block columns along one side of a chunk.
pub const CHUNK_SIDE: usize = 16;

/// Chunk slots in a region.
pub const SLOTS: usize = 1024;

/// Block columns in a chunk.
pub const CELLS: usize = 256;

/// Smallest region coordinate whose block columns have `i32` coordinates.
pub const MIN_REGION: i32 = -4194304;

/// Largest region coordinate whose block columns have `i32` coordinates.
pub const MAX_REGION: i32 = 4194303;

/// How far two integers are apart.
pub open spec fn gap(a: int, b: int) -> int {
    if a >= b {
        a - b
    } else {
        b - a
    }
}

/// The taxicab distance: the sum of the absolute coordinate differences.
pub open spec fn taxicab(a: Coord, b: Coord) -> int {
    gap(a.x as int, b.x as int) + gap(a.z as int, b.z as int)
}

/// The taxicab distance between two coordinates. It fits 34 bits whatever
/// the coordinates.
pub fn taxicab_distance(a: Coord, b: Coord) -> (d: u64)
    ensures
        d == taxicab(a, b),
{
    let dx: i64 = a.x as i64 - b.x as i64;
    let dz: i64 = a.z as i64 - b.z as i64;
    let ax: i64 = if dx < 0 { -dx } else { dx };
    let az: i64 = if dz < 0 { -dz } else { dz };
    (ax + az) as u64
}

/// The taxicab distance does not depend on the order of its arguments.
pub proof fn taxicab_symmetric(a: Coord, b: Coord)
    ensures
        taxicab(a, b) == taxicab(b, a),
{
}

/// The taxicab distance is never negative, and it is zero exactly between a
/// coordinate and itself.
pub proof fn taxicab_zero_iff_equal(a: Coord, b: Coord)
    ensures
        taxicab(a, b) >= 0,
        taxicab(a, b) == 0 <==> a == b,
{
}

/// Going through a third coordinate is never shorter than going directly.
pub proof fn taxicab_triangle(a: Coord, b: Coord, c: Coord)
    ensures
        taxicab(a, c) <= taxicab(a, b) + taxicab(b, c),
{
}

/// Whether every lattice point at taxicab distance `distance` from `center`
/// has `i32` coordinates.
pub open spec fn ring_fits(center: Coord, distance: int) -> bool {
    &&& i32::MIN <= center.x - distance
    &&& center.x + distance <= i32::MAX
    &&& i32::MIN <= center.z - distance
    &&& center.z + distance <= i32::MAX
}

/// The `i`-th point of the ring of radius `d` around `center`. The ring is
/// walked edge by edge, `d` points each: from the point with the smallest `z`
/// towards larger `x`, then on to the largest `z`, the smallest `x`, and back.
pub open spec fn ring_point(center: Coord, d: int, i: int) -> (int, int) {
    if i < d {
        (center.x + i, center.z - d + i)
    } else if i < 2 * d {
        (center.x + d - (i - d), center.z + (i - d))
    } else if i < 3 * d {
        (center.x - (i - 2 * d), center.z + d - (i - 2 * d))
    } else {
        (center.x - d + (i - 3 * d), center.z - (i - 3 * d))
    }
}

/// The position at which a point at distance `d` from `center` stands on the
/// ring.
pub open spec fn ring_index(center: Coord, d: int, p: Coord) -> int {
    let dx = p.x - center.x;
    let dz = p.z - center.z;
    if dx >= 0 && dz < 0 {
        dx
    } else if dx > 0 && dz >= 0 {
        d + dz
    } else if dx <= 0 && dz > 0 {
        2 * d - dx
    } else {
        4 * d + dx
    }
}

/// Whether `ring` is the ring of radius `d` around `center`, in walking order.
pub open spec fn is_ring(ring: Seq<Coord>, center: Coord, d: int) -> bool {
    &&& ring.len() == 4 * d
    &&& forall|i: int|
        0 <= i < 4 * d ==> (#[trigger] ring[i]).x == ring_point(center, d, i).0 && ring[i].z
            == ring_point(center, d, i).1
}

/// Every point of a ring lies at the ring's radius from the centre.
pub proof fn ring_points_at_distance(ring: Seq<Coord>, center: Coord, d: int)
    requires
        d >= 1,
        is_ring(ring, center, d),
    ensures
        forall|i: int| 0 <= i < ring.len() ==> taxicab(center, #[trigger] ring[i]) == d,
{
}

/// No point stands on a ring twice.
pub proof fn ring_points_distinct(ring: Seq<Coord>, center: Coord, d: int)
    requires
        d >= 1,
        is_ring(ring, center, d),
    ensures
        ring.no_duplicates(),
{
}

/// A ring leaves out no point at its radius.
pub proof fn ring_has_no_gaps(ring: Seq<Coord>, center: Coord, d: int)
    requires
        d >= 1,
        is_ring(ring, center, d),
    ensures
        forall|p: Coord| taxicab(center, p) == d ==> ring.contains(p),
{
    assert forall|p: Coord| taxicab(center, p) == d implies ring.contains(p) by {
        let i = ring_index(center, d, p);
        assert(0 <= i < 4 * d);
        assert(ring[i] == p);
    }
}

/// All coordinates at taxicab distance `distance` from `center`.
pub fn coords_at_distance(center: Coord, distance: i32) -> (ring: Vec<Coord>)
    requires
        distance >= 1,
        ring_fits(center, distance as int),
    ensures
        is_ring(ring@, center, distance as int),
        ring@.len() == 4 * distance,
        forall|i: int| 0 <= i < ring@.len() ==> taxicab(center, #[trigger] ring@[i]) == distance,
        ring@.no_duplicates(),
        forall|p: Coord| taxicab(center, p) == distance ==> ring@.contains(p),
{
    let mut ring: Vec<Coord> = Vec::new();
    let mut k: i32 = 0;
    while k < distance
        invariant
            distance >= 1,
            ring_fits(center, distance as int),
            0 <= k <= distance,
            ring@.len() == k,
            forall|i: int|
                0 <= i < k ==> (#[trigger] ring@[i]).x == ring_point(center, distance as int, i).0
                    && ring@[i].z == ring_point(center, distance as int, i).1,
        decreases distance - k,
    {
        ring.push(Coord { x: center.x + k, z: center.z - distance + k });
        k = k + 1;
    }
    k = 0;
    while k < distance
        invariant
            distance >= 1,
            ring_fits(center, distance as int),
            0 <= k <= distance,
            ring@.len() == distance + k,
            forall|i: int|
                0 <= i < distance + k ==> (#[trigger] ring@[i]).x == ring_point(
                    center,
                    distance as int,
                    i,
                ).0 && ring@[i].z == ring_point(center, distance as int, i).1,
        decreases distance - k,
    {
        ring.push(Coord { x: center.x + distance - k, z: center.z + k });
        k = k + 1;
    }
    k = 0;
    while k < distance
        invariant
            distance >= 1,
            ring_fits(center, distance as int),
            0 <= k <= distance,
            ring@.len() == 2 * distance + k,
            forall|i: int|
                0 <= i < 2 * distance + k ==> (#[trigger] ring@[i]).x == ring_point(
                    center,
                    distance as int,
                    i,
                ).0 && ring@[i].z == ring_point(center, distance as int, i).1,
        decreases distance - k,
    {
        ring.push(Coord { x: center.x - k, z: center.z + distance - k });
        k = k + 1;
    }
    k = 0;
    while k < distance
        invariant
            distance >= 1,
            ring_fits(center, distance as int),
            0 <= k <= distance,
            ring@.len() == 3 * distance + k,
            forall|i: int|
                0 <= i < 3 * distance + k ==> (#[trigger] ring@[i]).x == ring_point(
                    center,
                    distance as int,
                    i,
                ).0 && ring@[i].z == ring_point(center, distance as int, i).1,
        decreases distance - k,
    {
        ring.push(Coord { x: center.x - distance + k, z: center.z - k });
        k = k + 1;
    }
    proof {
        ring_points_at_distance(ring@, center, distance as int);
        ring_points_distinct(ring@, center, distance as int);
        ring_has_no_gaps(ring@, center, distance as int);
    }
    ring
}

/// Whether the block columns of `region` have `i32` coordinates.
pub open spec fn in_world(region: Coord) -> bool {
    &&& MIN_REGION <= region.x <= MAX_REGION
    &&& MIN_REGION <= region.z <= MAX_REGION
}

pub fn region_in_world(region: Coord) -> (inside: bool)
    ensures
        inside == in_world(region),
{
    MIN_REGION <= region.x && region.x <= MAX_REGION && MIN_REGION <= region.z && region.z
        <= MAX_REGION
}

/// The region that holds a block column: each coordinate divided by 512,
/// rounded towards negative infinity.
pub open spec fn region_holding(block: Coord) -> Coord {
    Coord { x: (block.x as int / 512) as i32, z: (block.z as int / 512) as i32 }
}

/// The chunk slot of a block column within its region: its row of chunks
/// times 32, plus its column of chunks.
pub open spec fn slot_holding(block: Coord) -> int {
    ((block.z as int / 16) % 32) * 32 + (block.x as int / 16) % 32
}

/// The cell of a block column within its chunk: its row times 16, plus its
/// column.
pub open spec fn cell_holding(block: Coord) -> int {
    (block.z as int % 16) * 16 + block.x as int % 16
}

/// The block column at `cell` of chunk slot `slot` of `region`.
pub open spec fn column_at(region: Coord, slot: int, cell: int) -> Coord {
    Coord {
        x: (region.x * 512 + (slot % 32) * 16 + cell % 16) as i32,
        z: (region.z * 512 + (slot / 32) * 16 + cell / 16) as i32,
    }
}

/// The chunk slot of the chunk at chunk coordinates (`x_pos`, `z_pos`)
/// within its region.
pub open spec fn slot_of_chunk_at(x_pos: int, z_pos: int) -> int {
    (z_pos % 32) * 32 + x_pos % 32
}

proof fn shifts_are_divisions(v: i32)
    by (bit_vector)
    ensures
        v >> 9i32 == v / 512i32,
        v >> 4i32 == v / 16i32,
        v >> 5i32 == v / 32i32,
        v & 31i32 == v - 32 * (v >> 5i32),
        v & 15i32 == v - 16 * (v >> 4i32),
{
}

proof fn axis_roundtrip(region: int, chunk: int, offset: int)
    requires
        0 <= chunk < 32,
        0 <= offset < 16,
    ensures
        (region * 512 + chunk * 16 + offset) / 512 == region,
        ((region * 512 + chunk * 16 + offset) / 16) % 32 == chunk,
        (region * 512 + chunk * 16 + offset) % 16 == offset,
{
}

proof fn axis_split(v: int)
    ensures
        v == (v / 512) * 512 + ((v / 16) % 32) * 16 + v % 16,
        0 <= (v / 16) % 32 < 32,
        0 <= v % 16 < 16,
        i32::MIN <= v <= i32::MAX ==> MIN_REGION <= v / 512 <= MAX_REGION,
{
}

pub fn region_of(block: Coord) -> (region: Coord)
    ensures
        region == region_holding(block),
        in_world(region),
{
    proof {
        shifts_are_divisions(block.x);
        shifts_are_divisions(block.z);
    }
    Coord { x: block.x >> 9, z: block.z >> 9 }
}

pub fn slot_of(block: Coord) -> (slot: usize)
    ensures
        slot == slot_holding(block),
        slot < SLOTS,
{
    proof {
        shifts_are_divisions(block.x);
        shifts_are_divisions(block.z);
        shifts_are_divisions(block.x >> 4);
        shifts_are_divisions(block.z >> 4);
    }
    let row: i32 = (block.z >> 4) & 31;
    let col: i32 = (block.x >> 4) & 31;
    (row * 32 + col) as usize
}

pub fn cell_of(block: Coord) -> (cell: usize)
    ensures
        cell == cell_holding(block),
        cell < CELLS,
{
    proof {
        shifts_are_divisions(block.x);
        shifts_are_divisions(block.z);
    }
    let row: i32 = block.z & 15;
    let col: i32 = block.x & 15;
    (row * 16 + col) as usize
}

pub fn block_at(region: Coord, slot: usize, cell: usize) -> (block: Coord)
    requires
        in_world(region),
        slot < SLOTS,
        cell < CELLS,
    ensures
        block == column_at(region, slot as int, cell as int),
        region_holding(block) == region,
        slot_holding(block) == slot,
        cell_holding(block) == cell,
{
    let cx: i32 = (slot % 32) as i32;
    let cz: i32 = (slot / 32) as i32;
    let bx: i32 = (cell % 16) as i32;
    let bz: i32 = (cell / 16) as i32;
    proof {
        axis_roundtrip(region.x as int, cx as int, bx as int);
        axis_roundtrip(region.z as int, cz as int, bz as int);
    }
    Coord { x: region.x * 512 + cx * 16 + bx, z: region.z * 512 + cz * 16 + bz }
}

/// A block column is the column at its own cell of its own slot of its own
/// region.
pub proof fn column_roundtrip(block: Coord)
    ensures
        in_world(region_holding(block)),
        0 <= slot_holding(block) < SLOTS,
        0 <= cell_holding(block) < CELLS,
        column_at(region_holding(block), slot_holding(block), cell_holding(block)) == block,
{
    axis_split(block.x as int);
    axis_split(block.z as int);
    let cx = (block.x as int / 16) % 32;
    let cz = (block.z as int / 16) % 32;
    let bx = block.x as int % 16;
    let bz = block.z as int % 16;
    assert((cz * 32 + cx) % 32 == cx && (cz * 32 + cx) / 32 == cz);
    assert((bz * 16 + bx) % 16 == bx && (bz * 16 + bx) / 16 == bz);
}

/// Within a region in the world, the column at a cell of a slot lies in that
/// region, in that slot, at that cell.
pub proof fn column_placement(region: Coord, slot: int, cell: int)
    requires
        in_world(region),
        0 <= slot < SLOTS,
        0 <= cell < CELLS,
    ensures
        column_at(region, slot, cell).x == region.x * 512 + (slot % 32) * 16 + cell % 16,
        column_at(region, slot, cell).z == region.z * 512 + (slot / 32) * 16 + cell / 16,
        region_holding(column_at(region, slot, cell)) == region,
        slot_holding(column_at(region, slot, cell)) == slot,
        cell_holding(column_at(region, slot, cell)) == cell,
{
    axis_roundtrip(region.x as int, slot % 32, cell % 16);
    axis_roundtrip(region.z as int, slot / 32, cell / 16);
}

pub fn slot_of_chunk(x_pos: i32, z_pos: i32) -> (slot: usize)
    ensures
        slot == slot_of_chunk_at(x_pos as int, z_pos as int),
        slot < SLOTS,
{
    proof {
        shifts_are_divisions(x_pos);
        shifts_are_divisions(z_pos);
    }
    let row: i32 = z_pos & 31;
    let col: i32 = x_pos & 31;
    (row * 32 + col) as usize
}

} // verus!
