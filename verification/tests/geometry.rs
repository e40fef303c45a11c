use nearest_biome::geometry::{
    block_at, cell_of, coords_at_distance, region_in_world, region_of, slot_of, slot_of_chunk,
    taxicab_distance, Coord, CELLS, CHUNK_SIDE, MAX_REGION, MIN_REGION, REGION_SIDE, SLOTS,
};

fn at(x: i32, z: i32) -> Coord {
    Coord { x, z }
}

#[test]
fn taxicab_distance_adds_the_two_gaps() {
    assert_eq!(taxicab_distance(at(0, 0), at(3, -4)), 7);
    assert_eq!(taxicab_distance(at(-5, 2), at(5, 2)), 10);
    assert_eq!(taxicab_distance(at(3386, 3096), at(3386, 3096)), 0);
    assert_eq!(taxicab_distance(at(4, -89), at(5, 10)), 100);
}

#[test]
fn taxicab_distance_spans_the_whole_lattice() {
    let low = at(i32::MIN, i32::MIN);
    let high = at(i32::MAX, i32::MAX);
    assert_eq!(taxicab_distance(low, high), 8_589_934_590);
    assert_eq!(taxicab_distance(high, low), 8_589_934_590);
    assert_eq!(taxicab_distance(at(i32::MIN, 0), at(i32::MAX, 0)), 4_294_967_295);
}

#[test]
fn taxicab_distance_is_symmetric() {
    let points = [at(0, 0), at(7, -3), at(-100, 250), at(i32::MAX, i32::MIN)];
    for a in points {
        for b in points {
            assert_eq!(taxicab_distance(a, b), taxicab_distance(b, a));
        }
    }
}

#[test]
fn taxicab_distance_is_zero_only_between_equal_points() {
    let points = [at(0, 0), at(0, 1), at(1, 0), at(-1, -1), at(512, 512)];
    for a in points {
        for b in points {
            assert_eq!(taxicab_distance(a, b) == 0, a == b);
        }
    }
}

#[test]
fn taxicab_distance_obeys_the_triangle_inequality() {
    let points = [at(0, 0), at(9, -2), at(-40, 17), at(3, 3), at(i32::MIN, i32::MAX)];
    for a in points {
        for b in points {
            for c in points {
                assert!(taxicab_distance(a, c) <= taxicab_distance(a, b) + taxicab_distance(b, c));
            }
        }
    }
}

#[test]
fn ring_of_radius_one_is_the_four_neighbours() {
    assert_eq!(coords_at_distance(at(0, 0), 1), vec![at(0, -1), at(1, 0), at(0, 1), at(-1, 0)]);
}

#[test]
fn ring_of_radius_two_walks_the_four_edges() {
    assert_eq!(
        coords_at_distance(at(10, -20), 2),
        vec![
            at(10, -22),
            at(11, -21),
            at(12, -20),
            at(11, -19),
            at(10, -18),
            at(9, -19),
            at(8, -20),
            at(9, -21),
        ]
    );
}

#[test]
fn ring_has_four_points_per_unit_of_radius_all_distinct_and_at_the_radius() {
    let center = at(-7, 13);
    for d in 1..40 {
        let ring = coords_at_distance(center, d);
        assert_eq!(ring.len(), 4 * d as usize);
        for (i, p) in ring.iter().enumerate() {
            assert_eq!(taxicab_distance(center, *p), d as u64);
            for q in &ring[i + 1..] {
                assert_ne!(p, q);
            }
        }
    }
}

#[test]
fn ring_leaves_out_no_point_at_its_radius() {
    let center = at(2, -3);
    let d = 6;
    let ring = coords_at_distance(center, d);
    for dx in -8..=8 {
        for dz in -8..=8 {
            let p = at(center.x + dx, center.z + dz);
            assert_eq!(ring.contains(&p), taxicab_distance(center, p) == d as u64);
        }
    }
}

#[test]
fn ring_reaches_the_edge_of_the_lattice() {
    let ring = coords_at_distance(at(i32::MAX - 1, i32::MIN + 1), 1);
    assert_eq!(
        ring,
        vec![
            at(i32::MAX - 1, i32::MIN),
            at(i32::MAX, i32::MIN + 1),
            at(i32::MAX - 1, i32::MIN + 2),
            at(i32::MAX - 2, i32::MIN + 1),
        ]
    );
}

#[test]
fn region_of_rounds_towards_negative_infinity() {
    assert_eq!(region_of(at(0, 0)), at(0, 0));
    assert_eq!(region_of(at(511, 512)), at(0, 1));
    assert_eq!(region_of(at(-1, -512)), at(-1, -1));
    assert_eq!(region_of(at(-513, 1023)), at(-2, 1));
    assert_eq!(region_of(at(3386, 3096)), at(6, 6));
    assert_eq!(region_of(at(i32::MIN, i32::MAX)), at(MIN_REGION, MAX_REGION));
}

#[test]
fn slot_and_cell_of_a_block_column() {
    assert_eq!(slot_of(at(0, 0)), 0);
    assert_eq!(cell_of(at(0, 0)), 0);
    assert_eq!(slot_of(at(16, 0)), 1);
    assert_eq!(slot_of(at(0, 16)), 32);
    assert_eq!(cell_of(at(1, 0)), 1);
    assert_eq!(cell_of(at(0, 1)), 16);
    assert_eq!(slot_of(at(511, 511)), 1023);
    assert_eq!(cell_of(at(511, 511)), 255);
    assert_eq!(slot_of(at(-1, -1)), 1023);
    assert_eq!(cell_of(at(-1, -1)), 255);
    assert_eq!(slot_of(at(-512, -17)), 30 * 32);
    assert_eq!(cell_of(at(-512, -17)), 15 * 16);
    assert_eq!(slot_of(at(3386, 3096)), (1 * 32) + 19);
    assert_eq!(cell_of(at(3386, 3096)), (8 * 16) + 10);
}

#[test]
fn block_at_puts_region_slot_and_cell_together() {
    assert_eq!(block_at(at(0, 0), 0, 0), at(0, 0));
    assert_eq!(block_at(at(0, 0), 1, 0), at(16, 0));
    assert_eq!(block_at(at(0, 0), 32, 0), at(0, 16));
    assert_eq!(block_at(at(0, 0), 0, 1), at(1, 0));
    assert_eq!(block_at(at(0, 0), 0, 16), at(0, 1));
    assert_eq!(block_at(at(6, 6), 51, 138), at(3386, 3096));
    assert_eq!(block_at(at(-1, -1), 1023, 255), at(-1, -1));
    assert_eq!(block_at(at(MIN_REGION, MAX_REGION), 0, 0), at(i32::MIN, i32::MAX - 511));
    assert_eq!(block_at(at(MAX_REGION, MIN_REGION), 1023, 255), at(i32::MAX, i32::MIN + 511));
}

#[test]
fn block_at_undoes_region_slot_and_cell() {
    let blocks = [
        at(0, 0),
        at(1, 0),
        at(0, 1),
        at(-1, -1),
        at(3386, 3096),
        at(-70_000, 123_456),
        at(i32::MIN, i32::MAX),
        at(i32::MAX, i32::MIN),
    ];
    for b in blocks {
        assert_eq!(block_at(region_of(b), slot_of(b), cell_of(b)), b);
    }
    for slot in [0, 1, 31, 32, 500, 1023] {
        for cell in [0, 1, 15, 16, 100, 255] {
            let b = block_at(at(-3, 9), slot, cell);
            assert_eq!(region_of(b), at(-3, 9));
            assert_eq!(slot_of(b), slot);
            assert_eq!(cell_of(b), cell);
        }
    }
}

#[test]
fn slot_of_chunk_wraps_chunk_coordinates_into_the_region() {
    assert_eq!(slot_of_chunk(0, 0), 0);
    assert_eq!(slot_of_chunk(5, 2), 2 * 32 + 5);
    assert_eq!(slot_of_chunk(32, 64), 0);
    assert_eq!(slot_of_chunk(33, 31), 31 * 32 + 1);
    assert_eq!(slot_of_chunk(-1, -1), 1023);
    assert_eq!(slot_of_chunk(-32, -33), 31 * 32);
    assert_eq!(slot_of_chunk(i32::MIN, i32::MAX), 31 * 32);
}

#[test]
fn world_spans_the_regions_with_i32_block_columns() {
    assert!(region_in_world(at(0, 0)));
    assert!(region_in_world(at(MIN_REGION, MAX_REGION)));
    assert!(!region_in_world(at(MIN_REGION - 1, 0)));
    assert!(!region_in_world(at(0, MAX_REGION + 1)));
    assert_eq!(MIN_REGION, -(1 << 22));
    assert_eq!(MAX_REGION, (1 << 22) - 1);
}

#[test]
fn region_and_chunk_sizes() {
    assert_eq!(REGION_SIDE, 32);
    assert_eq!(CHUNK_SIDE, 16);
    assert_eq!(SLOTS, REGION_SIDE * REGION_SIDE);
    assert_eq!(CELLS, CHUNK_SIDE * CHUNK_SIDE);
}
