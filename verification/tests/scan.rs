use nearest_biome::biome::Biome;
use nearest_biome::biome_set::BiomeSet;
use nearest_biome::geometry::{block_at, taxicab_distance, Coord};
use nearest_biome::nearest::NearestMap;
use nearest_biome::scan::closest_biomes_in_region;
use nearest_biome::stitch::DenseGrid;

fn at(x: i32, z: i32) -> Coord {
    Coord { x, z }
}

fn position_of(column: Coord) -> (usize, usize) {
    let slot = ((column.z >> 4) & 31) as usize * 32 + ((column.x >> 4) & 31) as usize;
    let cell = (column.z & 15) as usize * 16 + (column.x & 15) as usize;
    (slot, cell)
}

fn with_biome_at(dense: DenseGrid, column: Coord, biome: Biome) -> DenseGrid {
    let (slot, cell) = position_of(column);
    dense.with_biome(slot, cell, biome)
}

#[test]
fn uniform_region_has_its_biome_closest_at_the_anchor() {
    let dense = DenseGrid::filled(Biome::Plains);
    let wanted = BiomeSet::from_biomes(&[Biome::Plains, Biome::Desert]);
    let found = closest_biomes_in_region(at(100, 200), at(0, 0), &dense, &wanted);
    assert_eq!(found.get(Biome::Plains), Some(at(100, 200)));
    assert_eq!(found.get(Biome::Desert), None);
    assert_eq!(found.entries().len(), 1);
}

#[test]
fn anchor_outside_the_region_finds_the_nearest_edge() {
    let dense = DenseGrid::filled(Biome::Plains);
    let wanted = BiomeSet::from_biomes(&[Biome::Plains]);
    let found = closest_biomes_in_region(at(-10, 700), at(0, 0), &dense, &wanted);
    assert_eq!(found.get(Biome::Plains), Some(at(0, 511)));
    let found = closest_biomes_in_region(at(0, 0), at(-1, -1), &dense, &wanted);
    assert_eq!(found.get(Biome::Plains), Some(at(-1, -1)));
    let found = closest_biomes_in_region(at(0, 0), at(3, -2), &dense, &wanted);
    assert_eq!(found.get(Biome::Plains), Some(at(1536, -513)));
}

#[test]
fn closest_of_several_places_is_recorded() {
    let anchor = at(300, 300);
    let mut dense = DenseGrid::filled(Biome::Ocean);
    for place in [at(0, 0), at(310, 280), at(511, 511), at(295, 330), at(300, 269)] {
        dense = with_biome_at(dense, place, Biome::Desert);
    }
    dense = with_biome_at(dense, at(17, 400), Biome::River);
    let wanted = BiomeSet::from_biomes(&[Biome::Desert, Biome::River, Biome::Taiga]);
    let found = closest_biomes_in_region(anchor, at(0, 0), &dense, &wanted);
    assert_eq!(found.get(Biome::Desert), Some(at(310, 280)));
    assert_eq!(found.get(Biome::River), Some(at(17, 400)));
    assert_eq!(found.get(Biome::Taiga), None);
    assert_eq!(found.get(Biome::Ocean), None);
}

#[test]
fn of_equally_close_places_the_first_in_walking_order_is_recorded() {
    let anchor = at(100, 100);
    let wanted = BiomeSet::from_biomes(&[Biome::Desert]);
    // Both in the same chunk: the walk goes row by row.
    let mut dense = DenseGrid::filled(Biome::Ocean);
    dense = with_biome_at(dense, at(101, 100), Biome::Desert);
    dense = with_biome_at(dense, at(100, 99), Biome::Desert);
    let found = closest_biomes_in_region(anchor, at(0, 0), &dense, &wanted);
    assert_eq!(found.get(Biome::Desert), Some(at(100, 99)));
    // In different chunks of one row of chunks: the walk finishes a chunk first.
    let mut dense = DenseGrid::filled(Biome::Ocean);
    dense = with_biome_at(dense, at(110, 100), Biome::Desert);
    dense = with_biome_at(dense, at(95, 105), Biome::Desert);
    let found = closest_biomes_in_region(anchor, at(0, 0), &dense, &wanted);
    assert_eq!(found.get(Biome::Desert), Some(at(95, 105)));
}

#[test]
fn scan_agrees_with_recording_every_block_column_in_turn() {
    let anchor = at(-700, 40);
    let region = at(-2, 0);
    let mut dense = DenseGrid::filled(Biome::Forest);
    let mut state: u32 = 12345;
    for _ in 0..3000 {
        state = state.wrapping_mul(1_103_515_245).wrapping_add(12345);
        let slot = (state >> 8) as usize % 1024;
        state = state.wrapping_mul(1_103_515_245).wrapping_add(12345);
        let cell = (state >> 8) as usize % 256;
        state = state.wrapping_mul(1_103_515_245).wrapping_add(12345);
        let biome = Biome::from_index((state >> 8) as usize % 79).unwrap();
        dense = dense.with_biome(slot, cell, biome);
    }
    let wanted = BiomeSet::adventuring_time();
    let found = closest_biomes_in_region(anchor, region, &dense, &wanted);
    let mut expected = NearestMap::new();
    for slot in 0..1024 {
        for cell in 0..256 {
            expected.update(anchor, &wanted, block_at(region, slot, cell), dense.get(slot, cell));
        }
    }
    assert_eq!(found, expected);
    for (biome, place) in found.entries() {
        assert!(wanted.contains(biome));
        let (slot, cell) = position_of(place);
        assert_eq!(dense.get(slot, cell), biome);
        for slot in 0..1024 {
            for cell in 0..256 {
                if dense.get(slot, cell) == biome {
                    assert!(
                        taxicab_distance(anchor, place)
                            <= taxicab_distance(anchor, block_at(region, slot, cell))
                    );
                }
            }
        }
    }
}
