use nearest_biome::biome::Biome;
use nearest_biome::error::SearchError;
use nearest_biome::geometry::{block_at, cell_of, region_of, slot_of, Coord, MAX_REGION, MIN_REGION};
use nearest_biome::region::{ChunkBiomeGrid, RegionGrid};
use nearest_biome::stitch::{biomes_for_region, oracle_requests, predicted_biome, DenseGrid, COLUMNS};

fn at(x: i32, z: i32) -> Coord {
    Coord { x, z }
}

fn striped(column: Coord) -> Biome {
    match (column.x + 2 * column.z).rem_euclid(3) {
        0 => Biome::Desert,
        1 => Biome::River,
        _ => Biome::Taiga,
    }
}

#[test]
fn unexplored_region_asks_for_every_block_column_once() {
    let region = at(2, -3);
    let requests = oracle_requests(region, &RegionGrid::unexplored());
    assert_eq!(requests.len(), COLUMNS);
    assert_eq!(COLUMNS, 512 * 512);
    assert_eq!(requests[0], at(1024, -1536));
    assert_eq!(requests[1], at(1025, -1536));
    assert_eq!(requests[16], at(1024, -1535));
    assert_eq!(requests[256], at(1040, -1536));
    assert_eq!(requests[32 * 256], at(1024, -1520));
    assert_eq!(requests[COLUMNS - 1], at(1535, -1025));
    let mut seen = vec![false; COLUMNS];
    for column in &requests {
        assert_eq!(region_of(*column), region);
        let position = slot_of(*column) * 256 + cell_of(*column);
        assert!(!seen[position]);
        seen[position] = true;
    }
    assert!(seen.iter().all(|s| *s));
}

#[test]
fn stored_chunks_are_never_asked_for() {
    let region = at(0, 0);
    let grid = RegionGrid::unexplored()
        .with_chunk(0, 0, ChunkBiomeGrid::filled(Biome::Desert))
        .with_chunk(5, 7, ChunkBiomeGrid::filled(Biome::River))
        .with_chunk(31, 31, ChunkBiomeGrid::filled(Biome::Beach));
    let requests = oracle_requests(region, &grid);
    assert_eq!(requests.len(), COLUMNS - 3 * 256);
    let mut asked = vec![0u8; COLUMNS];
    for column in &requests {
        assert_eq!(region_of(*column), region);
        asked[slot_of(*column) * 256 + cell_of(*column)] += 1;
    }
    for slot in 0..1024 {
        let stored = slot == 0 || slot == 7 * 32 + 5 || slot == 1023;
        for cell in 0..256 {
            assert_eq!(asked[slot * 256 + cell], if stored { 0 } else { 1 });
        }
    }
    assert_eq!(requests[0], at(16, 0));
}

#[test]
fn fully_stored_region_asks_for_nothing() {
    let mut grid = RegionGrid::unexplored();
    for slot in 0..1024 {
        grid = grid.with_slot(slot, ChunkBiomeGrid::filled(Biome::Forest));
    }
    assert!(oracle_requests(at(9, 9), &grid).is_empty());
    let dense = biomes_for_region(&grid, &Vec::new()).unwrap();
    assert_eq!(dense.get(0, 0), Biome::Forest);
    assert_eq!(dense.get(1023, 255), Biome::Forest);
    assert!(biomes_for_region(&grid, &vec![Biome::Forest]).is_none());
}

#[test]
fn requests_reach_the_corners_of_the_world() {
    let low = oracle_requests(at(MIN_REGION, MIN_REGION), &RegionGrid::unexplored());
    assert_eq!(low[0], at(i32::MIN, i32::MIN));
    let high = oracle_requests(at(MAX_REGION, MAX_REGION), &RegionGrid::unexplored());
    assert_eq!(high[COLUMNS - 1], at(i32::MAX, i32::MAX));
}

#[test]
fn stitching_copies_stored_chunks_and_fills_gaps_with_predictions() {
    let region = at(-1, 4);
    let mut stored = ChunkBiomeGrid::filled(Biome::Plains);
    stored.set(3, 9, Biome::Swamp);
    let grid = RegionGrid::unexplored()
        .with_chunk(1, 0, stored)
        .with_chunk(30, 2, ChunkBiomeGrid::filled(Biome::Jungle));
    let requests = oracle_requests(region, &grid);
    let predicted: Vec<Biome> = requests.iter().map(|column| striped(*column)).collect();
    let dense = biomes_for_region(&grid, &predicted).unwrap();
    for slot in 0..1024 {
        for cell in 0..256 {
            let expected = if slot == 1 {
                if cell == 9 * 16 + 3 {
                    Biome::Swamp
                } else {
                    Biome::Plains
                }
            } else if slot == 2 * 32 + 30 {
                Biome::Jungle
            } else {
                striped(block_at(region, slot, cell))
            };
            assert_eq!(dense.get(slot, cell), expected);
        }
    }
    assert_eq!(dense.biome_at(1, 0, 3, 9), Biome::Swamp);
    assert_eq!(dense.biome_at(30, 2, 15, 15), Biome::Jungle);
    assert_eq!(dense.biome_at(0, 0, 1, 0), striped(at(-511, 2048)));
    assert_eq!(dense.biome_at(0, 0, 0, 1), striped(at(-512, 2049)));
}

#[test]
fn stitching_wants_exactly_the_predictions_asked_for() {
    let grid = RegionGrid::unexplored().with_chunk(0, 0, ChunkBiomeGrid::filled(Biome::Desert));
    let needed = COLUMNS - 256;
    assert!(biomes_for_region(&grid, &vec![Biome::Plains; needed]).is_some());
    assert!(biomes_for_region(&grid, &vec![Biome::Plains; needed - 1]).is_none());
    assert!(biomes_for_region(&grid, &vec![Biome::Plains; needed + 1]).is_none());
    assert!(biomes_for_region(&grid, &Vec::new()).is_none());
    assert!(biomes_for_region(&RegionGrid::unexplored(), &vec![Biome::Plains; COLUMNS]).is_some());
    assert!(biomes_for_region(&RegionGrid::unexplored(), &vec![Biome::Plains; needed]).is_none());
}

#[test]
fn dense_grid_is_addressed_by_slot_and_cell() {
    let dense = DenseGrid::filled(Biome::Ocean)
        .with_biome(0, 0, Biome::Desert)
        .with_biome(33, 17, Biome::River);
    assert_eq!(dense.get(0, 0), Biome::Desert);
    assert_eq!(dense.get(33, 17), Biome::River);
    assert_eq!(dense.biome_at(1, 1, 1, 1), Biome::River);
    assert_eq!(dense.get(17, 33), Biome::Ocean);
    assert_eq!(dense.get(1023, 255), Biome::Ocean);
}

#[test]
fn prediction_by_name_gives_the_biome() {
    assert_eq!(predicted_biome(at(1, 2), Some("Desert")), Ok(Biome::Desert));
    assert_eq!(predicted_biome(at(1, 2), Some("Giant Tree Taiga Hills")), Ok(Biome::GiantTreeTaigaHills));
}

#[test]
fn prediction_with_an_unknown_name_is_a_failure() {
    assert_eq!(
        predicted_biome(at(-8, 77), Some("Candy Land")),
        Err(SearchError::UnknownBiomeName { at: at(-8, 77) })
    );
    assert_eq!(predicted_biome(at(0, 0), Some("")), Err(SearchError::UnknownBiomeName { at: at(0, 0) }));
}

#[test]
fn failed_prediction_is_a_failure() {
    assert_eq!(predicted_biome(at(5, 6), None), Err(SearchError::PredictionFailed { at: at(5, 6) }));
}
