use nearest_biome::biome::Biome;
use nearest_biome::biome_set::BiomeSet;
use nearest_biome::geometry::Coord;
use nearest_biome::nearest::NearestMap;
use nearest_biome::ranking::{ranked, sort_key, Found};

fn at(x: i32, z: i32) -> Coord {
    Coord { x, z }
}

fn map_of(anchor: Coord, sightings: &[(Biome, Coord)]) -> NearestMap {
    let mut wanted = BiomeSet::new();
    for (biome, _) in sightings {
        wanted.insert(*biome);
    }
    let mut map = NearestMap::new();
    for (biome, place) in sightings {
        map.update(anchor, &wanted, *place, *biome);
    }
    map
}

#[test]
fn ranking_of_nothing_is_empty() {
    assert!(ranked(at(0, 0), &NearestMap::new()).is_empty());
}

#[test]
fn ranking_goes_by_distance_first() {
    let anchor = at(0, 0);
    let found = map_of(
        anchor,
        &[(Biome::Badlands, at(50, 0)), (Biome::Plains, at(0, -3)), (Biome::WoodedHills, at(-10, 10))],
    );
    assert_eq!(
        ranked(anchor, &found),
        vec![
            Found { biome: Biome::Plains, at: at(0, -3), distance: 3 },
            Found { biome: Biome::WoodedHills, at: at(-10, 10), distance: 20 },
            Found { biome: Biome::Badlands, at: at(50, 0), distance: 50 },
        ]
    );
}

#[test]
fn equal_distance_and_z_are_ordered_by_x() {
    let anchor = at(4, -89);
    let found = map_of(anchor, &[(Biome::Desert, at(5, 10)), (Biome::Plains, at(3, 10))]);
    let list = ranked(anchor, &found);
    assert_eq!(
        list,
        vec![
            Found { biome: Biome::Plains, at: at(3, 10), distance: 100 },
            Found { biome: Biome::Desert, at: at(5, 10), distance: 100 },
        ]
    );
    let found = map_of(anchor, &[(Biome::Plains, at(5, 10)), (Biome::Desert, at(3, 10))]);
    let list = ranked(anchor, &found);
    assert_eq!(list[0], Found { biome: Biome::Desert, at: at(3, 10), distance: 100 });
    assert_eq!(list[1], Found { biome: Biome::Plains, at: at(5, 10), distance: 100 });
}

#[test]
fn equal_distance_is_ordered_by_z_before_x() {
    let anchor = at(0, 0);
    let found = map_of(
        anchor,
        &[
            (Biome::Badlands, at(-10, 0)),
            (Biome::Beach, at(0, 10)),
            (Biome::Desert, at(0, -10)),
            (Biome::Forest, at(10, 0)),
            (Biome::Jungle, at(5, -5)),
        ],
    );
    let order: Vec<Biome> = ranked(anchor, &found).into_iter().map(|line| line.biome).collect();
    assert_eq!(
        order,
        vec![Biome::Desert, Biome::Jungle, Biome::Badlands, Biome::Forest, Biome::Beach]
    );
}

#[test]
fn same_block_column_is_ordered_by_name() {
    let anchor = at(1, 1);
    let found = map_of(
        anchor,
        &[
            (Biome::SnowyTaiga, at(7, 7)),
            (Biome::Taiga, at(7, 7)),
            (Biome::Beach, at(7, 7)),
            (Biome::SnowyBeach, at(7, 7)),
            (Biome::DeepOcean, at(7, 7)),
            (Biome::DeepColdOcean, at(7, 7)),
            (Biome::Desert, at(7, 7)),
            (Biome::DesertHills, at(7, 7)),
        ],
    );
    let names: Vec<&str> = ranked(anchor, &found).into_iter().map(|line| line.biome.name()).collect();
    assert_eq!(
        names,
        vec![
            "Beach",
            "Deep Cold Ocean",
            "Deep Ocean",
            "Desert",
            "Desert Hills",
            "Snowy Beach",
            "Snowy Taiga",
            "Taiga",
        ]
    );
}

#[test]
fn ranking_reorders_what_the_record_lists() {
    let anchor = at(0, 0);
    let found = map_of(
        anchor,
        &[(Biome::Badlands, at(9, 9)), (Biome::Plains, at(5, 5)), (Biome::WoodedMountains, at(1, 1))],
    );
    let listed: Vec<Biome> = found.entries().into_iter().map(|entry| entry.0).collect();
    assert_eq!(listed, vec![Biome::Badlands, Biome::Plains, Biome::WoodedMountains]);
    let order: Vec<Biome> = ranked(anchor, &found).into_iter().map(|line| line.biome).collect();
    assert_eq!(order, vec![Biome::WoodedMountains, Biome::Plains, Biome::Badlands]);
}

#[test]
fn ranking_has_one_line_for_each_biome_found() {
    let anchor = at(-20, 35);
    let mut sightings = Vec::new();
    for i in 0..79usize {
        let biome = Biome::from_index(i).unwrap();
        sightings.push((biome, at((i as i32 * 37) % 101 - 50, (i as i32 * 53) % 89 - 40)));
    }
    let found = map_of(anchor, &sightings);
    let list = ranked(anchor, &found);
    assert_eq!(list.len(), 79);
    for line in &list {
        assert_eq!(found.get(line.biome), Some(line.at));
        assert_eq!(
            line.distance,
            (line.at.x as i64 + 20).unsigned_abs() + (line.at.z as i64 - 35).unsigned_abs()
        );
    }
    for pair in list.windows(2) {
        assert!(sort_key(&pair[0]) < sort_key(&pair[1]));
    }
}

#[test]
fn sort_key_is_distance_z_x_and_name() {
    let line = Found { biome: Biome::StoneShore, at: at(-3, 8), distance: 11 };
    assert_eq!(sort_key(&line), (11, 8, -3, "Stone Shore"));
}
