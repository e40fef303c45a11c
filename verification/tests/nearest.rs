use nearest_biome::biome::{Biome, BIOME_COUNT};
use nearest_biome::biome_set::BiomeSet;
use nearest_biome::geometry::{taxicab_distance, Coord};
use nearest_biome::nearest::{is_preferred, NearestMap};

fn at(x: i32, z: i32) -> Coord {
    Coord { x, z }
}

fn map_of(anchor: Coord, sightings: &[(Biome, Coord)]) -> NearestMap {
    let mut wanted = BiomeSet::new();
    for (biome, _) in sightings {
        wanted.insert(*biome);
    }
    let mut map = NearestMap::new();
    for (biome, place) in sightings {
        map.update(anchor, &wanted, *place, *biome);
    }
    map
}

#[test]
fn new_nearest_map_knows_no_biome() {
    let map = NearestMap::new();
    for i in 0..BIOME_COUNT {
        assert_eq!(map.get(Biome::from_index(i).unwrap()), None);
    }
    assert!(map.entries().is_empty());
}

#[test]
fn update_records_the_first_sighting() {
    let wanted = BiomeSet::from_biomes(&[Biome::Desert]);
    let mut map = NearestMap::new();
    map.update(at(0, 0), &wanted, at(40, -2), Biome::Desert);
    assert_eq!(map.get(Biome::Desert), Some(at(40, -2)));
    assert_eq!(map.entries(), vec![(Biome::Desert, at(40, -2))]);
}

#[test]
fn update_passes_over_a_biome_that_is_not_looked_for() {
    let wanted = BiomeSet::from_biomes(&[Biome::Desert]);
    let mut map = NearestMap::new();
    map.update(at(0, 0), &wanted, at(1, 1), Biome::Plains);
    assert_eq!(map, NearestMap::new());
}

#[test]
fn update_takes_a_strictly_closer_sighting() {
    let wanted = BiomeSet::from_biomes(&[Biome::Desert]);
    let mut map = NearestMap::new();
    map.update(at(10, 10), &wanted, at(40, 10), Biome::Desert);
    map.update(at(10, 10), &wanted, at(10, -19), Biome::Desert);
    assert_eq!(map.get(Biome::Desert), Some(at(10, -19)));
}

#[test]
fn update_keeps_the_entry_on_a_tie_or_a_farther_sighting() {
    let wanted = BiomeSet::from_biomes(&[Biome::Desert]);
    let mut map = NearestMap::new();
    map.update(at(0, 0), &wanted, at(3, 4), Biome::Desert);
    map.update(at(0, 0), &wanted, at(-7, 0), Biome::Desert);
    assert_eq!(map.get(Biome::Desert), Some(at(3, 4)));
    map.update(at(0, 0), &wanted, at(0, -7), Biome::Desert);
    assert_eq!(map.get(Biome::Desert), Some(at(3, 4)));
    map.update(at(0, 0), &wanted, at(100, 100), Biome::Desert);
    assert_eq!(map.get(Biome::Desert), Some(at(3, 4)));
}

#[test]
fn update_never_moves_an_entry_farther_away() {
    let anchor = at(5, -5);
    let wanted = BiomeSet::from_biomes(&[Biome::Taiga, Biome::River]);
    let sightings = [
        (Biome::Taiga, at(90, 90)),
        (Biome::River, at(-3, 8)),
        (Biome::Taiga, at(20, -5)),
        (Biome::Taiga, at(500, 0)),
        (Biome::River, at(-3, 7)),
        (Biome::River, at(-300, 7)),
        (Biome::Taiga, at(6, -5)),
    ];
    let mut map = NearestMap::new();
    for (biome, place) in sightings {
        let before = map;
        map.update(anchor, &wanted, place, biome);
        for b in [Biome::Taiga, Biome::River] {
            if let Some(old) = before.get(b) {
                let new = map.get(b).unwrap();
                assert!(taxicab_distance(anchor, new) <= taxicab_distance(anchor, old));
            }
        }
    }
    assert_eq!(map.get(Biome::Taiga), Some(at(6, -5)));
    assert_eq!(map.get(Biome::River), Some(at(-3, 7)));
}

#[test]
fn preference_goes_by_distance_then_z_then_x() {
    let anchor = at(0, 0);
    assert!(is_preferred(anchor, at(1, 1), at(3, 0)));
    assert!(!is_preferred(anchor, at(3, 0), at(1, 1)));
    assert!(is_preferred(anchor, at(3, -1), at(-4, 0)));
    assert!(!is_preferred(anchor, at(-4, 0), at(3, -1)));
    assert!(is_preferred(anchor, at(-2, 2), at(2, 2)));
    assert!(!is_preferred(anchor, at(2, 2), at(-2, 2)));
    assert!(!is_preferred(anchor, at(2, 2), at(2, 2)));
}

#[test]
fn merge_keeps_the_entries_of_both_records() {
    let anchor = at(0, 0);
    let a = map_of(anchor, &[(Biome::Desert, at(5, 5))]);
    let b = map_of(anchor, &[(Biome::Plains, at(-1, 0))]);
    let both = a.merge(&b, anchor);
    assert_eq!(both.get(Biome::Desert), Some(at(5, 5)));
    assert_eq!(both.get(Biome::Plains), Some(at(-1, 0)));
    assert_eq!(both.get(Biome::River), None);
    assert_eq!(a.merge(&NearestMap::new(), anchor), a);
    assert_eq!(NearestMap::new().merge(&a, anchor), a);
}

#[test]
fn merge_keeps_the_closer_of_two_entries() {
    let anchor = at(100, 100);
    let a = map_of(anchor, &[(Biome::Desert, at(100, 90)), (Biome::Swamp, at(0, 0))]);
    let b = map_of(anchor, &[(Biome::Desert, at(100, 120)), (Biome::Swamp, at(99, 99))]);
    let both = a.merge(&b, anchor);
    assert_eq!(both.get(Biome::Desert), Some(at(100, 90)));
    assert_eq!(both.get(Biome::Swamp), Some(at(99, 99)));
}

#[test]
fn merge_breaks_a_tie_by_z_then_x() {
    let anchor = at(0, 0);
    let a = map_of(anchor, &[(Biome::Desert, at(4, 0)), (Biome::Beach, at(3, 2))]);
    let b = map_of(anchor, &[(Biome::Desert, at(0, -4)), (Biome::Beach, at(-3, 2))]);
    let ab = a.merge(&b, anchor);
    let ba = b.merge(&a, anchor);
    assert_eq!(ab.get(Biome::Desert), Some(at(0, -4)));
    assert_eq!(ab.get(Biome::Beach), Some(at(-3, 2)));
    assert_eq!(ab, ba);
}

#[test]
fn merge_is_commutative_and_associative() {
    let anchor = at(7, -7);
    let maps = [
        map_of(anchor, &[(Biome::Desert, at(7, 3)), (Biome::River, at(0, 0))]),
        map_of(anchor, &[(Biome::Desert, at(17, -7)), (Biome::Jungle, at(8, -8))]),
        map_of(anchor, &[(Biome::River, at(14, -14)), (Biome::Jungle, at(6, -6))]),
        map_of(anchor, &[(Biome::Desert, at(-3, -7))]),
        NearestMap::new(),
    ];
    for a in &maps {
        assert_eq!(a.merge(a, anchor), *a);
        for b in &maps {
            assert_eq!(a.merge(b, anchor), b.merge(a, anchor));
            for c in &maps {
                assert_eq!(a.merge(b, anchor).merge(c, anchor), a.merge(&b.merge(c, anchor), anchor));
            }
        }
    }
}

#[test]
fn merge_in_any_order_gives_the_same_distances() {
    let anchor = at(0, 0);
    let a = map_of(anchor, &[(Biome::Desert, at(9, 0)), (Biome::River, at(2, 2))]);
    let b = map_of(anchor, &[(Biome::Desert, at(0, 9)), (Biome::River, at(1, 1))]);
    let c = map_of(anchor, &[(Biome::Desert, at(-4, 4)), (Biome::Forest, at(30, 0))]);
    let orders = [
        a.merge(&b, anchor).merge(&c, anchor),
        a.merge(&c, anchor).merge(&b, anchor),
        b.merge(&a, anchor).merge(&c, anchor),
        b.merge(&c, anchor).merge(&a, anchor),
        c.merge(&a, anchor).merge(&b, anchor),
        c.merge(&b, anchor).merge(&a, anchor),
        a.merge(&b.merge(&c, anchor), anchor),
    ];
    for merged in orders {
        assert_eq!(taxicab_distance(anchor, merged.get(Biome::Desert).unwrap()), 8);
        assert_eq!(taxicab_distance(anchor, merged.get(Biome::River).unwrap()), 2);
        assert_eq!(taxicab_distance(anchor, merged.get(Biome::Forest).unwrap()), 30);
        assert_eq!(merged, orders[0]);
    }
}

#[test]
fn merge_never_moves_an_entry_farther_away() {
    let anchor = at(0, 0);
    let a = map_of(anchor, &[(Biome::Desert, at(9, 0)), (Biome::River, at(2, 2))]);
    let b = map_of(anchor, &[(Biome::Desert, at(0, 19)), (Biome::River, at(1, 1))]);
    let both = a.merge(&b, anchor);
    for (biome, place) in a.entries().into_iter().chain(b.entries()) {
        let kept = both.get(biome).unwrap();
        assert!(taxicab_distance(anchor, kept) <= taxicab_distance(anchor, place));
    }
}

#[test]
fn restrict_keeps_only_the_biomes_of_the_set() {
    let anchor = at(0, 0);
    let map = map_of(anchor, &[(Biome::Desert, at(1, 2)), (Biome::River, at(3, 4))]);
    let kept = map.restrict(&BiomeSet::from_biomes(&[Biome::River, Biome::Plains]));
    assert_eq!(kept.get(Biome::Desert), None);
    assert_eq!(kept.get(Biome::River), Some(at(3, 4)));
    assert_eq!(kept.get(Biome::Plains), None);
    assert_eq!(map.restrict(&BiomeSet::new()), NearestMap::new());
}

#[test]
fn covers_asks_for_every_biome_of_the_set() {
    let anchor = at(0, 0);
    let map = map_of(anchor, &[(Biome::Desert, at(1, 2)), (Biome::River, at(3, 4))]);
    assert!(map.covers(&BiomeSet::new()));
    assert!(map.covers(&BiomeSet::from_biomes(&[Biome::Desert])));
    assert!(map.covers(&BiomeSet::from_biomes(&[Biome::Desert, Biome::River])));
    assert!(!map.covers(&BiomeSet::from_biomes(&[Biome::Desert, Biome::Plains])));
    assert!(!NearestMap::new().covers(&BiomeSet::from_biomes(&[Biome::WoodedMountains])));
    assert!(NearestMap::new().covers(&BiomeSet::new()));
}

#[test]
fn entries_come_in_the_order_of_the_enumeration() {
    let anchor = at(0, 0);
    let map = map_of(
        anchor,
        &[
            (Biome::WoodedMountains, at(1, 1)),
            (Biome::Badlands, at(2, 2)),
            (Biome::Plains, at(3, 3)),
        ],
    );
    assert_eq!(
        map.entries(),
        vec![
            (Biome::Badlands, at(2, 2)),
            (Biome::Plains, at(3, 3)),
            (Biome::WoodedMountains, at(1, 1)),
        ]
    );
}
