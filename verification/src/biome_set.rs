//! The set of biomes that a search looks for.

use crate::biome::{Biome, BIOME_COUNT};
use vstd::prelude::*;

verus! {

/// The biomes that have to be visited for the "Adventuring Time" advancement.
pub const ADV_TIME_BIOMES: [Biome; 42] = [
    Biome::Badlands,
    Biome::BadlandsPlateau,
    Biome::BambooJungle,
    Biome::BambooJungleHills,
    Biome::Beach,
    Biome::BirchForest,
    Biome::BirchForestHills,
    Biome::ColdOcean,
    Biome::DarkForest,
    Biome::DeepColdOcean,
    Biome::DeepFrozenOcean,
    Biome::DeepLukewarmOcean,
    Biome::Desert,
    Biome::DesertHills,
    Biome::Forest,
    Biome::FrozenRiver,
    Biome::GiantTreeTaiga,
    Biome::GiantTreeTaigaHills,
    Biome::Jungle,
    Biome::JungleEdge,
    Biome::JungleHills,
    Biome::LukewarmOcean,
    Biome::Mountains,
    Biome::MushroomFieldShore,
    Biome::MushroomFields,
    Biome::Plains,
    Biome::River,
    Biome::Savanna,
    Biome::SavannaPlateau,
    Biome::SnowyBeach,
    Biome::SnowyMountains,
    Biome::SnowyTaiga,
    Biome::SnowyTaigaHills,
    Biome::SnowyTundra,
    Biome::StoneShore,
    Biome::Swamp,
    Biome::Taiga,
    Biome::TaigaHills,
    Biome::WarmOcean,
    Biome::WoodedBadlandsPlateau,
    Biome::WoodedHills,
    Biome::WoodedMountains,
];

/// A set of biomes, held as one flag for each biome of the enumeration.
#[derive(Clone, Copy, Debug, PartialEq, Eq)]
pub struct BiomeSet {
    member: [bool; BIOME_COUNT],
}

impl View for BiomeSet {
    type V = Set<Biome>;

    closed spec fn view(&self) -> Set<Biome> {
        Set::new(|b: Biome| self.member@[b.ordinal()])
    }
}

impl BiomeSet {
    /// The set that holds no biome.
    pub fn new() -> (set: BiomeSet)
        ensures
            set@ == Set::<Biome>::empty(),
    {
        let set = BiomeSet { member: [false;BIOME_COUNT] };
        assert(set@ =~= Set::<Biome>::empty());
        set
    }

    /// The set of the biomes that occur in `biomes`.
    pub fn from_biomes(biomes: &[Biome]) -> (set: BiomeSet)
        ensures
            forall|b: Biome| set@.contains(b) <==> biomes@.contains(b),
    {
        let mut set = BiomeSet::new();
        let mut i: usize = 0;
        while i < biomes.len()
            invariant
                i <= biomes@.len(),
                forall|b: Biome| set@.contains(b) <==> biomes@.subrange(0, i as int).contains(b),
            decreases biomes@.len() - i,
        {
            let ghost before = biomes@.subrange(0, i as int);
            let ghost after = biomes@.subrange(0, i + 1);
            set.insert(biomes[i]);
            proof {
                assert(after =~= before.push(biomes@[i as int]));
                assert forall|b: Biome| set@.contains(b) <==> after.contains(b) by {
                    if before.contains(b) {
                        let j = choose|j: int| 0 <= j < before.len() && before[j] == b;
                        assert(after[j] == b);
                    }
                    if b == biomes@[i as int] {
                        assert(after[i as int] == b);
                    }
                }
            }
            i += 1;
        }
        proof {
            assert(biomes@.subrange(0, i as int) =~= biomes@);
        }
        set
    }

    /// The biomes of `ADV_TIME_BIOMES`.
    pub fn adventuring_time() -> (set: BiomeSet)
        ensures
            forall|b: Biome| set@.contains(b) <==> ADV_TIME_BIOMES@.contains(b),
    {
        BiomeSet::from_biomes(&ADV_TIME_BIOMES)
    }

    pub fn insert(&mut self, biome: Biome)
        ensures
            final(self)@ == old(self)@.insert(biome),
    {
        let i = biome.index();
        self.member[i] = true;
        assert(self@ =~= old(self)@.insert(biome));
    }

    pub fn contains(&self, biome: Biome) -> (present: bool)
        ensures
            present == self@.contains(biome),
    {
        self.member[biome.index()]
    }
}

} // verus!
