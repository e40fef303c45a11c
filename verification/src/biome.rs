//! The closed set of biomes, their positions in the enumeration and their
//! canonical names.

use vstd::prelude::*;

verus! {

/// A terrain category. Every block column of a world has exactly one.
#[derive(Clone, Copy, Debug, PartialEq, Eq, Hash, Structural)]
pub enum Biome {
    Badlands,
    BadlandsPlateau,
    BambooJungle,
    BambooJungleHills,
    BasaltDeltas,
    Beach,
    BirchForest,
    BirchForestHills,
    ColdOcean,
    CrimsonForest,
    DarkForest,
    DarkForestHills,
    DeepColdOcean,
    DeepFrozenOcean,
    DeepLukewarmOcean,
    DeepOcean,
    DeepWarmOcean,
    Desert,
    DesertHills,
    DesertLakes,
    EndBarrens,
    EndHighlands,
    EndMidlands,
    ErodedBadlands,
    FlowerForest,
    Forest,
    FrozenOcean,
    FrozenRiver,
    GiantSpruceTaiga,
    GiantSpruceTaigaHills,
    GiantTreeTaiga,
    GiantTreeTaigaHills,
    GravellyMountains,
    IceSpikes,
    Jungle,
    JungleEdge,
    JungleHills,
    LukewarmOcean,
    ModifiedBadlandsPlateau,
    ModifiedGravellyMountains,
    ModifiedJungle,
    ModifiedJungleEdge,
    ModifiedWoodedBadlandsPlateau,
    MountainEdge,
    Mountains,
    MushroomFieldShore,
    MushroomFields,
    NetherWastes,
    Ocean,
    Plains,
    River,
    Savanna,
    SavannaPlateau,
    ShatteredSavanna,
    ShatteredSavannaPlateau,
    SmallEndIslands,
    SnowyBeach,
    SnowyMountains,
    SnowyTaiga,
    SnowyTaigaHills,
    SnowyTaigaMountains,
    SnowyTundra,
    SoulSandValley,
    StoneShore,
    SunflowerPlains,
    Swamp,
    SwampHills,
    Taiga,
    TaigaHills,
    TaigaMountains,
    TallBirchForest,
    TallBirchHills,
    TheEnd,
    TheVoid,
    WarmOcean,
    WarpedForest,
    WoodedBadlandsPlateau,
    WoodedHills,
    WoodedMountains,
}

/// The number of biomes.
pub const BIOME_COUNT: usize = 79;

impl Biome {
    /// The position of the biome in the enumeration, counted from zero.
    pub open spec fn ordinal(self) -> int {
        match self {
            Biome::Badlands => 0,
            Biome::BadlandsPlateau => 1,
            Biome::BambooJungle => 2,
            Biome::BambooJungleHills => 3,
            Biome::BasaltDeltas => 4,
            Biome::Beach => 5,
            Biome::BirchForest => 6,
            Biome::BirchForestHills => 7,
            Biome::ColdOcean => 8,
            Biome::CrimsonForest => 9,
            Biome::DarkForest => 10,
            Biome::DarkForestHills => 11,
            Biome::DeepColdOcean => 12,
            Biome::DeepFrozenOcean => 13,
            Biome::DeepLukewarmOcean => 14,
            Biome::DeepOcean => 15,
            Biome::DeepWarmOcean => 16,
            Biome::Desert => 17,
            Biome::DesertHills => 18,
            Biome::DesertLakes => 19,
            Biome::EndBarrens => 20,
            Biome::EndHighlands => 21,
            Biome::EndMidlands => 22,
            Biome::ErodedBadlands => 23,
            Biome::FlowerForest => 24,
            Biome::Forest => 25,
            Biome::FrozenOcean => 26,
            Biome::FrozenRiver => 27,
            Biome::GiantSpruceTaiga => 28,
            Biome::GiantSpruceTaigaHills => 29,
            Biome::GiantTreeTaiga => 30,
            Biome::GiantTreeTaigaHills => 31,
            Biome::GravellyMountains => 32,
            Biome::IceSpikes => 33,
            Biome::Jungle => 34,
            Biome::JungleEdge => 35,
            Biome::JungleHills => 36,
            Biome::LukewarmOcean => 37,
            Biome::ModifiedBadlandsPlateau => 38,
            Biome::ModifiedGravellyMountains => 39,
            Biome::ModifiedJungle => 40,
            Biome::ModifiedJungleEdge => 41,
            Biome::ModifiedWoodedBadlandsPlateau => 42,
            Biome::MountainEdge => 43,
            Biome::Mountains => 44,
            Biome::MushroomFieldShore => 45,
            Biome::MushroomFields => 46,
            Biome::NetherWastes => 47,
            Biome::Ocean => 48,
            Biome::Plains => 49,
            Biome::River => 50,
            Biome::Savanna => 51,
            Biome::SavannaPlateau => 52,
            Biome::ShatteredSavanna => 53,
            Biome::ShatteredSavannaPlateau => 54,
            Biome::SmallEndIslands => 55,
            Biome::SnowyBeach => 56,
            Biome::SnowyMountains => 57,
            Biome::SnowyTaiga => 58,
            Biome::SnowyTaigaHills => 59,
            Biome::SnowyTaigaMountains => 60,
            Biome::SnowyTundra => 61,
            Biome::SoulSandValley => 62,
            Biome::StoneShore => 63,
            Biome::SunflowerPlains => 64,
            Biome::Swamp => 65,
            Biome::SwampHills => 66,
            Biome::Taiga => 67,
            Biome::TaigaHills => 68,
            Biome::TaigaMountains => 69,
            Biome::TallBirchForest => 70,
            Biome::TallBirchHills => 71,
            Biome::TheEnd => 72,
            Biome::TheVoid => 73,
            Biome::WarmOcean => 74,
            Biome::WarpedForest => 75,
            Biome::WoodedBadlandsPlateau => 76,
            Biome::WoodedHills => 77,
            Biome::WoodedMountains => 78,
        }
    }

    /// The biome at position `i` of the enumeration.
    pub open spec fn at(i: int) -> Biome {
        if i == 0 {
            Biome::Badlands
        } else if i == 1 {
            Biome::BadlandsPlateau
        } else if i == 2 {
            Biome::BambooJungle
        } else if i == 3 {
            Biome::BambooJungleHills
        } else if i == 4 {
            Biome::BasaltDeltas
        } else if i == 5 {
            Biome::Beach
        } else if i == 6 {
            Biome::BirchForest
        } else if i == 7 {
            Biome::BirchForestHills
        } else if i == 8 {
            Biome::ColdOcean
        } else if i == 9 {
            Biome::CrimsonForest
        } else if i == 10 {
            Biome::DarkForest
        } else if i == 11 {
            Biome::DarkForestHills
        } else if i == 12 {
            Biome::DeepColdOcean
        } else if i == 13 {
            Biome::DeepFrozenOcean
        } else if i == 14 {
            Biome::DeepLukewarmOcean
        } else if i == 15 {
            Biome::DeepOcean
        } else if i == 16 {
            Biome::DeepWarmOcean
        } else if i == 17 {
            Biome::Desert
        } else if i == 18 {
            Biome::DesertHills
        } else if i == 19 {
            Biome::DesertLakes
        } else if i == 20 {
            Biome::EndBarrens
        } else if i == 21 {
            Biome::EndHighlands
        } else if i == 22 {
            Biome::EndMidlands
        } else if i == 23 {
            Biome::ErodedBadlands
        } else if i == 24 {
            Biome::FlowerForest
        } else if i == 25 {
            Biome::Forest
        } else if i == 26 {
            Biome::FrozenOcean
        } else if i == 27 {
            Biome::FrozenRiver
        } else if i == 28 {
            Biome::GiantSpruceTaiga
        } else if i == 29 {
            Biome::GiantSpruceTaigaHills
        } else if i == 30 {
            Biome::GiantTreeTaiga
        } else if i == 31 {
            Biome::GiantTreeTaigaHills
        } else if i == 32 {
            Biome::GravellyMountains
        } else if i == 33 {
            Biome::IceSpikes
        } else if i == 34 {
            Biome::Jungle
        } else if i == 35 {
            Biome::JungleEdge
        } else if i == 36 {
            Biome::JungleHills
        } else if i == 37 {
            Biome::LukewarmOcean
        } else if i == 38 {
            Biome::ModifiedBadlandsPlateau
        } else if i == 39 {
            Biome::ModifiedGravellyMountains
        } else if i == 40 {
            Biome::ModifiedJungle
        } else if i == 41 {
            Biome::ModifiedJungleEdge
        } else if i == 42 {
            Biome::ModifiedWoodedBadlandsPlateau
        } else if i == 43 {
            Biome::MountainEdge
        } else if i == 44 {
            Biome::Mountains
        } else if i == 45 {
            Biome::MushroomFieldShore
        } else if i == 46 {
            Biome::MushroomFields
        } else if i == 47 {
            Biome::NetherWastes
        } else if i == 48 {
            Biome::Ocean
        } else if i == 49 {
            Biome::Plains
        } else if i == 50 {
            Biome::River
        } else if i == 51 {
            Biome::Savanna
        } else if i == 52 {
            Biome::SavannaPlateau
        } else if i == 53 {
            Biome::ShatteredSavanna
        } else if i == 54 {
            Biome::ShatteredSavannaPlateau
        } else if i == 55 {
            Biome::SmallEndIslands
        } else if i == 56 {
            Biome::SnowyBeach
        } else if i == 57 {
            Biome::SnowyMountains
        } else if i == 58 {
            Biome::SnowyTaiga
        } else if i == 59 {
            Biome::SnowyTaigaHills
        } else if i == 60 {
            Biome::SnowyTaigaMountains
        } else if i == 61 {
            Biome::SnowyTundra
        } else if i == 62 {
            Biome::SoulSandValley
        } else if i == 63 {
            Biome::StoneShore
        } else if i == 64 {
            Biome::SunflowerPlains
        } else if i == 65 {
            Biome::Swamp
        } else if i == 66 {
            Biome::SwampHills
        } else if i == 67 {
            Biome::Taiga
        } else if i == 68 {
            Biome::TaigaHills
        } else if i == 69 {
            Biome::TaigaMountains
        } else if i == 70 {
            Biome::TallBirchForest
        } else if i == 71 {
            Biome::TallBirchHills
        } else if i == 72 {
            Biome::TheEnd
        } else if i == 73 {
            Biome::TheVoid
        } else if i == 74 {
            Biome::WarmOcean
        } else if i == 75 {
            Biome::WarpedForest
        } else if i == 76 {
            Biome::WoodedBadlandsPlateau
        } else if i == 77 {
            Biome::WoodedHills
        } else {
            Biome::WoodedMountains
        }
    }

    /// The canonical name of the biome: the text by which a prediction
    /// names it, and by which results are ordered.
    pub open spec fn name_spec(self) -> Seq<char> {
        match self {
            Biome::Badlands => "Badlands"@,
            Biome::BadlandsPlateau => "Badlands Plateau"@,
            Biome::BambooJungle => "Bamboo Jungle"@,
            Biome::BambooJungleHills => "Bamboo Jungle Hills"@,
            Biome::BasaltDeltas => "Basalt Deltas"@,
            Biome::Beach => "Beach"@,
            Biome::BirchForest => "Birch Forest"@,
            Biome::BirchForestHills => "Birch Forest Hills"@,
            Biome::ColdOcean => "Cold Ocean"@,
            Biome::CrimsonForest => "Crimson Forest"@,
            Biome::DarkForest => "Dark Forest"@,
            Biome::DarkForestHills => "Dark Forest Hills"@,
            Biome::DeepColdOcean => "Deep Cold Ocean"@,
            Biome::DeepFrozenOcean => "Deep Frozen Ocean"@,
            Biome::DeepLukewarmOcean => "Deep Lukewarm Ocean"@,
            Biome::DeepOcean => "Deep Ocean"@,
            Biome::DeepWarmOcean => "Deep Warm Ocean"@,
            Biome::Desert => "Desert"@,
            Biome::DesertHills => "Desert Hills"@,
            Biome::DesertLakes => "Desert Lakes"@,
            Biome::EndBarrens => "End Barrens"@,
            Biome::EndHighlands => "End Highlands"@,
            Biome::EndMidlands => "End Midlands"@,
            Biome::ErodedBadlands => "Eroded Badlands"@,
            Biome::FlowerForest => "Flower Forest"@,
            Biome::Forest => "Forest"@,
            Biome::FrozenOcean => "Frozen Ocean"@,
            Biome::FrozenRiver => "Frozen River"@,
            Biome::GiantSpruceTaiga => "Giant Spruce Taiga"@,
            Biome::GiantSpruceTaigaHills => "Giant Spruce Taiga Hills"@,
            Biome::GiantTreeTaiga => "Giant Tree Taiga"@,
            Biome::GiantTreeTaigaHills => "Giant Tree Taiga Hills"@,
            Biome::GravellyMountains => "Gravelly Mountains"@,
            Biome::IceSpikes => "Ice Spikes"@,
            Biome::Jungle => "Jungle"@,
            Biome::JungleEdge => "Jungle Edge"@,
            Biome::JungleHills => "Jungle Hills"@,
            Biome::LukewarmOcean => "Lukewarm Ocean"@,
            Biome::ModifiedBadlandsPlateau => "Modified Badlands Plateau"@,
            Biome::ModifiedGravellyMountains => "Modified Gravelly Mountains"@,
            Biome::ModifiedJungle => "Modified Jungle"@,
            Biome::ModifiedJungleEdge => "Modified Jungle Edge"@,
            Biome::ModifiedWoodedBadlandsPlateau => "Modified Wooded Badlands Plateau"@,
            Biome::MountainEdge => "Mountain Edge"@,
            Biome::Mountains => "Mountains"@,
            Biome::MushroomFieldShore => "Mushroom Field Shore"@,
            Biome::MushroomFields => "Mushroom Fields"@,
            Biome::NetherWastes => "Nether Wastes"@,
            Biome::Ocean => "Ocean"@,
            Biome::Plains => "Plains"@,
            Biome::River => "River"@,
            Biome::Savanna => "Savanna"@,
            Biome::SavannaPlateau => "Savanna Plateau"@,
            Biome::ShatteredSavanna => "Shattered Savanna"@,
            Biome::ShatteredSavannaPlateau => "Shattered Savanna Plateau"@,
            Biome::SmallEndIslands => "Small End Islands"@,
            Biome::SnowyBeach => "Snowy Beach"@,
            Biome::SnowyMountains => "Snowy Mountains"@,
            Biome::SnowyTaiga => "Snowy Taiga"@,
            Biome::SnowyTaigaHills => "Snowy Taiga Hills"@,
            Biome::SnowyTaigaMountains => "Snowy Taiga Mountains"@,
            Biome::SnowyTundra => "Snowy Tundra"@,
            Biome::SoulSandValley => "Soul Sand Valley"@,
            Biome::StoneShore => "Stone Shore"@,
            Biome::SunflowerPlains => "Sunflower Plains"@,
            Biome::Swamp => "Swamp"@,
            Biome::SwampHills => "Swamp Hills"@,
            Biome::Taiga => "Taiga"@,
            Biome::TaigaHills => "Taiga Hills"@,
            Biome::TaigaMountains => "Taiga Mountains"@,
            Biome::TallBirchForest => "Tall Birch Forest"@,
            Biome::TallBirchHills => "Tall Birch Hills"@,
            Biome::TheEnd => "The End"@,
            Biome::TheVoid => "The Void"@,
            Biome::WarmOcean => "Warm Ocean"@,
            Biome::WarpedForest => "Warped Forest"@,
            Biome::WoodedBadlandsPlateau => "Wooded Badlands Plateau"@,
            Biome::WoodedHills => "Wooded Hills"@,
            Biome::WoodedMountains => "Wooded Mountains"@,
        }
    }

    pub fn index(self) -> (i: usize)
        ensures
            i == self.ordinal(),
            i < BIOME_COUNT,
    {
        match self {
            Biome::Badlands => 0,
            Biome::BadlandsPlateau => 1,
            Biome::BambooJungle => 2,
            Biome::BambooJungleHills => 3,
            Biome::BasaltDeltas => 4,
            Biome::Beach => 5,
            Biome::BirchForest => 6,
            Biome::BirchForestHills => 7,
            Biome::ColdOcean => 8,
            Biome::CrimsonForest => 9,
            Biome::DarkForest => 10,
            Biome::DarkForestHills => 11,
            Biome::DeepColdOcean => 12,
            Biome::DeepFrozenOcean => 13,
            Biome::DeepLukewarmOcean => 14,
            Biome::DeepOcean => 15,
            Biome::DeepWarmOcean => 16,
            Biome::Desert => 17,
            Biome::DesertHills => 18,
            Biome::DesertLakes => 19,
            Biome::EndBarrens => 20,
            Biome::EndHighlands => 21,
            Biome::EndMidlands => 22,
            Biome::ErodedBadlands => 23,
            Biome::FlowerForest => 24,
            Biome::Forest => 25,
            Biome::FrozenOcean => 26,
            Biome::FrozenRiver => 27,
            Biome::GiantSpruceTaiga => 28,
            Biome::GiantSpruceTaigaHills => 29,
            Biome::GiantTreeTaiga => 30,
            Biome::GiantTreeTaigaHills => 31,
            Biome::GravellyMountains => 32,
            Biome::IceSpikes => 33,
            Biome::Jungle => 34,
            Biome::JungleEdge => 35,
            Biome::JungleHills => 36,
            Biome::LukewarmOcean => 37,
            Biome::ModifiedBadlandsPlateau => 38,
            Biome::ModifiedGravellyMountains => 39,
            Biome::ModifiedJungle => 40,
            Biome::ModifiedJungleEdge => 41,
            Biome::ModifiedWoodedBadlandsPlateau => 42,
            Biome::MountainEdge => 43,
            Biome::Mountains => 44,
            Biome::MushroomFieldShore => 45,
            Biome::MushroomFields => 46,
            Biome::NetherWastes => 47,
            Biome::Ocean => 48,
            Biome::Plains => 49,
            Biome::River => 50,
            Biome::Savanna => 51,
            Biome::SavannaPlateau => 52,
            Biome::ShatteredSavanna => 53,
            Biome::ShatteredSavannaPlateau => 54,
            Biome::SmallEndIslands => 55,
            Biome::SnowyBeach => 56,
            Biome::SnowyMountains => 57,
            Biome::SnowyTaiga => 58,
            Biome::SnowyTaigaHills => 59,
            Biome::SnowyTaigaMountains => 60,
            Biome::SnowyTundra => 61,
            Biome::SoulSandValley => 62,
            Biome::StoneShore => 63,
            Biome::SunflowerPlains => 64,
            Biome::Swamp => 65,
            Biome::SwampHills => 66,
            Biome::Taiga => 67,
            Biome::TaigaHills => 68,
            Biome::TaigaMountains => 69,
            Biome::TallBirchForest => 70,
            Biome::TallBirchHills => 71,
            Biome::TheEnd => 72,
            Biome::TheVoid => 73,
            Biome::WarmOcean => 74,
            Biome::WarpedForest => 75,
            Biome::WoodedBadlandsPlateau => 76,
            Biome::WoodedHills => 77,
            Biome::WoodedMountains => 78,
        }
    }

    pub fn from_index(i: usize) -> (biome: Option<Biome>)
        ensures
            i < BIOME_COUNT ==> biome == Some(Biome::at(i as int)),
            i >= BIOME_COUNT ==> biome is None,
    {
        match i {
            0 => Some(Biome::Badlands),
            1 => Some(Biome::BadlandsPlateau),
            2 => Some(Biome::BambooJungle),
            3 => Some(Biome::BambooJungleHills),
            4 => Some(Biome::BasaltDeltas),
            5 => Some(Biome::Beach),
            6 => Some(Biome::BirchForest),
            7 => Some(Biome::BirchForestHills),
            8 => Some(Biome::ColdOcean),
            9 => Some(Biome::CrimsonForest),
            10 => Some(Biome::DarkForest),
            11 => Some(Biome::DarkForestHills),
            12 => Some(Biome::DeepColdOcean),
            13 => Some(Biome::DeepFrozenOcean),
            14 => Some(Biome::DeepLukewarmOcean),
            15 => Some(Biome::DeepOcean),
            16 => Some(Biome::DeepWarmOcean),
            17 => Some(Biome::Desert),
            18 => Some(Biome::DesertHills),
            19 => Some(Biome::DesertLakes),
            20 => Some(Biome::EndBarrens),
            21 => Some(Biome::EndHighlands),
            22 => Some(Biome::EndMidlands),
            23 => Some(Biome::ErodedBadlands),
            24 => Some(Biome::FlowerForest),
            25 => Some(Biome::Forest),
            26 => Some(Biome::FrozenOcean),
            27 => Some(Biome::FrozenRiver),
            28 => Some(Biome::GiantSpruceTaiga),
            29 => Some(Biome::GiantSpruceTaigaHills),
            30 => Some(Biome::GiantTreeTaiga),
            31 => Some(Biome::GiantTreeTaigaHills),
            32 => Some(Biome::GravellyMountains),
            33 => Some(Biome::IceSpikes),
            34 => Some(Biome::Jungle),
            35 => Some(Biome::JungleEdge),
            36 => Some(Biome::JungleHills),
            37 => Some(Biome::LukewarmOcean),
            38 => Some(Biome::ModifiedBadlandsPlateau),
            39 => Some(Biome::ModifiedGravellyMountains),
            40 => Some(Biome::ModifiedJungle),
            41 => Some(Biome::ModifiedJungleEdge),
            42 => Some(Biome::ModifiedWoodedBadlandsPlateau),
            43 => Some(Biome::MountainEdge),
            44 => Some(Biome::Mountains),
            45 => Some(Biome::MushroomFieldShore),
            46 => Some(Biome::MushroomFields),
            47 => Some(Biome::NetherWastes),
            48 => Some(Biome::Ocean),
            49 => Some(Biome::Plains),
            50 => Some(Biome::River),
            51 => Some(Biome::Savanna),
            52 => Some(Biome::SavannaPlateau),
            53 => Some(Biome::ShatteredSavanna),
            54 => Some(Biome::ShatteredSavannaPlateau),
            55 => Some(Biome::SmallEndIslands),
            56 => Some(Biome::SnowyBeach),
            57 => Some(Biome::SnowyMountains),
            58 => Some(Biome::SnowyTaiga),
            59 => Some(Biome::SnowyTaigaHills),
            60 => Some(Biome::SnowyTaigaMountains),
            61 => Some(Biome::SnowyTundra),
            62 => Some(Biome::SoulSandValley),
            63 => Some(Biome::StoneShore),
            64 => Some(Biome::SunflowerPlains),
            65 => Some(Biome::Swamp),
            66 => Some(Biome::SwampHills),
            67 => Some(Biome::Taiga),
            68 => Some(Biome::TaigaHills),
            69 => Some(Biome::TaigaMountains),
            70 => Some(Biome::TallBirchForest),
            71 => Some(Biome::TallBirchHills),
            72 => Some(Biome::TheEnd),
            73 => Some(Biome::TheVoid),
            74 => Some(Biome::WarmOcean),
            75 => Some(Biome::WarpedForest),
            76 => Some(Biome::WoodedBadlandsPlateau),
            77 => Some(Biome::WoodedHills),
            78 => Some(Biome::WoodedMountains),
            _ => None,
        }
    }

    pub fn name(self) -> (text: &'static str)
        ensures
            text@ == self.name_spec(),
    {
        match self {
            Biome::Badlands => "Badlands",
            Biome::BadlandsPlateau => "Badlands Plateau",
            Biome::BambooJungle => "Bamboo Jungle",
            Biome::BambooJungleHills => "Bamboo Jungle Hills",
            Biome::BasaltDeltas => "Basalt Deltas",
            Biome::Beach => "Beach",
            Biome::BirchForest => "Birch Forest",
            Biome::BirchForestHills => "Birch Forest Hills",
            Biome::ColdOcean => "Cold Ocean",
            Biome::CrimsonForest => "Crimson Forest",
            Biome::DarkForest => "Dark Forest",
            Biome::DarkForestHills => "Dark Forest Hills",
            Biome::DeepColdOcean => "Deep Cold Ocean",
            Biome::DeepFrozenOcean => "Deep Frozen Ocean",
            Biome::DeepLukewarmOcean => "Deep Lukewarm Ocean",
            Biome::DeepOcean => "Deep Ocean",
            Biome::DeepWarmOcean => "Deep Warm Ocean",
            Biome::Desert => "Desert",
            Biome::DesertHills => "Desert Hills",
            Biome::DesertLakes => "Desert Lakes",
            Biome::EndBarrens => "End Barrens",
            Biome::EndHighlands => "End Highlands",
            Biome::EndMidlands => "End Midlands",
            Biome::ErodedBadlands => "Eroded Badlands",
            Biome::FlowerForest => "Flower Forest",
            Biome::Forest => "Forest",
            Biome::FrozenOcean => "Frozen Ocean",
            Biome::FrozenRiver => "Frozen River",
            Biome::GiantSpruceTaiga => "Giant Spruce Taiga",
            Biome::GiantSpruceTaigaHills => "Giant Spruce Taiga Hills",
            Biome::GiantTreeTaiga => "Giant Tree Taiga",
            Biome::GiantTreeTaigaHills => "Giant Tree Taiga Hills",
            Biome::GravellyMountains => "Gravelly Mountains",
            Biome::IceSpikes => "Ice Spikes",
            Biome::Jungle => "Jungle",
            Biome::JungleEdge => "Jungle Edge",
            Biome::JungleHills => "Jungle Hills",
            Biome::LukewarmOcean => "Lukewarm Ocean",
            Biome::ModifiedBadlandsPlateau => "Modified Badlands Plateau",
            Biome::ModifiedGravellyMountains => "Modified Gravelly Mountains",
            Biome::ModifiedJungle => "Modified Jungle",
            Biome::ModifiedJungleEdge => "Modified Jungle Edge",
            Biome::ModifiedWoodedBadlandsPlateau => "Modified Wooded Badlands Plateau",
            Biome::MountainEdge => "Mountain Edge",
            Biome::Mountains => "Mountains",
            Biome::MushroomFieldShore => "Mushroom Field Shore",
            Biome::MushroomFields => "Mushroom Fields",
            Biome::NetherWastes => "Nether Wastes",
            Biome::Ocean => "Ocean",
            Biome::Plains => "Plains",
            Biome::River => "River",
            Biome::Savanna => "Savanna",
            Biome::SavannaPlateau => "Savanna Plateau",
            Biome::ShatteredSavanna => "Shattered Savanna",
            Biome::ShatteredSavannaPlateau => "Shattered Savanna Plateau",
            Biome::SmallEndIslands => "Small End Islands",
            Biome::SnowyBeach => "Snowy Beach",
            Biome::SnowyMountains => "Snowy Mountains",
            Biome::SnowyTaiga => "Snowy Taiga",
            Biome::SnowyTaigaHills => "Snowy Taiga Hills",
            Biome::SnowyTaigaMountains => "Snowy Taiga Mountains",
            Biome::SnowyTundra => "Snowy Tundra",
            Biome::SoulSandValley => "Soul Sand Valley",
            Biome::StoneShore => "Stone Shore",
            Biome::SunflowerPlains => "Sunflower Plains",
            Biome::Swamp => "Swamp",
            Biome::SwampHills => "Swamp Hills",
            Biome::Taiga => "Taiga",
            Biome::TaigaHills => "Taiga Hills",
            Biome::TaigaMountains => "Taiga Mountains",
            Biome::TallBirchForest => "Tall Birch Forest",
            Biome::TallBirchHills => "Tall Birch Hills",
            Biome::TheEnd => "The End",
            Biome::TheVoid => "The Void",
            Biome::WarmOcean => "Warm Ocean",
            Biome::WarpedForest => "Warped Forest",
            Biome::WoodedBadlandsPlateau => "Wooded Badlands Plateau",
            Biome::WoodedHills => "Wooded Hills",
            Biome::WoodedMountains => "Wooded Mountains",
        }
    }

    /// The biome that `name` names, if there is one.
    pub fn from_name(name: &str) -> (biome: Option<Biome>)
        ensures
            forall|b: Biome| biome == Some(b) <==> b.name_spec() == name@,
    {
        let mut i: usize = 0;
        while i < BIOME_COUNT
            invariant
                i <= BIOME_COUNT,
                forall|j: int| 0 <= j < i ==> (#[trigger] Biome::at(j)).name_spec() != name@,
            decreases BIOME_COUNT - i,
        {
            match Biome::from_index(i) {
                Some(b) => {
                    if same_text(name, b.name()) {
                        proof {
                            assert forall|other: Biome| other.name_spec() == name@ implies other
                                == b by {
                                names_are_distinct(other, b);
                            }
                        }
                        return Some(b);
                    }
                },
                None => {},
            }
            i += 1;
        }
        proof {
            assert forall|b: Biome| b.name_spec() != name@ by {
                ordinal_roundtrip(b);
                assert(Biome::at(b.ordinal()).name_spec() != name@);
            }
        }
        None
    }
}

/// `str`'s `==`: whether two strings hold the same characters in the same
/// order.
#[verifier::external_body]
fn same_text(a: &str, b: &str) -> (same: bool)
    ensures
        same == (a@ == b@),
{
    a == b
}

/// Every biome stands at exactly one position of the enumeration.
pub proof fn ordinal_roundtrip(b: Biome)
    ensures
        0 <= b.ordinal() < BIOME_COUNT,
        Biome::at(b.ordinal()) == b,
{
}

/// Every position of the enumeration holds exactly one biome.
pub proof fn position_roundtrip(i: int)
    requires
        0 <= i < BIOME_COUNT,
    ensures
        Biome::at(i).ordinal() == i,
{
}

/// No two biomes share a name.
pub proof fn names_are_distinct(a: Biome, b: Biome)
    ensures
        a.name_spec() == b.name_spec() ==> a == b,
{
    reveal_strlit("Badlands");
    reveal_strlit("Badlands Plateau");
    reveal_strlit("Bamboo Jungle");
    reveal_strlit("Bamboo Jungle Hills");
    reveal_strlit("Basalt Deltas");
    reveal_strlit("Beach");
    reveal_strlit("Birch Forest");
    reveal_strlit("Birch Forest Hills");
    reveal_strlit("Cold Ocean");
    reveal_strlit("Crimson Forest");
    reveal_strlit("Dark Forest");
    reveal_strlit("Dark Forest Hills");
    reveal_strlit("Deep Cold Ocean");
    reveal_strlit("Deep Frozen Ocean");
    reveal_strlit("Deep Lukewarm Ocean");
    reveal_strlit("Deep Ocean");
    reveal_strlit("Deep Warm Ocean");
    reveal_strlit("Desert");
    reveal_strlit("Desert Hills");
    reveal_strlit("Desert Lakes");
    reveal_strlit("End Barrens");
    reveal_strlit("End Highlands");
    reveal_strlit("End Midlands");
    reveal_strlit("Eroded Badlands");
    reveal_strlit("Flower Forest");
    reveal_strlit("Forest");
    reveal_strlit("Frozen Ocean");
    reveal_strlit("Frozen River");
    reveal_strlit("Giant Spruce Taiga");
    reveal_strlit("Giant Spruce Taiga Hills");
    reveal_strlit("Giant Tree Taiga");
    reveal_strlit("Giant Tree Taiga Hills");
    reveal_strlit("Gravelly Mountains");
    reveal_strlit("Ice Spikes");
    reveal_strlit("Jungle");
    reveal_strlit("Jungle Edge");
    reveal_strlit("Jungle Hills");
    reveal_strlit("Lukewarm Ocean");
    reveal_strlit("Modified Badlands Plateau");
    reveal_strlit("Modified Gravelly Mountains");
    reveal_strlit("Modified Jungle");
    reveal_strlit("Modified Jungle Edge");
    reveal_strlit("Modified Wooded Badlands Plateau");
    reveal_strlit("Mountain Edge");
    reveal_strlit("Mountains");
    reveal_strlit("Mushroom Field Shore");
    reveal_strlit("Mushroom Fields");
    reveal_strlit("Nether Wastes");
    reveal_strlit("Ocean");
    reveal_strlit("Plains");
    reveal_strlit("River");
    reveal_strlit("Savanna");
    reveal_strlit("Savanna Plateau");
    reveal_strlit("Shattered Savanna");
    reveal_strlit("Shattered Savanna Plateau");
    reveal_strlit("Small End Islands");
    reveal_strlit("Snowy Beach");
    reveal_strlit("Snowy Mountains");
    reveal_strlit("Snowy Taiga");
    reveal_strlit("Snowy Taiga Hills");
    reveal_strlit("Snowy Taiga Mountains");
    reveal_strlit("Snowy Tundra");
    reveal_strlit("Soul Sand Valley");
    reveal_strlit("Stone Shore");
    reveal_strlit("Sunflower Plains");
    reveal_strlit("Swamp");
    reveal_strlit("Swamp Hills");
    reveal_strlit("Taiga");
    reveal_strlit("Taiga Hills");
    reveal_strlit("Taiga Mountains");
    reveal_strlit("Tall Birch Forest");
    reveal_strlit("Tall Birch Hills");
    reveal_strlit("The End");
    reveal_strlit("The Void");
    reveal_strlit("Warm Ocean");
    reveal_strlit("Warped Forest");
    reveal_strlit("Wooded Badlands Plateau");
    reveal_strlit("Wooded Hills");
    reveal_strlit("Wooded Mountains");
    // Two names of the same length that agree in the first character, in
    // the last but one and, where they are long enough, in the sixth are the
    // same name.
    let s = a.name_spec();
    let t = b.name_spec();
    if s == t {
        assert(s.len() == t.len());
        assert(s[0] == t[0]);
        assert(s[5] == t[5]);
        assert(s[s.len() - 2] == t[t.len() - 2]);
    }
}

} // verus!
