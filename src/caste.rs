//! Castes: the sub-groups of a creature, each with its own flags and fields.
use vstd::prelude::*;

use crate::fields::{
    body_size_from, empty_name, empty_sing_plur, empty_tile, milkable_from, name_from,
    no_milk, parse_min_max_range, range_from, sing_plur_from, zero_range, BodySize, Milkable,
    MilkableModel, MinMax, Name, NameModel, SingPlurModel, SingPlurName, Tile, TileModel,
};
use crate::fields::copy_strings;
use crate::lists::{copy_vec, merged};
use crate::text::{parse_unsigned, parse_unsigned_str, str_eq, views_of};

verus! {

broadcast use vstd::seq_lib::group_seq_properties, vstd::seq::Seq::lemma_filter_push;

/// A tag of the caste vocabulary: a flag, or a field with bespoke handling.
#[derive(Clone, Copy, Debug, PartialEq, Eq, Hash, Structural)]
pub enum CasteTag {
    Description,
    EggSize,
    Baby,
    Child,
    Difficulty,
    Grazer,
    GrassTrample,
    LowLightVision,
    PopRatio,
    PetValue,
    ClutchSize,
    LitterSize,
    MaxAge,
    CreatureClass,
    BodySize,
    Milkable,
    BabyName,
    CasteName,
    ChildName,
    CasteTile,
    CasteAltTile,
    CasteColor,
    CasteGlowTile,
    CasteGlowColor,
    ChangeBodySizePercent,
    LaysEggs,
    AdoptsOwner,
    AmbushPredator,
    Amphibious,
    Aquatic,
    ArenaRestricted,
    AtPeaceWithWildlife,
    Benign,
    BoneCarn,
    CanLearn,
    CanSpeak,
    Carnivore,
    CommonDomestic,
    CookableLive,
    Demon,
    Equips,
    Extravision,
    FeatureBeast,
    Female,
    FireImmune,
    Flier,
    Gnawer,
    HasNerves,
    HuntsVermin,
    Immobile,
    Intelligent,
    LightGen,
    LockPicker,
    MagmaVision,
    Male,
    Megabeast,
    Mischievous,
    Mount,
    NoDrink,
    NoEat,
    NoSleep,
    NoBreathe,
    NoFear,
    NoPain,
    NotLiving,
    OutsiderControllable,
    PackAnimal,
    Pet,
    PetExotic,
    Power,
    SemiMegabeast,
    SlowLearner,
    StandardGrazer,
    Supernatural,
    SwimsInnate,
    Titan,
    Trances,
    TrapAvoid,
    Vegetation,
    WagonPuller,
    WebImmune,
    AllActive,
    Diurnal,
    Crepuscular,
    Matutinal,
    Vespertine,
    Nocturnal,
    CuriousBeastEater,
    CuriousBeastGuzzler,
    CuriousBeastItem,
    NoSpring,
    NoSummer,
    NoAutumn,
    NoWinter,
    TrainableHunting,
    TrainableWar,
    Trainable,
    DieWhenVerminBite,
    FireImmuneSuper,
    FishItem,
    ImmobileLand,
    Immolate,
    Meanderer,
    MountExotic,
    MultipartFullVision,
    MultipleLitterRare,
    Natural,
    NoConnectionsForMovement,
    NoDizziness,
    NoFevers,
    NoGender,
    NoBones,
    NoEmotion,
    NoExert,
    NoMeat,
    NoNausea,
    NoSkin,
    NoSkull,
    NoSmellyRot,
    NoStuckIns,
    NoStun,
    NotButcherable,
    NoThought,
    OpposedToLife,
    ParalyzeImmune,
    SmallRemains,
    SwimsLearned,
    ThickWeb,
    UniqueDemon,
    VerminHateable,
    VerminMicro,
    VerminNoFish,
    VerminNoRoam,
    VerminNoTrap,
}

/// The caste vocabulary: the tag that a key names, if any.
pub open spec fn caste_tag_of(key: Seq<char>) -> Option<CasteTag> {
    if key == "DESCRIPTION"@ {
        Some(CasteTag::Description)
    } else if key == "EGG_SIZE"@ {
        Some(CasteTag::EggSize)
    } else if key == "BABY"@ {
        Some(CasteTag::Baby)
    } else if key == "CHILD"@ {
        Some(CasteTag::Child)
    } else if key == "DIFFICULTY"@ {
        Some(CasteTag::Difficulty)
    } else if key == "GRAZER"@ {
        Some(CasteTag::Grazer)
    } else if key == "GRASSTRAMPLE"@ {
        Some(CasteTag::GrassTrample)
    } else if key == "LOW_LIGHT_VISION"@ {
        Some(CasteTag::LowLightVision)
    } else if key == "POP_RATIO"@ {
        Some(CasteTag::PopRatio)
    } else if key == "PETVALUE"@ {
        Some(CasteTag::PetValue)
    } else if key == "CLUTCH_SIZE"@ {
        Some(CasteTag::ClutchSize)
    } else if key == "LITTERSIZE"@ {
        Some(CasteTag::LitterSize)
    } else if key == "MAXAGE"@ {
        Some(CasteTag::MaxAge)
    } else if key == "CREATURE_CLASS"@ {
        Some(CasteTag::CreatureClass)
    } else if key == "BODY_SIZE"@ {
        Some(CasteTag::BodySize)
    } else if key == "MILKABLE"@ {
        Some(CasteTag::Milkable)
    } else if key == "BABYNAME"@ {
        Some(CasteTag::BabyName)
    } else if key == "CASTE_NAME"@ {
        Some(CasteTag::CasteName)
    } else if key == "CHILDNAME"@ {
        Some(CasteTag::ChildName)
    } else if key == "CASTE_TILE"@ {
        Some(CasteTag::CasteTile)
    } else if key == "CASTE_ALTTILE"@ {
        Some(CasteTag::CasteAltTile)
    } else if key == "CASTE_COLOR"@ {
        Some(CasteTag::CasteColor)
    } else if key == "CASTE_GLOWTILE"@ {
        Some(CasteTag::CasteGlowTile)
    } else if key == "CASTE_GLOWCOLOR"@ {
        Some(CasteTag::CasteGlowColor)
    } else if key == "CHANGE_BODY_SIZE_PERC"@ {
        Some(CasteTag::ChangeBodySizePercent)
    } else if key == "LAYS_EGGS"@ {
        Some(CasteTag::LaysEggs)
    } else if key == "ADOPTS_OWNER"@ {
        Some(CasteTag::AdoptsOwner)
    } else if key == "AMBUSHPREDATOR"@ {
        Some(CasteTag::AmbushPredator)
    } else if key == "AMBUSH_PREDATOR"@ {
        Some(CasteTag::AmbushPredator)
    } else if key == "AMPHIBIOUS"@ {
        Some(CasteTag::Amphibious)
    } else if key == "AQUATIC"@ {
        Some(CasteTag::Aquatic)
    } else if key == "ARENA_RESTRICTED"@ {
        Some(CasteTag::ArenaRestricted)
    } else if key == "AT_PEACE_WITH_WILDLIFE"@ {
        Some(CasteTag::AtPeaceWithWildlife)
    } else if key == "BENIGN"@ {
        Some(CasteTag::Benign)
    } else if key == "BONECARN"@ {
        Some(CasteTag::BoneCarn)
    } else if key == "CAN_LEARN"@ {
        Some(CasteTag::CanLearn)
    } else if key == "CAN_SPEAK"@ {
        Some(CasteTag::CanSpeak)
    } else if key == "CARNIVORE"@ {
        Some(CasteTag::Carnivore)
    } else if key == "COMMON_DOMESTIC"@ {
        Some(CasteTag::CommonDomestic)
    } else if key == "COOKABLE_LIVE"@ {
        Some(CasteTag::CookableLive)
    } else if key == "DEMON"@ {
        Some(CasteTag::Demon)
    } else if key == "EQUIPS"@ {
        Some(CasteTag::Equips)
    } else if key == "EXTRAVISION"@ {
        Some(CasteTag::Extravision)
    } else if key == "FEATURE_BEAST"@ {
        Some(CasteTag::FeatureBeast)
    } else if key == "FEMALE"@ {
        Some(CasteTag::Female)
    } else if key == "FIREIMMUNE"@ {
        Some(CasteTag::FireImmune)
    } else if key == "FLIER"@ {
        Some(CasteTag::Flier)
    } else if key == "GNAWER"@ {
        Some(CasteTag::Gnawer)
    } else if key == "HAS_NERVES"@ {
        Some(CasteTag::HasNerves)
    } else if key == "HUNTS_VERMIN"@ {
        Some(CasteTag::HuntsVermin)
    } else if key == "IMMOBILE"@ {
        Some(CasteTag::Immobile)
    } else if key == "INTELLIGENT"@ {
        Some(CasteTag::Intelligent)
    } else if key == "LIGHT_GEN"@ {
        Some(CasteTag::LightGen)
    } else if key == "LOCKPICKER"@ {
        Some(CasteTag::LockPicker)
    } else if key == "MAGMA_VISION"@ {
        Some(CasteTag::MagmaVision)
    } else if key == "MALE"@ {
        Some(CasteTag::Male)
    } else if key == "MEGABEAST"@ {
        Some(CasteTag::Megabeast)
    } else if key == "MISCHIEVIOUS"@ {
        Some(CasteTag::Mischievous)
    } else if key == "MISCHIEVOUS"@ {
        Some(CasteTag::Mischievous)
    } else if key == "MOUNT"@ {
        Some(CasteTag::Mount)
    } else if key == "NO_DRINK"@ {
        Some(CasteTag::NoDrink)
    } else if key == "NO_EAT"@ {
        Some(CasteTag::NoEat)
    } else if key == "NO_SLEEP"@ {
        Some(CasteTag::NoSleep)
    } else if key == "NOBREATHE"@ {
        Some(CasteTag::NoBreathe)
    } else if key == "NOFEAR"@ {
        Some(CasteTag::NoFear)
    } else if key == "NOPAIN"@ {
        Some(CasteTag::NoPain)
    } else if key == "NOT_LIVING"@ {
        Some(CasteTag::NotLiving)
    } else if key == "OUTSIDER_CONTROLLABLE"@ {
        Some(CasteTag::OutsiderControllable)
    } else if key == "PACK_ANIMAL"@ {
        Some(CasteTag::PackAnimal)
    } else if key == "PET"@ {
        Some(CasteTag::Pet)
    } else if key == "PET_EXOTIC"@ {
        Some(CasteTag::PetExotic)
    } else if key == "POWER"@ {
        Some(CasteTag::Power)
    } else if key == "SEMIMEGABEAST"@ {
        Some(CasteTag::SemiMegabeast)
    } else if key == "SLOW_LEARNER"@ {
        Some(CasteTag::SlowLearner)
    } else if key == "STANDARD_GRAZER"@ {
        Some(CasteTag::StandardGrazer)
    } else if key == "SUPERNATURAL"@ {
        Some(CasteTag::Supernatural)
    } else if key == "SWIMS_INNATE"@ {
        Some(CasteTag::SwimsInnate)
    } else if key == "TITAN"@ {
        Some(CasteTag::Titan)
    } else if key == "TRANCES"@ {
        Some(CasteTag::Trances)
    } else if key == "TRAPAVOID"@ {
        Some(CasteTag::TrapAvoid)
    } else if key == "VEGETATION"@ {
        Some(CasteTag::Vegetation)
    } else if key == "WAGON_PULLER"@ {
        Some(CasteTag::WagonPuller)
    } else if key == "WEBIMMUNE"@ {
        Some(CasteTag::WebImmune)
    } else if key == "ALL_ACTIVE"@ {
        Some(CasteTag::AllActive)
    } else if key == "DIURNAL"@ {
        Some(CasteTag::Diurnal)
    } else if key == "CREPUSCULAR"@ {
        Some(CasteTag::Crepuscular)
    } else if key == "MATUTINAL"@ {
        Some(CasteTag::Matutinal)
    } else if key == "VESPERTINE"@ {
        Some(CasteTag::Vespertine)
    } else if key == "NOCTURNAL"@ {
        Some(CasteTag::Nocturnal)
    } else if key == "CURIOUSBEAST_EATER"@ {
        Some(CasteTag::CuriousBeastEater)
    } else if key == "CURIOUSBEAST_GUZZLER"@ {
        Some(CasteTag::CuriousBeastGuzzler)
    } else if key == "CURIOUSBEAST_ITEM"@ {
        Some(CasteTag::CuriousBeastItem)
    } else if key == "NO_SPRING"@ {
        Some(CasteTag::NoSpring)
    } else if key == "NO_SUMMER"@ {
        Some(CasteTag::NoSummer)
    } else if key == "NO_AUTUMN"@ {
        Some(CasteTag::NoAutumn)
    } else if key == "NO_WINTER"@ {
        Some(CasteTag::NoWinter)
    } else if key == "TRAINABLE_HUNTING"@ {
        Some(CasteTag::TrainableHunting)
    } else if key == "TRAINABLE_WAR"@ {
        Some(CasteTag::TrainableWar)
    } else if key == "TRAINABLE"@ {
        Some(CasteTag::Trainable)
    } else if key == "DIE_WHEN_VERMIN_BITE"@ {
        Some(CasteTag::DieWhenVerminBite)
    } else if key == "FIREIMMUNE_SUPER"@ {
        Some(CasteTag::FireImmuneSuper)
    } else if key == "FISHITEM"@ {
        Some(CasteTag::FishItem)
    } else if key == "IMMOBILE_LAND"@ {
        Some(CasteTag::ImmobileLand)
    } else if key == "IMMOLATE"@ {
        Some(CasteTag::Immolate)
    } else if key == "MEANDERER"@ {
        Some(CasteTag::Meanderer)
    } else if key == "MOUNT_EXOTIC"@ {
        Some(CasteTag::MountExotic)
    } else if key == "MULTIPART_FULL_VISION"@ {
        Some(CasteTag::MultipartFullVision)
    } else if key == "MULTIPLE_LITTER_RARE"@ {
        Some(CasteTag::MultipleLitterRare)
    } else if key == "NATURAL"@ {
        Some(CasteTag::Natural)
    } else if key == "NO_CONNECTIONS_FOR_MOVEMENT"@ {
        Some(CasteTag::NoConnectionsForMovement)
    } else if key == "NO_DIZZINESS"@ {
        Some(CasteTag::NoDizziness)
    } else if key == "NO_FEVERS"@ {
        Some(CasteTag::NoFevers)
    } else if key == "NO_GENDER"@ {
        Some(CasteTag::NoGender)
    } else if key == "NOBONES"@ {
        Some(CasteTag::NoBones)
    } else if key == "NOEMOTION"@ {
        Some(CasteTag::NoEmotion)
    } else if key == "NOEXERT"@ {
        Some(CasteTag::NoExert)
    } else if key == "NOMEAT"@ {
        Some(CasteTag::NoMeat)
    } else if key == "NONAUSEA"@ {
        Some(CasteTag::NoNausea)
    } else if key == "NOSKIN"@ {
        Some(CasteTag::NoSkin)
    } else if key == "NOSKULL"@ {
        Some(CasteTag::NoSkull)
    } else if key == "NOSMELLYROT"@ {
        Some(CasteTag::NoSmellyRot)
    } else if key == "NOSTUCKINS"@ {
        Some(CasteTag::NoStuckIns)
    } else if key == "NOSTUN"@ {
        Some(CasteTag::NoStun)
    } else if key == "NOT_BUTCHERABLE"@ {
        Some(CasteTag::NotButcherable)
    } else if key == "NOTHOUGHT"@ {
        Some(CasteTag::NoThought)
    } else if key == "OPPOSED_TO_LIFE"@ {
        Some(CasteTag::OpposedToLife)
    } else if key == "PARALYZEIMMUNE"@ {
        Some(CasteTag::ParalyzeImmune)
    } else if key == "SMALL_REMAINS"@ {
        Some(CasteTag::SmallRemains)
    } else if key == "SWIMS_LEARNED"@ {
        Some(CasteTag::SwimsLearned)
    } else if key == "THICKWEB"@ {
        Some(CasteTag::ThickWeb)
    } else if key == "UNIQUE_DEMON"@ {
        Some(CasteTag::UniqueDemon)
    } else if key == "VERMIN_HATEABLE"@ {
        Some(CasteTag::VerminHateable)
    } else if key == "VERMIN_MICRO"@ {
        Some(CasteTag::VerminMicro)
    } else if key == "VERMIN_NOFISH"@ {
        Some(CasteTag::VerminNoFish)
    } else if key == "VERMIN_NOROAM"@ {
        Some(CasteTag::VerminNoRoam)
    } else if key == "VERMIN_NOTRAP"@ {
        Some(CasteTag::VerminNoTrap)
    } else {
        None
    }
}

/// Looks a key up in the vocabulary that `caste_tag_of` states.
pub fn caste_tag_for(key: &str) -> (r: Option<CasteTag>)
    ensures
        r == caste_tag_of(key@),
{
    if str_eq(key, "DESCRIPTION") {
        return Some(CasteTag::Description);
    }
    if str_eq(key, "EGG_SIZE") {
        return Some(CasteTag::EggSize);
    }
    if str_eq(key, "BABY") {
        return Some(CasteTag::Baby);
    }
    if str_eq(key, "CHILD") {
        return Some(CasteTag::Child);
    }
    if str_eq(key, "DIFFICULTY") {
        return Some(CasteTag::Difficulty);
    }
    if str_eq(key, "GRAZER") {
        return Some(CasteTag::Grazer);
    }
    if str_eq(key, "GRASSTRAMPLE") {
        return Some(CasteTag::GrassTrample);
    }
    if str_eq(key, "LOW_LIGHT_VISION") {
        return Some(CasteTag::LowLightVision);
    }
    if str_eq(key, "POP_RATIO") {
        return Some(CasteTag::PopRatio);
    }
    if str_eq(key, "PETVALUE") {
        return Some(CasteTag::PetValue);
    }
    if str_eq(key, "CLUTCH_SIZE") {
        return Some(CasteTag::ClutchSize);
    }
    if str_eq(key, "LITTERSIZE") {
        return Some(CasteTag::LitterSize);
    }
    if str_eq(key, "MAXAGE") {
        return Some(CasteTag::MaxAge);
    }
    if str_eq(key, "CREATURE_CLASS") {
        return Some(CasteTag::CreatureClass);
    }
    if str_eq(key, "BODY_SIZE") {
        return Some(CasteTag::BodySize);
    }
    if str_eq(key, "MILKABLE") {
        return Some(CasteTag::Milkable);
    }
    if str_eq(key, "BABYNAME") {
        return Some(CasteTag::BabyName);
    }
    if str_eq(key, "CASTE_NAME") {
        return Some(CasteTag::CasteName);
    }
    if str_eq(key, "CHILDNAME") {
        return Some(CasteTag::ChildName);
    }
    if str_eq(key, "CASTE_TILE") {
        return Some(CasteTag::CasteTile);
    }
    if str_eq(key, "CASTE_ALTTILE") {
        return Some(CasteTag::CasteAltTile);
    }
    if str_eq(key, "CASTE_COLOR") {
        return Some(CasteTag::CasteColor);
    }
    if str_eq(key, "CASTE_GLOWTILE") {
        return Some(CasteTag::CasteGlowTile);
    }
    if str_eq(key, "CASTE_GLOWCOLOR") {
        return Some(CasteTag::CasteGlowColor);
    }
    if str_eq(key, "CHANGE_BODY_SIZE_PERC") {
        return Some(CasteTag::ChangeBodySizePercent);
    }
    if str_eq(key, "LAYS_EGGS") {
        return Some(CasteTag::LaysEggs);
    }
    if str_eq(key, "ADOPTS_OWNER") {
        return Some(CasteTag::AdoptsOwner);
    }
    if str_eq(key, "AMBUSHPREDATOR") {
        return Some(CasteTag::AmbushPredator);
    }
    if str_eq(key, "AMBUSH_PREDATOR") {
        return Some(CasteTag::AmbushPredator);
    }
    if str_eq(key, "AMPHIBIOUS") {
        return Some(CasteTag::Amphibious);
    }
    if str_eq(key, "AQUATIC") {
        return Some(CasteTag::Aquatic);
    }
    if str_eq(key, "ARENA_RESTRICTED") {
        return Some(CasteTag::ArenaRestricted);
    }
    if str_eq(key, "AT_PEACE_WITH_WILDLIFE") {
        return Some(CasteTag::AtPeaceWithWildlife);
    }
    if str_eq(key, "BENIGN") {
        return Some(CasteTag::Benign);
    }
    if str_eq(key, "BONECARN") {
        return Some(CasteTag::BoneCarn);
    }
    if str_eq(key, "CAN_LEARN") {
        return Some(CasteTag::CanLearn);
    }
    if str_eq(key, "CAN_SPEAK") {
        return Some(CasteTag::CanSpeak);
    }
    if str_eq(key, "CARNIVORE") {
        return Some(CasteTag::Carnivore);
    }
    if str_eq(key, "COMMON_DOMESTIC") {
        return Some(CasteTag::CommonDomestic);
    }
    if str_eq(key, "COOKABLE_LIVE") {
        return Some(CasteTag::CookableLive);
    }
    if str_eq(key, "DEMON") {
        return Some(CasteTag::Demon);
    }
    if str_eq(key, "EQUIPS") {
        return Some(CasteTag::Equips);
    }
    if str_eq(key, "EXTRAVISION") {
        return Some(CasteTag::Extravision);
    }
    if str_eq(key, "FEATURE_BEAST") {
        return Some(CasteTag::FeatureBeast);
    }
    if str_eq(key, "FEMALE") {
        return Some(CasteTag::Female);
    }
    if str_eq(key, "FIREIMMUNE") {
        return Some(CasteTag::FireImmune);
    }
    if str_eq(key, "FLIER") {
        return Some(CasteTag::Flier);
    }
    if str_eq(key, "GNAWER") {
        return Some(CasteTag::Gnawer);
    }
    if str_eq(key, "HAS_NERVES") {
        return Some(CasteTag::HasNerves);
    }
    if str_eq(key, "HUNTS_VERMIN") {
        return Some(CasteTag::HuntsVermin);
    }
    if str_eq(key, "IMMOBILE") {
        return Some(CasteTag::Immobile);
    }
    if str_eq(key, "INTELLIGENT") {
        return Some(CasteTag::Intelligent);
    }
    if str_eq(key, "LIGHT_GEN") {
        return Some(CasteTag::LightGen);
    }
    if str_eq(key, "LOCKPICKER") {
        return Some(CasteTag::LockPicker);
    }
    if str_eq(key, "MAGMA_VISION") {
        return Some(CasteTag::MagmaVision);
    }
    if str_eq(key, "MALE") {
        return Some(CasteTag::Male);
    }
    if str_eq(key, "MEGABEAST") {
        return Some(CasteTag::Megabeast);
    }
    if str_eq(key, "MISCHIEVIOUS") {
        return Some(CasteTag::Mischievous);
    }
    if str_eq(key, "MISCHIEVOUS") {
        return Some(CasteTag::Mischievous);
    }
    if str_eq(key, "MOUNT") {
        return Some(CasteTag::Mount);
    }
    if str_eq(key, "NO_DRINK") {
        return Some(CasteTag::NoDrink);
    }
    if str_eq(key, "NO_EAT") {
        return Some(CasteTag::NoEat);
    }
    if str_eq(key, "NO_SLEEP") {
        return Some(CasteTag::NoSleep);
    }
    if str_eq(key, "NOBREATHE") {
        return Some(CasteTag::NoBreathe);
    }
    if str_eq(key, "NOFEAR") {
        return Some(CasteTag::NoFear);
    }
    if str_eq(key, "NOPAIN") {
        return Some(CasteTag::NoPain);
    }
    if str_eq(key, "NOT_LIVING") {
        return Some(CasteTag::NotLiving);
    }
    if str_eq(key, "OUTSIDER_CONTROLLABLE") {
        return Some(CasteTag::OutsiderControllable);
    }
    if str_eq(key, "PACK_ANIMAL") {
        return Some(CasteTag::PackAnimal);
    }
    if str_eq(key, "PET") {
        return Some(CasteTag::Pet);
    }
    if str_eq(key, "PET_EXOTIC") {
        return Some(CasteTag::PetExotic);
    }
    if str_eq(key, "POWER") {
        return Some(CasteTag::Power);
    }
    if str_eq(key, "SEMIMEGABEAST") {
        return Some(CasteTag::SemiMegabeast);
    }
    if str_eq(key, "SLOW_LEARNER") {
        return Some(CasteTag::SlowLearner);
    }
    if str_eq(key, "STANDARD_GRAZER") {
        return Some(CasteTag::StandardGrazer);
    }
    if str_eq(key, "SUPERNATURAL") {
        return Some(CasteTag::Supernatural);
    }
    if str_eq(key, "SWIMS_INNATE") {
        return Some(CasteTag::SwimsInnate);
    }
    if str_eq(key, "TITAN") {
        return Some(CasteTag::Titan);
    }
    if str_eq(key, "TRANCES") {
        return Some(CasteTag::Trances);
    }
    if str_eq(key, "TRAPAVOID") {
        return Some(CasteTag::TrapAvoid);
    }
    if str_eq(key, "VEGETATION") {
        return Some(CasteTag::Vegetation);
    }
    if str_eq(key, "WAGON_PULLER") {
        return Some(CasteTag::WagonPuller);
    }
    if str_eq(key, "WEBIMMUNE") {
        return Some(CasteTag::WebImmune);
    }
    if str_eq(key, "ALL_ACTIVE") {
        return Some(CasteTag::AllActive);
    }
    if str_eq(key, "DIURNAL") {
        return Some(CasteTag::Diurnal);
    }
    if str_eq(key, "CREPUSCULAR") {
        return Some(CasteTag::Crepuscular);
    }
    if str_eq(key, "MATUTINAL") {
        return Some(CasteTag::Matutinal);
    }
    if str_eq(key, "VESPERTINE") {
        return Some(CasteTag::Vespertine);
    }
    if str_eq(key, "NOCTURNAL") {
        return Some(CasteTag::Nocturnal);
    }
    if str_eq(key, "CURIOUSBEAST_EATER") {
        return Some(CasteTag::CuriousBeastEater);
    }
    if str_eq(key, "CURIOUSBEAST_GUZZLER") {
        return Some(CasteTag::CuriousBeastGuzzler);
    }
    if str_eq(key, "CURIOUSBEAST_ITEM") {
        return Some(CasteTag::CuriousBeastItem);
    }
    if str_eq(key, "NO_SPRING") {
        return Some(CasteTag::NoSpring);
    }
    if str_eq(key, "NO_SUMMER") {
        return Some(CasteTag::NoSummer);
    }
    if str_eq(key, "NO_AUTUMN") {
        return Some(CasteTag::NoAutumn);
    }
    if str_eq(key, "NO_WINTER") {
        return Some(CasteTag::NoWinter);
    }
    if str_eq(key, "TRAINABLE_HUNTING") {
        return Some(CasteTag::TrainableHunting);
    }
    if str_eq(key, "TRAINABLE_WAR") {
        return Some(CasteTag::TrainableWar);
    }
    if str_eq(key, "TRAINABLE") {
        return Some(CasteTag::Trainable);
    }
    if str_eq(key, "DIE_WHEN_VERMIN_BITE") {
        return Some(CasteTag::DieWhenVerminBite);
    }
    if str_eq(key, "FIREIMMUNE_SUPER") {
        return Some(CasteTag::FireImmuneSuper);
    }
    if str_eq(key, "FISHITEM") {
        return Some(CasteTag::FishItem);
    }
    if str_eq(key, "IMMOBILE_LAND") {
        return Some(CasteTag::ImmobileLand);
    }
    if str_eq(key, "IMMOLATE") {
        return Some(CasteTag::Immolate);
    }
    if str_eq(key, "MEANDERER") {
        return Some(CasteTag::Meanderer);
    }
    if str_eq(key, "MOUNT_EXOTIC") {
        return Some(CasteTag::MountExotic);
    }
    if str_eq(key, "MULTIPART_FULL_VISION") {
        return Some(CasteTag::MultipartFullVision);
    }
    if str_eq(key, "MULTIPLE_LITTER_RARE") {
        return Some(CasteTag::MultipleLitterRare);
    }
    if str_eq(key, "NATURAL") {
        return Some(CasteTag::Natural);
    }
    if str_eq(key, "NO_CONNECTIONS_FOR_MOVEMENT") {
        return Some(CasteTag::NoConnectionsForMovement);
    }
    if str_eq(key, "NO_DIZZINESS") {
        return Some(CasteTag::NoDizziness);
    }
    if str_eq(key, "NO_FEVERS") {
        return Some(CasteTag::NoFevers);
    }
    if str_eq(key, "NO_GENDER") {
        return Some(CasteTag::NoGender);
    }
    if str_eq(key, "NOBONES") {
        return Some(CasteTag::NoBones);
    }
    if str_eq(key, "NOEMOTION") {
        return Some(CasteTag::NoEmotion);
    }
    if str_eq(key, "NOEXERT") {
        return Some(CasteTag::NoExert);
    }
    if str_eq(key, "NOMEAT") {
        return Some(CasteTag::NoMeat);
    }
    if str_eq(key, "NONAUSEA") {
        return Some(CasteTag::NoNausea);
    }
    if str_eq(key, "NOSKIN") {
        return Some(CasteTag::NoSkin);
    }
    if str_eq(key, "NOSKULL") {
        return Some(CasteTag::NoSkull);
    }
    if str_eq(key, "NOSMELLYROT") {
        return Some(CasteTag::NoSmellyRot);
    }
    if str_eq(key, "NOSTUCKINS") {
        return Some(CasteTag::NoStuckIns);
    }
    if str_eq(key, "NOSTUN") {
        return Some(CasteTag::NoStun);
    }
    if str_eq(key, "NOT_BUTCHERABLE") {
        return Some(CasteTag::NotButcherable);
    }
    if str_eq(key, "NOTHOUGHT") {
        return Some(CasteTag::NoThought);
    }
    if str_eq(key, "OPPOSED_TO_LIFE") {
        return Some(CasteTag::OpposedToLife);
    }
    if str_eq(key, "PARALYZEIMMUNE") {
        return Some(CasteTag::ParalyzeImmune);
    }
    if str_eq(key, "SMALL_REMAINS") {
        return Some(CasteTag::SmallRemains);
    }
    if str_eq(key, "SWIMS_LEARNED") {
        return Some(CasteTag::SwimsLearned);
    }
    if str_eq(key, "THICKWEB") {
        return Some(CasteTag::ThickWeb);
    }
    if str_eq(key, "UNIQUE_DEMON") {
        return Some(CasteTag::UniqueDemon);
    }
    if str_eq(key, "VERMIN_HATEABLE") {
        return Some(CasteTag::VerminHateable);
    }
    if str_eq(key, "VERMIN_MICRO") {
        return Some(CasteTag::VerminMicro);
    }
    if str_eq(key, "VERMIN_NOFISH") {
        return Some(CasteTag::VerminNoFish);
    }
    if str_eq(key, "VERMIN_NOROAM") {
        return Some(CasteTag::VerminNoRoam);
    }
    if str_eq(key, "VERMIN_NOTRAP") {
        return Some(CasteTag::VerminNoTrap);
    }
    None
}

/// A caste of a creature, such as `MALE` or `FEMALE`. The caste named `ALL`
/// receives what a creature states before its first caste.
pub struct Caste {
    pub identifier: String,
    pub tags: Vec<CasteTag>,
    pub description: String,
    pub baby_name: SingPlurName,
    pub caste_name: Name,
    pub child_name: SingPlurName,
    pub clutch_size: MinMax,
    pub litter_size: MinMax,
    pub max_age: MinMax,
    pub baby: u32,
    pub child: u32,
    pub difficulty: u32,
    pub egg_size: u32,
    pub grass_trample: u8,
    pub grazer: u32,
    pub low_light_vision: u32,
    pub pet_value: u32,
    pub pop_ratio: u32,
    pub change_body_size_percentage: u32,
    pub creature_class: Vec<String>,
    pub body_size: Vec<BodySize>,
    pub milkable: Milkable,
    pub tile: Tile,
}

/// What a `Caste` holds.
pub struct CasteModel {
    pub identifier: Seq<char>,
    pub tags: Seq<CasteTag>,
    pub description: Seq<char>,
    pub baby_name: SingPlurModel,
    pub caste_name: NameModel,
    pub child_name: SingPlurModel,
    pub clutch_size: MinMax,
    pub litter_size: MinMax,
    pub max_age: MinMax,
    pub baby: u32,
    pub child: u32,
    pub difficulty: u32,
    pub egg_size: u32,
    pub grass_trample: u8,
    pub grazer: u32,
    pub low_light_vision: u32,
    pub pet_value: u32,
    pub pop_ratio: u32,
    pub change_body_size_percentage: u32,
    pub creature_class: Seq<Seq<char>>,
    pub body_size: Seq<BodySize>,
    pub milkable: MilkableModel,
    pub tile: TileModel,
}

impl View for Caste {
    type V = CasteModel;

    open spec fn view(&self) -> CasteModel {
        CasteModel {
            identifier: self.identifier@,
            tags: self.tags@,
            description: self.description@,
            baby_name: self.baby_name@,
            caste_name: self.caste_name@,
            child_name: self.child_name@,
            clutch_size: self.clutch_size,
            litter_size: self.litter_size,
            max_age: self.max_age,
            baby: self.baby,
            child: self.child,
            difficulty: self.difficulty,
            egg_size: self.egg_size,
            grass_trample: self.grass_trample,
            grazer: self.grazer,
            low_light_vision: self.low_light_vision,
            pet_value: self.pet_value,
            pop_ratio: self.pop_ratio,
            change_body_size_percentage: self.change_body_size_percentage,
            creature_class: views_of(self.creature_class@),
            body_size: self.body_size@,
            milkable: self.milkable@,
            tile: self.tile@,
        }
    }
}

/// A caste with the given name and nothing else set.
pub open spec fn new_caste(name: Seq<char>) -> CasteModel {
    CasteModel {
        identifier: name,
        tags: Seq::empty(),
        description: Seq::empty(),
        baby_name: empty_sing_plur(),
        caste_name: empty_name(),
        child_name: empty_sing_plur(),
        clutch_size: zero_range(),
        litter_size: zero_range(),
        max_age: zero_range(),
        baby: 0,
        child: 0,
        difficulty: 0,
        egg_size: 0,
        grass_trample: 0,
        grazer: 0,
        low_light_vision: 0,
        pet_value: 0,
        pop_ratio: 0,
        change_body_size_percentage: 0,
        creature_class: Seq::empty(),
        body_size: Seq::empty(),
        milkable: no_milk(),
        tile: empty_tile(),
    }
}

/// The caste after a token of tag `tag` with value `value`. An empty value
/// adds the tag as a flag. A non-empty value sets the tag's field; on a tag
/// without a field it is ignored. A numeric or range field whose value does
/// not parse keeps what it held.
pub open spec fn caste_with_tag(c: CasteModel, tag: CasteTag, value: Seq<char>) -> CasteModel {
    if value.len() == 0 {
        CasteModel { tags: c.tags.push(tag), ..c }
    } else {
        match tag {
            CasteTag::Description => CasteModel { description: value, ..c },
            CasteTag::Baby => match parse_unsigned(value, 0xffff_ffff) {
                Some(n) => CasteModel { baby: n as u32, ..c },
                None => c,
            },
            CasteTag::Child => match parse_unsigned(value, 0xffff_ffff) {
                Some(n) => CasteModel { child: n as u32, ..c },
                None => c,
            },
            CasteTag::Difficulty => match parse_unsigned(value, 0xffff_ffff) {
                Some(n) => CasteModel { difficulty: n as u32, ..c },
                None => c,
            },
            CasteTag::EggSize => match parse_unsigned(value, 0xffff_ffff) {
                Some(n) => CasteModel { egg_size: n as u32, ..c },
                None => c,
            },
            CasteTag::Grazer => match parse_unsigned(value, 0xffff_ffff) {
                Some(n) => CasteModel { grazer: n as u32, ..c },
                None => c,
            },
            CasteTag::LowLightVision => match parse_unsigned(value, 0xffff_ffff) {
                Some(n) => CasteModel { low_light_vision: n as u32, ..c },
                None => c,
            },
            CasteTag::PetValue => match parse_unsigned(value, 0xffff_ffff) {
                Some(n) => CasteModel { pet_value: n as u32, ..c },
                None => c,
            },
            CasteTag::PopRatio => match parse_unsigned(value, 0xffff_ffff) {
                Some(n) => CasteModel { pop_ratio: n as u32, ..c },
                None => c,
            },
            CasteTag::ChangeBodySizePercent => match parse_unsigned(value, 0xffff_ffff) {
                Some(n) => CasteModel { change_body_size_percentage: n as u32, ..c },
                None => c,
            },
            CasteTag::GrassTrample => match parse_unsigned(value, 0xff) {
                Some(n) => CasteModel { grass_trample: n as u8, ..c },
                None => c,
            },
            CasteTag::ClutchSize => match range_from(value) {
                Some(r) => CasteModel { clutch_size: r, ..c },
                None => c,
            },
            CasteTag::LitterSize => match range_from(value) {
                Some(r) => CasteModel { litter_size: r, ..c },
                None => c,
            },
            CasteTag::MaxAge => match range_from(value) {
                Some(r) => CasteModel { max_age: r, ..c },
                None => c,
            },
            CasteTag::CasteTile => CasteModel { tile: TileModel { character: value, ..c.tile }, ..c },
            CasteTag::CasteAltTile => CasteModel { tile: TileModel { alt_character: value, ..c.tile }, ..c },
            CasteTag::CasteColor => CasteModel { tile: TileModel { color: value, ..c.tile }, ..c },
            CasteTag::CasteGlowTile => CasteModel { tile: TileModel { glow_character: value, ..c.tile }, ..c },
            CasteTag::CasteGlowColor => CasteModel { tile: TileModel { glow_color: value, ..c.tile }, ..c },
            CasteTag::CreatureClass => CasteModel { creature_class: c.creature_class.push(value), ..c },
            CasteTag::BodySize => match body_size_from(value) {
                Some(b) => CasteModel { body_size: c.body_size.push(b), ..c },
                None => c,
            },
            CasteTag::Milkable => match milkable_from(value) {
                Some(m) => CasteModel { milkable: m, ..c },
                None => c,
            },
            CasteTag::BabyName => CasteModel { baby_name: sing_plur_from(value), ..c },
            CasteTag::CasteName => CasteModel { caste_name: name_from(value), ..c },
            CasteTag::ChildName => CasteModel { child_name: sing_plur_from(value), ..c },
            _ => c,
        }
    }
}

/// The flags without any copy of `tag`.
pub open spec fn tags_without(tags: Seq<CasteTag>, tag: CasteTag) -> Seq<CasteTag> {
    tags.filter(|t: CasteTag| t != tag)
}

/// The strings without any copy of `s`.
pub open spec fn strings_without(v: Seq<Seq<char>>, s: Seq<char>) -> Seq<Seq<char>> {
    v.filter(|x: Seq<char>| x != s)
}

/// The body sizes without any copy of `b`.
pub open spec fn sizes_without(v: Seq<BodySize>, b: BodySize) -> Seq<BodySize> {
    v.filter(|x: BodySize| x != b)
}

/// The caste after undoing a token of tag `tag` with value `value`: an
/// empty value removes the flag; otherwise the tag's field goes back to its
/// default, and a list field loses the entries equal to what the value gives.
/// A non-empty value on a tag without a field is ignored, as it is when
/// applied.
pub open spec fn caste_without_tag(c: CasteModel, tag: CasteTag, value: Seq<char>) -> CasteModel {
    if value.len() == 0 {
        CasteModel { tags: tags_without(c.tags, tag), ..c }
    } else {
        match tag {
            CasteTag::Description => CasteModel { description: Seq::empty(), ..c },
            CasteTag::Baby => CasteModel { baby: 0, ..c },
            CasteTag::Child => CasteModel { child: 0, ..c },
            CasteTag::Difficulty => CasteModel { difficulty: 0, ..c },
            CasteTag::EggSize => CasteModel { egg_size: 0, ..c },
            CasteTag::Grazer => CasteModel { grazer: 0, ..c },
            CasteTag::LowLightVision => CasteModel { low_light_vision: 0, ..c },
            CasteTag::PetValue => CasteModel { pet_value: 0, ..c },
            CasteTag::PopRatio => CasteModel { pop_ratio: 0, ..c },
            CasteTag::ChangeBodySizePercent => CasteModel { change_body_size_percentage: 0, ..c },
            CasteTag::GrassTrample => CasteModel { grass_trample: 0, ..c },
            CasteTag::ClutchSize => CasteModel { clutch_size: zero_range(), ..c },
            CasteTag::LitterSize => CasteModel { litter_size: zero_range(), ..c },
            CasteTag::MaxAge => CasteModel { max_age: zero_range(), ..c },
            CasteTag::CasteTile => CasteModel { tile: TileModel { character: Seq::empty(), ..c.tile }, ..c },
            CasteTag::CasteAltTile => CasteModel { tile: TileModel { alt_character: Seq::empty(), ..c.tile }, ..c },
            CasteTag::CasteColor => CasteModel { tile: TileModel { color: Seq::empty(), ..c.tile }, ..c },
            CasteTag::CasteGlowTile => CasteModel { tile: TileModel { glow_character: Seq::empty(), ..c.tile }, ..c },
            CasteTag::CasteGlowColor => CasteModel { tile: TileModel { glow_color: Seq::empty(), ..c.tile }, ..c },
            CasteTag::CreatureClass => CasteModel {
                creature_class: strings_without(c.creature_class, value),
                ..c
            },
            CasteTag::BodySize => match body_size_from(value) {
                Some(b) => CasteModel { body_size: sizes_without(c.body_size, b), ..c },
                None => c,
            },
            CasteTag::Milkable => CasteModel { milkable: no_milk(), ..c },
            CasteTag::BabyName => CasteModel { baby_name: empty_sing_plur(), ..c },
            CasteTag::CasteName => CasteModel { caste_name: empty_name(), ..c },
            CasteTag::ChildName => CasteModel { child_name: empty_sing_plur(), ..c },
            _ => c,
        }
    }
}

/// Caste `c` overwritten by `o`: `o`'s flags that `c` lacks are appended,
/// and every field of `o` that is not at its default replaces `c`'s.
pub open spec fn caste_overwritten(c: CasteModel, o: CasteModel) -> CasteModel {
    CasteModel {
        identifier: c.identifier,
        tags: merged(c.tags, o.tags),
        description: if o.description.len() > 0 { o.description } else { c.description },
        baby_name: if o.baby_name != empty_sing_plur() { o.baby_name } else { c.baby_name },
        caste_name: if o.caste_name != empty_name() { o.caste_name } else { c.caste_name },
        child_name: if o.child_name != empty_sing_plur() { o.child_name } else { c.child_name },
        baby: if o.baby != 0 { o.baby } else { c.baby },
        child: if o.child != 0 { o.child } else { c.child },
        difficulty: if o.difficulty != 0 { o.difficulty } else { c.difficulty },
        egg_size: if o.egg_size != 0 { o.egg_size } else { c.egg_size },
        grazer: if o.grazer != 0 { o.grazer } else { c.grazer },
        low_light_vision: if o.low_light_vision != 0 { o.low_light_vision } else { c.low_light_vision },
        pet_value: if o.pet_value != 0 { o.pet_value } else { c.pet_value },
        pop_ratio: if o.pop_ratio != 0 { o.pop_ratio } else { c.pop_ratio },
        change_body_size_percentage: if o.change_body_size_percentage != 0 { o.change_body_size_percentage } else { c.change_body_size_percentage },
        grass_trample: if o.grass_trample != 0 { o.grass_trample } else { c.grass_trample },
        clutch_size: if o.clutch_size != zero_range() { o.clutch_size } else { c.clutch_size },
        litter_size: if o.litter_size != zero_range() { o.litter_size } else { c.litter_size },
        max_age: if o.max_age != zero_range() { o.max_age } else { c.max_age },
        creature_class: if o.creature_class.len() > 0 { o.creature_class } else { c.creature_class },
        body_size: if o.body_size.len() > 0 { o.body_size } else { c.body_size },
        milkable: if o.milkable != no_milk() { o.milkable } else { c.milkable },
        tile: if o.tile != empty_tile() { o.tile } else { c.tile },
    }
}

/// Whether `tags` holds `tag`.
pub fn has_caste_tag(tags: &Vec<CasteTag>, tag: CasteTag) -> (r: bool)
    ensures
        r == tags@.contains(tag),
{
    let mut i: usize = 0;
    while i < tags.len()
        invariant
            i <= tags@.len(),
            forall|k: int| 0 <= k < i ==> tags@[k] != tag,
        decreases tags@.len() - i,
    {
        if tags[i] == tag {
            return true;
        }
        i = i + 1;
    }
    false
}

/// `a` followed by each flag of `b` that is not already there.
pub fn merge_caste_tags(a: &Vec<CasteTag>, b: &Vec<CasteTag>) -> (r: Vec<CasteTag>)
    ensures
        r@ == merged(a@, b@),
{
    let mut out = copy_vec(a);
    let mut i: usize = 0;
    while i < b.len()
        invariant
            i <= b@.len(),
            out@ == merged(a@, b@.take(i as int)),
        decreases b@.len() - i,
    {
        assert(b@.take(i as int + 1).drop_last() =~= b@.take(i as int));
        let t = b[i];
        if !has_caste_tag(&out, t) {
            out.push(t);
        }
        i = i + 1;
    }
    assert(b@.take(b@.len() as int) =~= b@);
    out
}

fn remove_caste_tag(tags: &Vec<CasteTag>, tag: CasteTag) -> (r: Vec<CasteTag>)
    ensures
        r@ == tags_without(tags@, tag),
{
    let mut out: Vec<CasteTag> = Vec::new();
    let mut i: usize = 0;
    while i < tags.len()
        invariant
            i <= tags@.len(),
            out@ == tags_without(tags@.take(i as int), tag),
        decreases tags@.len() - i,
    {
        let t = tags[i];
        assert(tags@.take(i as int + 1) =~= tags@.take(i as int).push(t));
        if t != tag {
            out.push(t);
        }
        i = i + 1;
    }
    assert(tags@.take(tags@.len() as int) =~= tags@);
    out
}

fn remove_string(v: &Vec<String>, s: &str) -> (r: Vec<String>)
    ensures
        views_of(r@) == strings_without(views_of(v@), s@),
{
    let mut out: Vec<String> = Vec::new();
    let mut i: usize = 0;
    while i < v.len()
        invariant
            i <= v@.len(),
            views_of(out@) == strings_without(views_of(v@.take(i as int)), s@),
        decreases v@.len() - i,
    {
        assert(views_of(v@.take(i as int + 1)) =~= views_of(v@.take(i as int)).push(v@[i as int]@));
        if !str_eq(v[i].as_str(), s) {
            let ghost old_out = out@;
            let x = v[i].clone();
            out.push(x);
            assert(views_of(out@) =~= views_of(old_out).push(x@));
        }
        i = i + 1;
    }
    assert(v@.take(v@.len() as int) =~= v@);
    out
}

fn remove_body_size(v: &Vec<BodySize>, b: BodySize) -> (r: Vec<BodySize>)
    ensures
        r@ == sizes_without(v@, b),
{
    let mut out: Vec<BodySize> = Vec::new();
    let mut i: usize = 0;
    while i < v.len()
        invariant
            i <= v@.len(),
            out@ == sizes_without(v@.take(i as int), b),
        decreases v@.len() - i,
    {
        let x = v[i];
        assert(v@.take(i as int + 1) =~= v@.take(i as int).push(x));
        if x != b {
            out.push(x);
        }
        i = i + 1;
    }
    assert(v@.take(v@.len() as int) =~= v@);
    out
}

fn pick_u32(mine: u32, theirs: u32) -> (r: u32)
    ensures
        r == if theirs != 0 { theirs } else { mine },
{
    if theirs != 0 { theirs } else { mine }
}

fn pick_range(mine: MinMax, theirs: MinMax) -> (r: MinMax)
    ensures
        r == if theirs != zero_range() { theirs } else { mine },
{
    if !theirs.is_zero() { theirs } else { mine }
}

fn pick_string(mine: &String, theirs: &String) -> (r: String)
    ensures
        r@ == if theirs@.len() > 0 { theirs@ } else { mine@ },
{
    if !theirs.as_str().is_empty() { theirs.clone() } else { mine.clone() }
}

fn pick_strings(mine: &Vec<String>, theirs: &Vec<String>) -> (r: Vec<String>)
    ensures
        views_of(r@) == if views_of(theirs@).len() > 0 { views_of(theirs@) } else { views_of(mine@) },
{
    if theirs.len() > 0 { copy_strings(theirs) } else { copy_strings(mine) }
}

fn pick_sing_plur(mine: &SingPlurName, theirs: &SingPlurName) -> (r: SingPlurName)
    ensures
        r@ == if theirs@ != empty_sing_plur() { theirs@ } else { mine@ },
{
    if !theirs.is_empty() { theirs.copy() } else { mine.copy() }
}

fn pick_name(mine: &Name, theirs: &Name) -> (r: Name)
    ensures
        r@ == if theirs@ != empty_name() { theirs@ } else { mine@ },
{
    if !theirs.is_empty() { theirs.copy() } else { mine.copy() }
}

impl Caste {
    /// A caste with the given name and nothing else set.
    pub fn new(name: &str) -> (r: Caste)
        ensures
            r@ == new_caste(name@),
    {
        let r = Caste {
            identifier: String::from_str(name),
            tags: Vec::new(),
            description: String::new(),
            baby_name: SingPlurName::new(),
            caste_name: Name::new(),
            child_name: SingPlurName::new(),
            clutch_size: MinMax::zero(),
            litter_size: MinMax::zero(),
            max_age: MinMax::zero(),
            baby: 0,
            child: 0,
            difficulty: 0,
            egg_size: 0,
            grass_trample: 0,
            grazer: 0,
            low_light_vision: 0,
            pet_value: 0,
            pop_ratio: 0,
            change_body_size_percentage: 0,
            creature_class: Vec::new(),
            body_size: Vec::new(),
            milkable: Milkable::new(),
            tile: Tile::new(),
        };
        assert(r@.creature_class =~= Seq::<Seq<char>>::empty());
        r
    }

    /// Applies a token of the caste vocabulary; a key outside it changes nothing.
    pub fn parse_tag(&mut self, key: &str, value: &str)
        ensures
            final(self)@ == (match caste_tag_of(key@) {
                Some(t) => caste_with_tag(old(self)@, t, value@),
                None => old(self)@,
            }),
    {
        match caste_tag_for(key) {
            Some(tag) => self.apply_tag(tag, value),
            None => {},
        }
    }

    /// Applies a token whose tag is known.
    pub fn apply_tag(&mut self, tag: CasteTag, value: &str)
        ensures
            final(self)@ == caste_with_tag(old(self)@, tag, value@),
    {
        if value.is_empty() {
            self.tags.push(tag);
            return;
        }
        match tag {
            CasteTag::Description => self.description = String::from_str(value),
            CasteTag::Baby => {
                if let Some(n) = parse_unsigned_str(value, 0xffff_ffff) {
                    self.baby = n;
                }
            },
            CasteTag::Child => {
                if let Some(n) = parse_unsigned_str(value, 0xffff_ffff) {
                    self.child = n;
                }
            },
            CasteTag::Difficulty => {
                if let Some(n) = parse_unsigned_str(value, 0xffff_ffff) {
                    self.difficulty = n;
                }
            },
            CasteTag::EggSize => {
                if let Some(n) = parse_unsigned_str(value, 0xffff_ffff) {
                    self.egg_size = n;
                }
            },
            CasteTag::Grazer => {
                if let Some(n) = parse_unsigned_str(value, 0xffff_ffff) {
                    self.grazer = n;
                }
            },
            CasteTag::LowLightVision => {
                if let Some(n) = parse_unsigned_str(value, 0xffff_ffff) {
                    self.low_light_vision = n;
                }
            },
            CasteTag::PetValue => {
                if let Some(n) = parse_unsigned_str(value, 0xffff_ffff) {
                    self.pet_value = n;
                }
            },
            CasteTag::PopRatio => {
                if let Some(n) = parse_unsigned_str(value, 0xffff_ffff) {
                    self.pop_ratio = n;
                }
            },
            CasteTag::ChangeBodySizePercent => {
                if let Some(n) = parse_unsigned_str(value, 0xffff_ffff) {
                    self.change_body_size_percentage = n;
                }
            },
            CasteTag::GrassTrample => {
                if let Some(n) = parse_unsigned_str(value, 0xff) {
                    self.grass_trample = n as u8;
                }
            },
            CasteTag::ClutchSize => {
                if let Some(r) = parse_min_max_range(value) {
                    self.clutch_size = r;
                }
            },
            CasteTag::LitterSize => {
                if let Some(r) = parse_min_max_range(value) {
                    self.litter_size = r;
                }
            },
            CasteTag::MaxAge => {
                if let Some(r) = parse_min_max_range(value) {
                    self.max_age = r;
                }
            },
            CasteTag::CasteTile => self.tile.set_character(value),
            CasteTag::CasteAltTile => self.tile.set_alt_character(value),
            CasteTag::CasteColor => self.tile.set_color(value),
            CasteTag::CasteGlowTile => self.tile.set_glow_character(value),
            CasteTag::CasteGlowColor => self.tile.set_glow_color(value),
            CasteTag::CreatureClass => {
                let ghost before = self.creature_class@;
                let s = String::from_str(value);
                self.creature_class.push(s);
                assert(views_of(self.creature_class@) =~= views_of(before).push(value@));
            },
            CasteTag::BodySize => {
                if let Some(b) = BodySize::from_value(value) {
                    self.body_size.push(b);
                }
            },
            CasteTag::Milkable => {
                if let Some(m) = Milkable::from_value(value) {
                    self.milkable = m;
                }
            },
            CasteTag::BabyName => self.baby_name = SingPlurName::from_value(value),
            CasteTag::CasteName => self.caste_name = Name::from_value(value),
            CasteTag::ChildName => self.child_name = SingPlurName::from_value(value),
            _ => {},
        }
    }

    /// The caste's name.
    pub fn get_identifier(&self) -> (r: &str)
        ensures
            r@ == self.identifier@,
    {
        self.identifier.as_str()
    }

    /// Undoes a token of the caste vocabulary; a key outside it changes nothing.
    pub fn remove_tag_and_value(&mut self, key: &str, value: &str)
        ensures
            final(self)@ == (match caste_tag_of(key@) {
                Some(t) => caste_without_tag(old(self)@, t, value@),
                None => old(self)@,
            }),
    {
        match caste_tag_for(key) {
            Some(tag) => self.remove_tag(tag, value),
            None => {},
        }
    }

    /// Undoes a token whose tag is known.
    pub fn remove_tag(&mut self, tag: CasteTag, value: &str)
        ensures
            final(self)@ == caste_without_tag(old(self)@, tag, value@),
    {
        proof {
            reveal_strlit("");
            assert(""@ =~= Seq::<char>::empty());
        }
        if value.is_empty() {
            self.tags = remove_caste_tag(&self.tags, tag);
            return;
        }
        match tag {
            CasteTag::Description => self.description = String::new(),
            CasteTag::Baby => self.baby = 0,
            CasteTag::Child => self.child = 0,
            CasteTag::Difficulty => self.difficulty = 0,
            CasteTag::EggSize => self.egg_size = 0,
            CasteTag::Grazer => self.grazer = 0,
            CasteTag::LowLightVision => self.low_light_vision = 0,
            CasteTag::PetValue => self.pet_value = 0,
            CasteTag::PopRatio => self.pop_ratio = 0,
            CasteTag::ChangeBodySizePercent => self.change_body_size_percentage = 0,
            CasteTag::GrassTrample => self.grass_trample = 0,
            CasteTag::ClutchSize => self.clutch_size = MinMax::zero(),
            CasteTag::LitterSize => self.litter_size = MinMax::zero(),
            CasteTag::MaxAge => self.max_age = MinMax::zero(),
            CasteTag::CasteTile => self.tile.set_character(""),
            CasteTag::CasteAltTile => self.tile.set_alt_character(""),
            CasteTag::CasteColor => self.tile.set_color(""),
            CasteTag::CasteGlowTile => self.tile.set_glow_character(""),
            CasteTag::CasteGlowColor => self.tile.set_glow_color(""),
            CasteTag::CreatureClass => {
                self.creature_class = remove_string(&self.creature_class, value);
            },
            CasteTag::BodySize => {
                if let Some(b) = BodySize::from_value(value) {
                    self.body_size = remove_body_size(&self.body_size, b);
                }
            },
            CasteTag::Milkable => self.milkable = Milkable::new(),
            CasteTag::BabyName => self.baby_name = SingPlurName::new(),
            CasteTag::CasteName => self.caste_name = Name::new(),
            CasteTag::ChildName => self.child_name = SingPlurName::new(),
            _ => {},
        }
    }

    /// Overwrites this caste with `other`: flags of `other` that are missing
    /// are added, and every field of `other` that is not at its default
    /// replaces this caste's.
    pub fn overwrite_caste(&mut self, other: &Caste)
        ensures
            final(self)@ == caste_overwritten(old(self)@, other@),
    {
        let merged_tags = merge_caste_tags(&self.tags, &other.tags);
        let next = Caste {
            identifier: self.identifier.clone(),
            tags: merged_tags,
            description: pick_string(&self.description, &other.description),
            baby_name: pick_sing_plur(&self.baby_name, &other.baby_name),
            caste_name: pick_name(&self.caste_name, &other.caste_name),
            child_name: pick_sing_plur(&self.child_name, &other.child_name),
            clutch_size: pick_range(self.clutch_size, other.clutch_size),
            litter_size: pick_range(self.litter_size, other.litter_size),
            max_age: pick_range(self.max_age, other.max_age),
            baby: pick_u32(self.baby, other.baby),
            child: pick_u32(self.child, other.child),
            difficulty: pick_u32(self.difficulty, other.difficulty),
            egg_size: pick_u32(self.egg_size, other.egg_size),
            grass_trample: if other.grass_trample != 0 { other.grass_trample } else { self.grass_trample },
            grazer: pick_u32(self.grazer, other.grazer),
            low_light_vision: pick_u32(self.low_light_vision, other.low_light_vision),
            pet_value: pick_u32(self.pet_value, other.pet_value),
            pop_ratio: pick_u32(self.pop_ratio, other.pop_ratio),
            change_body_size_percentage: pick_u32(self.change_body_size_percentage, other.change_body_size_percentage),
            creature_class: pick_strings(&self.creature_class, &other.creature_class),
            body_size: if other.body_size.len() > 0 { copy_vec(&other.body_size) } else { copy_vec(&self.body_size) },
            milkable: if !other.milkable.is_default() { other.milkable.copy() } else { self.milkable.copy() },
            tile: if !other.tile.is_default() { other.tile.copy() } else { self.tile.copy() },
        };
        *self = next;
    }

    /// Whether the caste lays eggs.
    pub fn is_egg_layer(&self) -> (r: bool)
        ensures
            r == self@.tags.contains(CasteTag::LaysEggs),
    {
        has_caste_tag(&self.tags, CasteTag::LaysEggs)
    }

    /// Whether the caste carries the milkable flag.
    pub fn is_milkable(&self) -> (r: bool)
        ensures
            r == self@.tags.contains(CasteTag::Milkable),
    {
        has_caste_tag(&self.tags, CasteTag::Milkable)
    }

    /// A copy of this caste.
    pub fn copy(&self) -> (r: Caste)
        ensures
            r@ == self@,
    {
        Caste {
            identifier: self.identifier.clone(),
            tags: copy_vec(&self.tags),
            description: self.description.clone(),
            baby_name: self.baby_name.copy(),
            caste_name: self.caste_name.copy(),
            child_name: self.child_name.copy(),
            clutch_size: self.clutch_size,
            litter_size: self.litter_size,
            max_age: self.max_age,
            baby: self.baby,
            child: self.child,
            difficulty: self.difficulty,
            egg_size: self.egg_size,
            grass_trample: self.grass_trample,
            grazer: self.grazer,
            low_light_vision: self.low_light_vision,
            pet_value: self.pet_value,
            pop_ratio: self.pop_ratio,
            change_body_size_percentage: self.change_body_size_percentage,
            creature_class: copy_strings(&self.creature_class),
            body_size: copy_vec(&self.body_size),
            milkable: self.milkable.copy(),
            tile: self.tile.copy(),
        }
    }
}

} // verus!
