//! Facts about the vocabularies: the keys that drive the record builder
//! itself are not vocabulary keys, so a vocabulary token never acts as a
//! boundary.
use vstd::prelude::*;

use crate::caste::caste_tag_of;
use crate::creature::creature_tag_of;

verus! {

proof fn lemma_object_not_caste_key()
    ensures
        caste_tag_of("OBJECT"@) is None,
{
    reveal_strlit("OBJECT");
    reveal_strlit("ADOPTS_OWNER");
    assert("OBJECT"@.len() != "ADOPTS_OWNER"@.len());
    reveal_strlit("ALL_ACTIVE");
    assert("OBJECT"@.len() != "ALL_ACTIVE"@.len());
    reveal_strlit("AMBUSHPREDATOR");
    assert("OBJECT"@.len() != "AMBUSHPREDATOR"@.len());
    reveal_strlit("AMBUSH_PREDATOR");
    assert("OBJECT"@.len() != "AMBUSH_PREDATOR"@.len());
    reveal_strlit("AMPHIBIOUS");
    assert("OBJECT"@.len() != "AMPHIBIOUS"@.len());
    reveal_strlit("AQUATIC");
    assert("OBJECT"@.len() != "AQUATIC"@.len());
    reveal_strlit("ARENA_RESTRICTED");
    assert("OBJECT"@.len() != "ARENA_RESTRICTED"@.len());
    reveal_strlit("AT_PEACE_WITH_WILDLIFE");
    assert("OBJECT"@.len() != "AT_PEACE_WITH_WILDLIFE"@.len());
    reveal_strlit("BABY");
    assert("OBJECT"@.len() != "BABY"@.len());
    reveal_strlit("BABYNAME");
    assert("OBJECT"@.len() != "BABYNAME"@.len());
    reveal_strlit("BENIGN");
    assert("OBJECT"@[0] != "BENIGN"@[0]);
    reveal_strlit("BODY_SIZE");
    assert("OBJECT"@.len() != "BODY_SIZE"@.len());
    reveal_strlit("BONECARN");
    assert("OBJECT"@.len() != "BONECARN"@.len());
    reveal_strlit("CAN_LEARN");
    assert("OBJECT"@.len() != "CAN_LEARN"@.len());
    reveal_strlit("CAN_SPEAK");
    assert("OBJECT"@.len() != "CAN_SPEAK"@.len());
    reveal_strlit("CARNIVORE");
    assert("OBJECT"@.len() != "CARNIVORE"@.len());
    reveal_strlit("CASTE_ALTTILE");
    assert("OBJECT"@.len() != "CASTE_ALTTILE"@.len());
    reveal_strlit("CASTE_COLOR");
    assert("OBJECT"@.len() != "CASTE_COLOR"@.len());
    reveal_strlit("CASTE_GLOWCOLOR");
    assert("OBJECT"@.len() != "CASTE_GLOWCOLOR"@.len());
    reveal_strlit("CASTE_GLOWTILE");
    assert("OBJECT"@.len() != "CASTE_GLOWTILE"@.len());
    reveal_strlit("CASTE_NAME");
    assert("OBJECT"@.len() != "CASTE_NAME"@.len());
    reveal_strlit("CASTE_TILE");
    assert("OBJECT"@.len() != "CASTE_TILE"@.len());
    reveal_strlit("CHANGE_BODY_SIZE_PERC");
    assert("OBJECT"@.len() != "CHANGE_BODY_SIZE_PERC"@.len());
    reveal_strlit("CHILD");
    assert("OBJECT"@.len() != "CHILD"@.len());
    reveal_strlit("CHILDNAME");
    assert("OBJECT"@.len() != "CHILDNAME"@.len());
    reveal_strlit("CLUTCH_SIZE");
    assert("OBJECT"@.len() != "CLUTCH_SIZE"@.len());
    reveal_strlit("COMMON_DOMESTIC");
    assert("OBJECT"@.len() != "COMMON_DOMESTIC"@.len());
    reveal_strlit("COOKABLE_LIVE");
    assert("OBJECT"@.len() != "COOKABLE_LIVE"@.len());
    reveal_strlit("CREATURE_CLASS");
    assert("OBJECT"@.len() != "CREATURE_CLASS"@.len());
    reveal_strlit("CREPUSCULAR");
    assert("OBJECT"@.len() != "CREPUSCULAR"@.len());
    reveal_strlit("CURIOUSBEAST_EATER");
    assert("OBJECT"@.len() != "CURIOUSBEAST_EATER"@.len());
    reveal_strlit("CURIOUSBEAST_GUZZLER");
    assert("OBJECT"@.len() != "CURIOUSBEAST_GUZZLER"@.len());
    reveal_strlit("CURIOUSBEAST_ITEM");
    assert("OBJECT"@.len() != "CURIOUSBEAST_ITEM"@.len());
    reveal_strlit("DEMON");
    assert("OBJECT"@.len() != "DEMON"@.len());
    reveal_strlit("DESCRIPTION");
    assert("OBJECT"@.len() != "DESCRIPTION"@.len());
    reveal_strlit("DIE_WHEN_VERMIN_BITE");
    assert("OBJECT"@.len() != "DIE_WHEN_VERMIN_BITE"@.len());
    reveal_strlit("DIFFICULTY");
    assert("OBJECT"@.len() != "DIFFICULTY"@.len());
    reveal_strlit("DIURNAL");
    assert("OBJECT"@.len() != "DIURNAL"@.len());
    reveal_strlit("EGG_SIZE");
    assert("OBJECT"@.len() != "EGG_SIZE"@.len());
    reveal_strlit("EQUIPS");
    assert("OBJECT"@[0] != "EQUIPS"@[0]);
    reveal_strlit("EXTRAVISION");
    assert("OBJECT"@.len() != "EXTRAVISION"@.len());
    reveal_strlit("FEATURE_BEAST");
    assert("OBJECT"@.len() != "FEATURE_BEAST"@.len());
    reveal_strlit("FEMALE");
    assert("OBJECT"@[0] != "FEMALE"@[0]);
    reveal_strlit("FIREIMMUNE");
    assert("OBJECT"@.len() != "FIREIMMUNE"@.len());
    reveal_strlit("FIREIMMUNE_SUPER");
    assert("OBJECT"@.len() != "FIREIMMUNE_SUPER"@.len());
    reveal_strlit("FISHITEM");
    assert("OBJECT"@.len() != "FISHITEM"@.len());
    reveal_strlit("FLIER");
    assert("OBJECT"@.len() != "FLIER"@.len());
    reveal_strlit("GNAWER");
    assert("OBJECT"@[0] != "GNAWER"@[0]);
    reveal_strlit("GRASSTRAMPLE");
    assert("OBJECT"@.len() != "GRASSTRAMPLE"@.len());
    reveal_strlit("GRAZER");
    assert("OBJECT"@[0] != "GRAZER"@[0]);
    reveal_strlit("HAS_NERVES");
    assert("OBJECT"@.len() != "HAS_NERVES"@.len());
    reveal_strlit("HUNTS_VERMIN");
    assert("OBJECT"@.len() != "HUNTS_VERMIN"@.len());
    reveal_strlit("IMMOBILE");
    assert("OBJECT"@.len() != "IMMOBILE"@.len());
    reveal_strlit("IMMOBILE_LAND");
    assert("OBJECT"@.len() != "IMMOBILE_LAND"@.len());
    reveal_strlit("IMMOLATE");
    assert("OBJECT"@.len() != "IMMOLATE"@.len());
    reveal_strlit("INTELLIGENT");
    assert("OBJECT"@.len() != "INTELLIGENT"@.len());
    reveal_strlit("LAYS_EGGS");
    assert("OBJECT"@.len() != "LAYS_EGGS"@.len());
    reveal_strlit("LIGHT_GEN");
    assert("OBJECT"@.len() != "LIGHT_GEN"@.len());
    reveal_strlit("LITTERSIZE");
    assert("OBJECT"@.len() != "LITTERSIZE"@.len());
    reveal_strlit("LOCKPICKER");
    assert("OBJECT"@.len() != "LOCKPICKER"@.len());
    reveal_strlit("LOW_LIGHT_VISION");
    assert("OBJECT"@.len() != "LOW_LIGHT_VISION"@.len());
    reveal_strlit("MAGMA_VISION");
    assert("OBJECT"@.len() != "MAGMA_VISION"@.len());
    reveal_strlit("MALE");
    assert("OBJECT"@.len() != "MALE"@.len());
    reveal_strlit("MATUTINAL");
    assert("OBJECT"@.len() != "MATUTINAL"@.len());
    reveal_strlit("MAXAGE");
    assert("OBJECT"@[0] != "MAXAGE"@[0]);
    reveal_strlit("MEANDERER");
    assert("OBJECT"@.len() != "MEANDERER"@.len());
    reveal_strlit("MEGABEAST");
    assert("OBJECT"@.len() != "MEGABEAST"@.len());
    reveal_strlit("MILKABLE");
    assert("OBJECT"@.len() != "MILKABLE"@.len());
    reveal_strlit("MISCHIEVIOUS");
    assert("OBJECT"@.len() != "MISCHIEVIOUS"@.len());
    reveal_strlit("MISCHIEVOUS");
    assert("OBJECT"@.len() != "MISCHIEVOUS"@.len());
    reveal_strlit("MOUNT");
    assert("OBJECT"@.len() != "MOUNT"@.len());
    reveal_strlit("MOUNT_EXOTIC");
    assert("OBJECT"@.len() != "MOUNT_EXOTIC"@.len());
    reveal_strlit("MULTIPART_FULL_VISION");
    assert("OBJECT"@.len() != "MULTIPART_FULL_VISION"@.len());
    reveal_strlit("MULTIPLE_LITTER_RARE");
    assert("OBJECT"@.len() != "MULTIPLE_LITTER_RARE"@.len());
    reveal_strlit("NATURAL");
    assert("OBJECT"@.len() != "NATURAL"@.len());
    reveal_strlit("NOBONES");
    assert("OBJECT"@.len() != "NOBONES"@.len());
    reveal_strlit("NOBREATHE");
    assert("OBJECT"@.len() != "NOBREATHE"@.len());
    reveal_strlit("NOCTURNAL");
    assert("OBJECT"@.len() != "NOCTURNAL"@.len());
    reveal_strlit("NOEMOTION");
    assert("OBJECT"@.len() != "NOEMOTION"@.len());
    reveal_strlit("NOEXERT");
    assert("OBJECT"@.len() != "NOEXERT"@.len());
    reveal_strlit("NOFEAR");
    assert("OBJECT"@[0] != "NOFEAR"@[0]);
    reveal_strlit("NOMEAT");
    assert("OBJECT"@[0] != "NOMEAT"@[0]);
    reveal_strlit("NONAUSEA");
    assert("OBJECT"@.len() != "NONAUSEA"@.len());
    reveal_strlit("NOPAIN");
    assert("OBJECT"@[0] != "NOPAIN"@[0]);
    reveal_strlit("NOSKIN");
    assert("OBJECT"@[0] != "NOSKIN"@[0]);
    reveal_strlit("NOSKULL");
    assert("OBJECT"@.len() != "NOSKULL"@.len());
    reveal_strlit("NOSMELLYROT");
    assert("OBJECT"@.len() != "NOSMELLYROT"@.len());
    reveal_strlit("NOSTUCKINS");
    assert("OBJECT"@.len() != "NOSTUCKINS"@.len());
    reveal_strlit("NOSTUN");
    assert("OBJECT"@[0] != "NOSTUN"@[0]);
    reveal_strlit("NOTHOUGHT");
    assert("OBJECT"@.len() != "NOTHOUGHT"@.len());
    reveal_strlit("NOT_BUTCHERABLE");
    assert("OBJECT"@.len() != "NOT_BUTCHERABLE"@.len());
    reveal_strlit("NOT_LIVING");
    assert("OBJECT"@.len() != "NOT_LIVING"@.len());
    reveal_strlit("NO_AUTUMN");
    assert("OBJECT"@.len() != "NO_AUTUMN"@.len());
    reveal_strlit("NO_CONNECTIONS_FOR_MOVEMENT");
    assert("OBJECT"@.len() != "NO_CONNECTIONS_FOR_MOVEMENT"@.len());
    reveal_strlit("NO_DIZZINESS");
    assert("OBJECT"@.len() != "NO_DIZZINESS"@.len());
    reveal_strlit("NO_DRINK");
    assert("OBJECT"@.len() != "NO_DRINK"@.len());
    reveal_strlit("NO_EAT");
    assert("OBJECT"@[0] != "NO_EAT"@[0]);
    reveal_strlit("NO_FEVERS");
    assert("OBJECT"@.len() != "NO_FEVERS"@.len());
    reveal_strlit("NO_GENDER");
    assert("OBJECT"@.len() != "NO_GENDER"@.len());
    reveal_strlit("NO_SLEEP");
    assert("OBJECT"@.len() != "NO_SLEEP"@.len());
    reveal_strlit("NO_SPRING");
    assert("OBJECT"@.len() != "NO_SPRING"@.len());
    reveal_strlit("NO_SUMMER");
    assert("OBJECT"@.len() != "NO_SUMMER"@.len());
    reveal_strlit("NO_WINTER");
    assert("OBJECT"@.len() != "NO_WINTER"@.len());
    reveal_strlit("OPPOSED_TO_LIFE");
    assert("OBJECT"@.len() != "OPPOSED_TO_LIFE"@.len());
    reveal_strlit("OUTSIDER_CONTROLLABLE");
    assert("OBJECT"@.len() != "OUTSIDER_CONTROLLABLE"@.len());
    reveal_strlit("PACK_ANIMAL");
    assert("OBJECT"@.len() != "PACK_ANIMAL"@.len());
    reveal_strlit("PARALYZEIMMUNE");
    assert("OBJECT"@.len() != "PARALYZEIMMUNE"@.len());
    reveal_strlit("PET");
    assert("OBJECT"@.len() != "PET"@.len());
    reveal_strlit("PETVALUE");
    assert("OBJECT"@.len() != "PETVALUE"@.len());
    reveal_strlit("PET_EXOTIC");
    assert("OBJECT"@.len() != "PET_EXOTIC"@.len());
    reveal_strlit("POP_RATIO");
    assert("OBJECT"@.len() != "POP_RATIO"@.len());
    reveal_strlit("POWER");
    assert("OBJECT"@.len() != "POWER"@.len());
    reveal_strlit("SEMIMEGABEAST");
    assert("OBJECT"@.len() != "SEMIMEGABEAST"@.len());
    reveal_strlit("SLOW_LEARNER");
    assert("OBJECT"@.len() != "SLOW_LEARNER"@.len());
    reveal_strlit("SMALL_REMAINS");
    assert("OBJECT"@.len() != "SMALL_REMAINS"@.len());
    reveal_strlit("STANDARD_GRAZER");
    assert("OBJECT"@.len() != "STANDARD_GRAZER"@.len());
    reveal_strlit("SUPERNATURAL");
    assert("OBJECT"@.len() != "SUPERNATURAL"@.len());
    reveal_strlit("SWIMS_INNATE");
    assert("OBJECT"@.len() != "SWIMS_INNATE"@.len());
    reveal_strlit("SWIMS_LEARNED");
    assert("OBJECT"@.len() != "SWIMS_LEARNED"@.len());
    reveal_strlit("THICKWEB");
    assert("OBJECT"@.len() != "THICKWEB"@.len());
    reveal_strlit("TITAN");
    assert("OBJECT"@.len() != "TITAN"@.len());
    reveal_strlit("TRAINABLE");
    assert("OBJECT"@.len() != "TRAINABLE"@.len());
    reveal_strlit("TRAINABLE_HUNTING");
    assert("OBJECT"@.len() != "TRAINABLE_HUNTING"@.len());
    reveal_strlit("TRAINABLE_WAR");
    assert("OBJECT"@.len() != "TRAINABLE_WAR"@.len());
    reveal_strlit("TRANCES");
    assert("OBJECT"@.len() != "TRANCES"@.len());
    reveal_strlit("TRAPAVOID");
    assert("OBJECT"@.len() != "TRAPAVOID"@.len());
    reveal_strlit("UNIQUE_DEMON");
    assert("OBJECT"@.len() != "UNIQUE_DEMON"@.len());
    reveal_strlit("VEGETATION");
    assert("OBJECT"@.len() != "VEGETATION"@.len());
    reveal_strlit("VERMIN_HATEABLE");
    assert("OBJECT"@.len() != "VERMIN_HATEABLE"@.len());
    reveal_strlit("VERMIN_MICRO");
    assert("OBJECT"@.len() != "VERMIN_MICRO"@.len());
    reveal_strlit("VERMIN_NOFISH");
    assert("OBJECT"@.len() != "VERMIN_NOFISH"@.len());
    reveal_strlit("VERMIN_NOROAM");
    assert("OBJECT"@.len() != "VERMIN_NOROAM"@.len());
    reveal_strlit("VERMIN_NOTRAP");
    assert("OBJECT"@.len() != "VERMIN_NOTRAP"@.len());
    reveal_strlit("VESPERTINE");
    assert("OBJECT"@.len() != "VESPERTINE"@.len());
    reveal_strlit("WAGON_PULLER");
    assert("OBJECT"@.len() != "WAGON_PULLER"@.len());
    reveal_strlit("WEBIMMUNE");
    assert("OBJECT"@.len() != "WEBIMMUNE"@.len());
}

proof fn lemma_object_not_creature_key()
    ensures
        creature_tag_of("OBJECT"@) is None,
{
    reveal_strlit("OBJECT");
    reveal_strlit("ALTTILE");
    assert("OBJECT"@.len() != "ALTTILE"@.len());
    reveal_strlit("APPLY_CREATURE_VARIATION");
    assert("OBJECT"@.len() != "APPLY_CREATURE_VARIATION"@.len());
    reveal_strlit("ARTIFICIAL_HIVEABLE");
    assert("OBJECT"@.len() != "ARTIFICIAL_HIVEABLE"@.len());
    reveal_strlit("BIOME");
    assert("OBJECT"@.len() != "BIOME"@.len());
    reveal_strlit("CHANGE_FREQUENCY_PERC");
    assert("OBJECT"@.len() != "CHANGE_FREQUENCY_PERC"@.len());
    reveal_strlit("CLUSTER_NUMBER");
    assert("OBJECT"@.len() != "CLUSTER_NUMBER"@.len());
    reveal_strlit("COLOR");
    assert("OBJECT"@.len() != "COLOR"@.len());
    reveal_strlit("COPY_TAGS_FROM");
    assert("OBJECT"@.len() != "COPY_TAGS_FROM"@.len());
    reveal_strlit("CREATURE_TILE");
    assert("OBJECT"@.len() != "CREATURE_TILE"@.len());
    reveal_strlit("DOES_NOT_EXIST");
    assert("OBJECT"@.len() != "DOES_NOT_EXIST"@.len());
    reveal_strlit("EVIL");
    assert("OBJECT"@.len() != "EVIL"@.len());
    reveal_strlit("FANCIFUL");
    assert("OBJECT"@.len() != "FANCIFUL"@.len());
    reveal_strlit("FREQUENCY");
    assert("OBJECT"@.len() != "FREQUENCY"@.len());
    reveal_strlit("GENERAL_BABY_NAME");
    assert("OBJECT"@.len() != "GENERAL_BABY_NAME"@.len());
    reveal_strlit("GENERAL_CHILD_NAME");
    assert("OBJECT"@.len() != "GENERAL_CHILD_NAME"@.len());
    reveal_strlit("GENERATED");
    assert("OBJECT"@.len() != "GENERATED"@.len());
    reveal_strlit("GLOWCOLOR");
    assert("OBJECT"@.len() != "GLOWCOLOR"@.len());
    reveal_strlit("GLOWTILE");
    assert("OBJECT"@.len() != "GLOWTILE"@.len());
    reveal_strlit("GOOD");
    assert("OBJECT"@.len() != "GOOD"@.len());
    reveal_strlit("LARGE_ROAMING");
    assert("OBJECT"@.len() != "LARGE_ROAMING"@.len());
    reveal_strlit("LOCAL_POPS_CONTROLLABLE");
    assert("OBJECT"@.len() != "LOCAL_POPS_CONTROLLABLE"@.len());
    reveal_strlit("LOCAL_POPS_PRODUCE_HEROES");
    assert("OBJECT"@.len() != "LOCAL_POPS_PRODUCE_HEROES"@.len());
    reveal_strlit("LOOSE_CLUSTERS");
    assert("OBJECT"@.len() != "LOOSE_CLUSTERS"@.len());
    reveal_strlit("MUNDANE");
    assert("OBJECT"@.len() != "MUNDANE"@.len());
    reveal_strlit("NAME");
    assert("OBJECT"@.len() != "NAME"@.len());
    reveal_strlit("POPULATION_NUMBER");
    assert("OBJECT"@.len() != "POPULATION_NUMBER"@.len());
    reveal_strlit("PREFSTRING");
    assert("OBJECT"@.len() != "PREFSTRING"@.len());
    reveal_strlit("SAVAGE");
    assert("OBJECT"@[0] != "SAVAGE"@[0]);
    reveal_strlit("UBIQUITOUS");
    assert("OBJECT"@.len() != "UBIQUITOUS"@.len());
    reveal_strlit("UNDERGROUND_DEPTH");
    assert("OBJECT"@.len() != "UNDERGROUND_DEPTH"@.len());
    reveal_strlit("VERMIN_EATER");
    assert("OBJECT"@.len() != "VERMIN_EATER"@.len());
    reveal_strlit("VERMIN_FISH");
    assert("OBJECT"@.len() != "VERMIN_FISH"@.len());
    reveal_strlit("VERMIN_GROUNDER");
    assert("OBJECT"@.len() != "VERMIN_GROUNDER"@.len());
    reveal_strlit("VERMIN_ROTTER");
    assert("OBJECT"@.len() != "VERMIN_ROTTER"@.len());
    reveal_strlit("VERMIN_SOIL");
    assert("OBJECT"@.len() != "VERMIN_SOIL"@.len());
    reveal_strlit("VERMIN_SOIL_COLONY");
    assert("OBJECT"@.len() != "VERMIN_SOIL_COLONY"@.len());
}

proof fn lemma_creature_not_caste_key()
    ensures
        caste_tag_of("CREATURE"@) is None,
{
    reveal_strlit("CREATURE");
    reveal_strlit("ADOPTS_OWNER");
    assert("CREATURE"@.len() != "ADOPTS_OWNER"@.len());
    reveal_strlit("ALL_ACTIVE");
    assert("CREATURE"@.len() != "ALL_ACTIVE"@.len());
    reveal_strlit("AMBUSHPREDATOR");
    assert("CREATURE"@.len() != "AMBUSHPREDATOR"@.len());
    reveal_strlit("AMBUSH_PREDATOR");
    assert("CREATURE"@.len() != "AMBUSH_PREDATOR"@.len());
    reveal_strlit("AMPHIBIOUS");
    assert("CREATURE"@.len() != "AMPHIBIOUS"@.len());
    reveal_strlit("AQUATIC");
    assert("CREATURE"@.len() != "AQUATIC"@.len());
    reveal_strlit("ARENA_RESTRICTED");
    assert("CREATURE"@.len() != "ARENA_RESTRICTED"@.len());
    reveal_strlit("AT_PEACE_WITH_WILDLIFE");
    assert("CREATURE"@.len() != "AT_PEACE_WITH_WILDLIFE"@.len());
    reveal_strlit("BABY");
    assert("CREATURE"@.len() != "BABY"@.len());
    reveal_strlit("BABYNAME");
    assert("CREATURE"@[0] != "BABYNAME"@[0]);
    reveal_strlit("BENIGN");
    assert("CREATURE"@.len() != "BENIGN"@.len());
    reveal_strlit("BODY_SIZE");
    assert("CREATURE"@.len() != "BODY_SIZE"@.len());
    reveal_strlit("BONECARN");
    assert("CREATURE"@[0] != "BONECARN"@[0]);
    reveal_strlit("CAN_LEARN");
    assert("CREATURE"@.len() != "CAN_LEARN"@.len());
    reveal_strlit("CAN_SPEAK");
    assert("CREATURE"@.len() != "CAN_SPEAK"@.len());
    reveal_strlit("CARNIVORE");
    assert("CREATURE"@.len() != "CARNIVORE"@.len());
    reveal_strlit("CASTE_ALTTILE");
    assert("CREATURE"@.len() != "CASTE_ALTTILE"@.len());
    reveal_strlit("CASTE_COLOR");
    assert("CREATURE"@.len() != "CASTE_COLOR"@.len());
    reveal_strlit("CASTE_GLOWCOLOR");
    assert("CREATURE"@.len() != "CASTE_GLOWCOLOR"@.len());
    reveal_strlit("CASTE_GLOWTILE");
    assert("CREATURE"@.len() != "CASTE_GLOWTILE"@.len());
    reveal_strlit("CASTE_NAME");
    assert("CREATURE"@.len() != "CASTE_NAME"@.len());
    reveal_strlit("CASTE_TILE");
    assert("CREATURE"@.len() != "CASTE_TILE"@.len());
    reveal_strlit("CHANGE_BODY_SIZE_PERC");
    assert("CREATURE"@.len() != "CHANGE_BODY_SIZE_PERC"@.len());
    reveal_strlit("CHILD");
    assert("CREATURE"@.len() != "CHILD"@.len());
    reveal_strlit("CHILDNAME");
    assert("CREATURE"@.len() != "CHILDNAME"@.len());
    reveal_strlit("CLUTCH_SIZE");
    assert("CREATURE"@.len() != "CLUTCH_SIZE"@.len());
    reveal_strlit("COMMON_DOMESTIC");
    assert("CREATURE"@.len() != "COMMON_DOMESTIC"@.len());
    reveal_strlit("COOKABLE_LIVE");
    assert("CREATURE"@.len() != "COOKABLE_LIVE"@.len());
    reveal_strlit("CREATURE_CLASS");
    assert("CREATURE"@.len() != "CREATURE_CLASS"@.len());
    reveal_strlit("CREPUSCULAR");
    assert("CREATURE"@.len() != "CREPUSCULAR"@.len());
    reveal_strlit("CURIOUSBEAST_EATER");
    assert("CREATURE"@.len() != "CURIOUSBEAST_EATER"@.len());
    reveal_strlit("CURIOUSBEAST_GUZZLER");
    assert("CREATURE"@.len() != "CURIOUSBEAST_GUZZLER"@.len());
    reveal_strlit("CURIOUSBEAST_ITEM");
    assert("CREATURE"@.len() != "CURIOUSBEAST_ITEM"@.len());
    reveal_strlit("DEMON");
    assert("CREATURE"@.len() != "DEMON"@.len());
    reveal_strlit("DESCRIPTION");
    assert("CREATURE"@.len() != "DESCRIPTION"@.len());
    reveal_strlit("DIE_WHEN_VERMIN_BITE");
    assert("CREATURE"@.len() != "DIE_WHEN_VERMIN_BITE"@.len());
    reveal_strlit("DIFFICULTY");
    assert("CREATURE"@.len() != "DIFFICULTY"@.len());
    reveal_strlit("DIURNAL");
    assert("CREATURE"@.len() != "DIURNAL"@.len());
    reveal_strlit("EGG_SIZE");
    assert("CREATURE"@[0] != "EGG_SIZE"@[0]);
    reveal_strlit("EQUIPS");
    assert("CREATURE"@.len() != "EQUIPS"@.len());
    reveal_strlit("EXTRAVISION");
    assert("CREATURE"@.len() != "EXTRAVISION"@.len());
    reveal_strlit("FEATURE_BEAST");
    assert("CREATURE"@.len() != "FEATURE_BEAST"@.len());
    reveal_strlit("FEMALE");
    assert("CREATURE"@.len() != "FEMALE"@.len());
    reveal_strlit("FIREIMMUNE");
    assert("CREATURE"@.len() != "FIREIMMUNE"@.len());
    reveal_strlit("FIREIMMUNE_SUPER");
    assert("CREATURE"@.len() != "FIREIMMUNE_SUPER"@.len());
    reveal_strlit("FISHITEM");
    assert("CREATURE"@[0] != "FISHITEM"@[0]);
    reveal_strlit("FLIER");
    assert("CREATURE"@.len() != "FLIER"@.len());
    reveal_strlit("GNAWER");
    assert("CREATURE"@.len() != "GNAWER"@.len());
    reveal_strlit("GRASSTRAMPLE");
    assert("CREATURE"@.len() != "GRASSTRAMPLE"@.len());
    reveal_strlit("GRAZER");
    assert("CREATURE"@.len() != "GRAZER"@.len());
    reveal_strlit("HAS_NERVES");
    assert("CREATURE"@.len() != "HAS_NERVES"@.len());
    reveal_strlit("HUNTS_VERMIN");
    assert("CREATURE"@.len() != "HUNTS_VERMIN"@.len());
    reveal_strlit("IMMOBILE");
    assert("CREATURE"@[0] != "IMMOBILE"@[0]);
    reveal_strlit("IMMOBILE_LAND");
    assert("CREATURE"@.len() != "IMMOBILE_LAND"@.len());
    reveal_strlit("IMMOLATE");
    assert("CREATURE"@[0] != "IMMOLATE"@[0]);
    reveal_strlit("INTELLIGENT");
    assert("CREATURE"@.len() != "INTELLIGENT"@.len());
    reveal_strlit("LAYS_EGGS");
    assert("CREATURE"@.len() != "LAYS_EGGS"@.len());
    reveal_strlit("LIGHT_GEN");
    assert("CREATURE"@.len() != "LIGHT_GEN"@.len());
    reveal_strlit("LITTERSIZE");
    assert("CREATURE"@.len() != "LITTERSIZE"@.len());
    reveal_strlit("LOCKPICKER");
    assert("CREATURE"@.len() != "LOCKPICKER"@.len());
    reveal_strlit("LOW_LIGHT_VISION");
    assert("CREATURE"@.len() != "LOW_LIGHT_VISION"@.len());
    reveal_strlit("MAGMA_VISION");
    assert("CREATURE"@.len() != "MAGMA_VISION"@.len());
    reveal_strlit("MALE");
    assert("CREATURE"@.len() != "MALE"@.len());
    reveal_strlit("MATUTINAL");
    assert("CREATURE"@.len() != "MATUTINAL"@.len());
    reveal_strlit("MAXAGE");
    assert("CREATURE"@.len() != "MAXAGE"@.len());
    reveal_strlit("MEANDERER");
    assert("CREATURE"@.len() != "MEANDERER"@.len());
    reveal_strlit("MEGABEAST");
    assert("CREATURE"@.len() != "MEGABEAST"@.len());
    reveal_strlit("MILKABLE");
    assert("CREATURE"@[0] != "MILKABLE"@[0]);
    reveal_strlit("MISCHIEVIOUS");
    assert("CREATURE"@.len() != "MISCHIEVIOUS"@.len());
    reveal_strlit("MISCHIEVOUS");
    assert("CREATURE"@.len() != "MISCHIEVOUS"@.len());
    reveal_strlit("MOUNT");
    assert("CREATURE"@.len() != "MOUNT"@.len());
    reveal_strlit("MOUNT_EXOTIC");
    assert("CREATURE"@.len() != "MOUNT_EXOTIC"@.len());
    reveal_strlit("MULTIPART_FULL_VISION");
    assert("CREATURE"@.len() != "MULTIPART_FULL_VISION"@.len());
    reveal_strlit("MULTIPLE_LITTER_RARE");
    assert("CREATURE"@.len() != "MULTIPLE_LITTER_RARE"@.len());
    reveal_strlit("NATURAL");
    assert("CREATURE"@.len() != "NATURAL"@.len());
    reveal_strlit("NOBONES");
    assert("CREATURE"@.len() != "NOBONES"@.len());
    reveal_strlit("NOBREATHE");
    assert("CREATURE"@.len() != "NOBREATHE"@.len());
    reveal_strlit("NOCTURNAL");
    assert("CREATURE"@.len() != "NOCTURNAL"@.len());
    reveal_strlit("NOEMOTION");
    assert("CREATURE"@.len() != "NOEMOTION"@.len());
    reveal_strlit("NOEXERT");
    assert("CREATURE"@.len() != "NOEXERT"@.len());
    reveal_strlit("NOFEAR");
    assert("CREATURE"@.len() != "NOFEAR"@.len());
    reveal_strlit("NOMEAT");
    assert("CREATURE"@.len() != "NOMEAT"@.len());
    reveal_strlit("NONAUSEA");
    assert("CREATURE"@[0] != "NONAUSEA"@[0]);
    reveal_strlit("NOPAIN");
    assert("CREATURE"@.len() != "NOPAIN"@.len());
    reveal_strlit("NOSKIN");
    assert("CREATURE"@.len() != "NOSKIN"@.len());
    reveal_strlit("NOSKULL");
    assert("CREATURE"@.len() != "NOSKULL"@.len());
    reveal_strlit("NOSMELLYROT");
    assert("CREATURE"@.len() != "NOSMELLYROT"@.len());
    reveal_strlit("NOSTUCKINS");
    assert("CREATURE"@.len() != "NOSTUCKINS"@.len());
    reveal_strlit("NOSTUN");
    assert("CREATURE"@.len() != "NOSTUN"@.len());
    reveal_strlit("NOTHOUGHT");
    assert("CREATURE"@.len() != "NOTHOUGHT"@.len());
    reveal_strlit("NOT_BUTCHERABLE");
    assert("CREATURE"@.len() != "NOT_BUTCHERABLE"@.len());
    reveal_strlit("NOT_LIVING");
    assert("CREATURE"@.len() != "NOT_LIVING"@.len());
    reveal_strlit("NO_AUTUMN");
    assert("CREATURE"@.len() != "NO_AUTUMN"@.len());
    reveal_strlit("NO_CONNECTIONS_FOR_MOVEMENT");
    assert("CREATURE"@.len() != "NO_CONNECTIONS_FOR_MOVEMENT"@.len());
    reveal_strlit("NO_DIZZINESS");
    assert("CREATURE"@.len() != "NO_DIZZINESS"@.len());
    reveal_strlit("NO_DRINK");
    assert("CREATURE"@[0] != "NO_DRINK"@[0]);
    reveal_strlit("NO_EAT");
    assert("CREATURE"@.len() != "NO_EAT"@.len());
    reveal_strlit("NO_FEVERS");
    assert("CREATURE"@.len() != "NO_FEVERS"@.len());
    reveal_strlit("NO_GENDER");
    assert("CREATURE"@.len() != "NO_GENDER"@.len());
    reveal_strlit("NO_SLEEP");
    assert("CREATURE"@[0] != "NO_SLEEP"@[0]);
    reveal_strlit("NO_SPRING");
    assert("CREATURE"@.len() != "NO_SPRING"@.len());
    reveal_strlit("NO_SUMMER");
    assert("CREATURE"@.len() != "NO_SUMMER"@.len());
    reveal_strlit("NO_WINTER");
    assert("CREATURE"@.len() != "NO_WINTER"@.len());
    reveal_strlit("OPPOSED_TO_LIFE");
    assert("CREATURE"@.len() != "OPPOSED_TO_LIFE"@.len());
    reveal_strlit("OUTSIDER_CONTROLLABLE");
    assert("CREATURE"@.len() != "OUTSIDER_CONTROLLABLE"@.len());
    reveal_strlit("PACK_ANIMAL");
    assert("CREATURE"@.len() != "PACK_ANIMAL"@.len());
    reveal_strlit("PARALYZEIMMUNE");
    assert("CREATURE"@.len() != "PARALYZEIMMUNE"@.len());
    reveal_strlit("PET");
    assert("CREATURE"@.len() != "PET"@.len());
    reveal_strlit("PETVALUE");
    assert("CREATURE"@[0] != "PETVALUE"@[0]);
    reveal_strlit("PET_EXOTIC");
    assert("CREATURE"@.len() != "PET_EXOTIC"@.len());
    reveal_strlit("POP_RATIO");
    assert("CREATURE"@.len() != "POP_RATIO"@.len());
    reveal_strlit("POWER");
    assert("CREATURE"@.len() != "POWER"@.len());
    reveal_strlit("SEMIMEGABEAST");
    assert("CREATURE"@.len() != "SEMIMEGABEAST"@.len());
    reveal_strlit("SLOW_LEARNER");
    assert("CREATURE"@.len() != "SLOW_LEARNER"@.len());
    reveal_strlit("SMALL_REMAINS");
    assert("CREATURE"@.len() != "SMALL_REMAINS"@.len());
    reveal_strlit("STANDARD_GRAZER");
    assert("CREATURE"@.len() != "STANDARD_GRAZER"@.len());
    reveal_strlit("SUPERNATURAL");
    assert("CREATURE"@.len() != "SUPERNATURAL"@.len());
    reveal_strlit("SWIMS_INNATE");
    assert("CREATURE"@.len() != "SWIMS_INNATE"@.len());
    reveal_strlit("SWIMS_LEARNED");
    assert("CREATURE"@.len() != "SWIMS_LEARNED"@.len());
    reveal_strlit("THICKWEB");
    assert("CREATURE"@[0] != "THICKWEB"@[0]);
    reveal_strlit("TITAN");
    assert("CREATURE"@.len() != "TITAN"@.len());
    reveal_strlit("TRAINABLE");
    assert("CREATURE"@.len() != "TRAINABLE"@.len());
    reveal_strlit("TRAINABLE_HUNTING");
    assert("CREATURE"@.len() != "TRAINABLE_HUNTING"@.len());
    reveal_strlit("TRAINABLE_WAR");
    assert("CREATURE"@.len() != "TRAINABLE_WAR"@.len());
    reveal_strlit("TRANCES");
    assert("CREATURE"@.len() != "TRANCES"@.len());
    reveal_strlit("TRAPAVOID");
    assert("CREATURE"@.len() != "TRAPAVOID"@.len());
    reveal_strlit("UNIQUE_DEMON");
    assert("CREATURE"@.len() != "UNIQUE_DEMON"@.len());
    reveal_strlit("VEGETATION");
    assert("CREATURE"@.len() != "VEGETATION"@.len());
    reveal_strlit("VERMIN_HATEABLE");
    assert("CREATURE"@.len() != "VERMIN_HATEABLE"@.len());
    reveal_strlit("VERMIN_MICRO");
    assert("CREATURE"@.len() != "VERMIN_MICRO"@.len());
    reveal_strlit("VERMIN_NOFISH");
    assert("CREATURE"@.len() != "VERMIN_NOFISH"@.len());
    reveal_strlit("VERMIN_NOROAM");
    assert("CREATURE"@.len() != "VERMIN_NOROAM"@.len());
    reveal_strlit("VERMIN_NOTRAP");
    assert("CREATURE"@.len() != "VERMIN_NOTRAP"@.len());
    reveal_strlit("VESPERTINE");
    assert("CREATURE"@.len() != "VESPERTINE"@.len());
    reveal_strlit("WAGON_PULLER");
    assert("CREATURE"@.len() != "WAGON_PULLER"@.len());
    reveal_strlit("WEBIMMUNE");
    assert("CREATURE"@.len() != "WEBIMMUNE"@.len());
}

proof fn lemma_creature_not_creature_key()
    ensures
        creature_tag_of("CREATURE"@) is None,
{
    reveal_strlit("CREATURE");
    reveal_strlit("ALTTILE");
    assert("CREATURE"@.len() != "ALTTILE"@.len());
    reveal_strlit("APPLY_CREATURE_VARIATION");
    assert("CREATURE"@.len() != "APPLY_CREATURE_VARIATION"@.len());
    reveal_strlit("ARTIFICIAL_HIVEABLE");
    assert("CREATURE"@.len() != "ARTIFICIAL_HIVEABLE"@.len());
    reveal_strlit("BIOME");
    assert("CREATURE"@.len() != "BIOME"@.len());
    reveal_strlit("CHANGE_FREQUENCY_PERC");
    assert("CREATURE"@.len() != "CHANGE_FREQUENCY_PERC"@.len());
    reveal_strlit("CLUSTER_NUMBER");
    assert("CREATURE"@.len() != "CLUSTER_NUMBER"@.len());
    reveal_strlit("COLOR");
    assert("CREATURE"@.len() != "COLOR"@.len());
    reveal_strlit("COPY_TAGS_FROM");
    assert("CREATURE"@.len() != "COPY_TAGS_FROM"@.len());
    reveal_strlit("CREATURE_TILE");
    assert("CREATURE"@.len() != "CREATURE_TILE"@.len());
    reveal_strlit("DOES_NOT_EXIST");
    assert("CREATURE"@.len() != "DOES_NOT_EXIST"@.len());
    reveal_strlit("EVIL");
    assert("CREATURE"@.len() != "EVIL"@.len());
    reveal_strlit("FANCIFUL");
    assert("CREATURE"@[0] != "FANCIFUL"@[0]);
    reveal_strlit("FREQUENCY");
    assert("CREATURE"@.len() != "FREQUENCY"@.len());
    reveal_strlit("GENERAL_BABY_NAME");
    assert("CREATURE"@.len() != "GENERAL_BABY_NAME"@.len());
    reveal_strlit("GENERAL_CHILD_NAME");
    assert("CREATURE"@.len() != "GENERAL_CHILD_NAME"@.len());
    reveal_strlit("GENERATED");
    assert("CREATURE"@.len() != "GENERATED"@.len());
    reveal_strlit("GLOWCOLOR");
    assert("CREATURE"@.len() != "GLOWCOLOR"@.len());
    reveal_strlit("GLOWTILE");
    assert("CREATURE"@[0] != "GLOWTILE"@[0]);
    reveal_strlit("GOOD");
    assert("CREATURE"@.len() != "GOOD"@.len());
    reveal_strlit("LARGE_ROAMING");
    assert("CREATURE"@.len() != "LARGE_ROAMING"@.len());
    reveal_strlit("LOCAL_POPS_CONTROLLABLE");
    assert("CREATURE"@.len() != "LOCAL_POPS_CONTROLLABLE"@.len());
    reveal_strlit("LOCAL_POPS_PRODUCE_HEROES");
    assert("CREATURE"@.len() != "LOCAL_POPS_PRODUCE_HEROES"@.len());
    reveal_strlit("LOOSE_CLUSTERS");
    assert("CREATURE"@.len() != "LOOSE_CLUSTERS"@.len());
    reveal_strlit("MUNDANE");
    assert("CREATURE"@.len() != "MUNDANE"@.len());
    reveal_strlit("NAME");
    assert("CREATURE"@.len() != "NAME"@.len());
    reveal_strlit("POPULATION_NUMBER");
    assert("CREATURE"@.len() != "POPULATION_NUMBER"@.len());
    reveal_strlit("PREFSTRING");
    assert("CREATURE"@.len() != "PREFSTRING"@.len());
    reveal_strlit("SAVAGE");
    assert("CREATURE"@.len() != "SAVAGE"@.len());
    reveal_strlit("UBIQUITOUS");
    assert("CREATURE"@.len() != "UBIQUITOUS"@.len());
    reveal_strlit("UNDERGROUND_DEPTH");
    assert("CREATURE"@.len() != "UNDERGROUND_DEPTH"@.len());
    reveal_strlit("VERMIN_EATER");
    assert("CREATURE"@.len() != "VERMIN_EATER"@.len());
    reveal_strlit("VERMIN_FISH");
    assert("CREATURE"@.len() != "VERMIN_FISH"@.len());
    reveal_strlit("VERMIN_GROUNDER");
    assert("CREATURE"@.len() != "VERMIN_GROUNDER"@.len());
    reveal_strlit("VERMIN_ROTTER");
    assert("CREATURE"@.len() != "VERMIN_ROTTER"@.len());
    reveal_strlit("VERMIN_SOIL");
    assert("CREATURE"@.len() != "VERMIN_SOIL"@.len());
    reveal_strlit("VERMIN_SOIL_COLONY");
    assert("CREATURE"@.len() != "VERMIN_SOIL_COLONY"@.len());
}

proof fn lemma_select_creature_not_caste_key()
    ensures
        caste_tag_of("SELECT_CREATURE"@) is None,
{
    reveal_strlit("SELECT_CREATURE");
    reveal_strlit("ADOPTS_OWNER");
    assert("SELECT_CREATURE"@.len() != "ADOPTS_OWNER"@.len());
    reveal_strlit("ALL_ACTIVE");
    assert("SELECT_CREATURE"@.len() != "ALL_ACTIVE"@.len());
    reveal_strlit("AMBUSHPREDATOR");
    assert("SELECT_CREATURE"@.len() != "AMBUSHPREDATOR"@.len());
    reveal_strlit("AMBUSH_PREDATOR");
    assert("SELECT_CREATURE"@[0] != "AMBUSH_PREDATOR"@[0]);
    reveal_strlit("AMPHIBIOUS");
    assert("SELECT_CREATURE"@.len() != "AMPHIBIOUS"@.len());
    reveal_strlit("AQUATIC");
    assert("SELECT_CREATURE"@.len() != "AQUATIC"@.len());
    reveal_strlit("ARENA_RESTRICTED");
    assert("SELECT_CREATURE"@.len() != "ARENA_RESTRICTED"@.len());
    reveal_strlit("AT_PEACE_WITH_WILDLIFE");
    assert("SELECT_CREATURE"@.len() != "AT_PEACE_WITH_WILDLIFE"@.len());
    reveal_strlit("BABY");
    assert("SELECT_CREATURE"@.len() != "BABY"@.len());
    reveal_strlit("BABYNAME");
    assert("SELECT_CREATURE"@.len() != "BABYNAME"@.len());
    reveal_strlit("BENIGN");
    assert("SELECT_CREATURE"@.len() != "BENIGN"@.len());
    reveal_strlit("BODY_SIZE");
    assert("SELECT_CREATURE"@.len() != "BODY_SIZE"@.len());
    reveal_strlit("BONECARN");
    assert("SELECT_CREATURE"@.len() != "BONECARN"@.len());
    reveal_strlit("CAN_LEARN");
    assert("SELECT_CREATURE"@.len() != "CAN_LEARN"@.len());
    reveal_strlit("CAN_SPEAK");
    assert("SELECT_CREATURE"@.len() != "CAN_SPEAK"@.len());
    reveal_strlit("CARNIVORE");
    assert("SELECT_CREATURE"@.len() != "CARNIVORE"@.len());
    reveal_strlit("CASTE_ALTTILE");
    assert("SELECT_CREATURE"@.len() != "CASTE_ALTTILE"@.len());
    reveal_strlit("CASTE_COLOR");
    assert("SELECT_CREATURE"@.len() != "CASTE_COLOR"@.len());
    reveal_strlit("CASTE_GLOWCOLOR");
    assert("SELECT_CREATURE"@[0] != "CASTE_GLOWCOLOR"@[0]);
    reveal_strlit("CASTE_GLOWTILE");
    assert("SELECT_CREATURE"@.len() != "CASTE_GLOWTILE"@.len());
    reveal_strlit("CASTE_NAME");
    assert("SELECT_CREATURE"@.len() != "CASTE_NAME"@.len());
    reveal_strlit("CASTE_TILE");
    assert("SELECT_CREATURE"@.len() != "CASTE_TILE"@.len());
    reveal_strlit("CHANGE_BODY_SIZE_PERC");
    assert("SELECT_CREATURE"@.len() != "CHANGE_BODY_SIZE_PERC"@.len());
    reveal_strlit("CHILD");
    assert("SELECT_CREATURE"@.len() != "CHILD"@.len());
    reveal_strlit("CHILDNAME");
    assert("SELECT_CREATURE"@.len() != "CHILDNAME"@.len());
    reveal_strlit("CLUTCH_SIZE");
    assert("SELECT_CREATURE"@.len() != "CLUTCH_SIZE"@.len());
    reveal_strlit("COMMON_DOMESTIC");
    assert("SELECT_CREATURE"@[0] != "COMMON_DOMESTIC"@[0]);
    reveal_strlit("COOKABLE_LIVE");
    assert("SELECT_CREATURE"@.len() != "COOKABLE_LIVE"@.len());
    reveal_strlit("CREATURE_CLASS");
    assert("SELECT_CREATURE"@.len() != "CREATURE_CLASS"@.len());
    reveal_strlit("CREPUSCULAR");
    assert("SELECT_CREATURE"@.len() != "CREPUSCULAR"@.len());
    reveal_strlit("CURIOUSBEAST_EATER");
    assert("SELECT_CREATURE"@.len() != "CURIOUSBEAST_EATER"@.len());
    reveal_strlit("CURIOUSBEAST_GUZZLER");
    assert("SELECT_CREATURE"@.len() != "CURIOUSBEAST_GUZZLER"@.len());
    reveal_strlit("CURIOUSBEAST_ITEM");
    assert("SELECT_CREATURE"@.len() != "CURIOUSBEAST_ITEM"@.len());
    reveal_strlit("DEMON");
    assert("SELECT_CREATURE"@.len() != "DEMON"@.len());
    reveal_strlit("DESCRIPTION");
    assert("SELECT_CREATURE"@.len() != "DESCRIPTION"@.len());
    reveal_strlit("DIE_WHEN_VERMIN_BITE");
    assert("SELECT_CREATURE"@.len() != "DIE_WHEN_VERMIN_BITE"@.len());
    reveal_strlit("DIFFICULTY");
    assert("SELECT_CREATURE"@.len() != "DIFFICULTY"@.len());
    reveal_strlit("DIURNAL");
    assert("SELECT_CREATURE"@.len() != "DIURNAL"@.len());
    reveal_strlit("EGG_SIZE");
    assert("SELECT_CREATURE"@.len() != "EGG_SIZE"@.len());
    reveal_strlit("EQUIPS");
    assert("SELECT_CREATURE"@.len() != "EQUIPS"@.len());
    reveal_strlit("EXTRAVISION");
    assert("SELECT_CREATURE"@.len() != "EXTRAVISION"@.len());
    reveal_strlit("FEATURE_BEAST");
    assert("SELECT_CREATURE"@.len() != "FEATURE_BEAST"@.len());
    reveal_strlit("FEMALE");
    assert("SELECT_CREATURE"@.len() != "FEMALE"@.len());
    reveal_strlit("FIREIMMUNE");
    assert("SELECT_CREATURE"@.len() != "FIREIMMUNE"@.len());
    reveal_strlit("FIREIMMUNE_SUPER");
    assert("SELECT_CREATURE"@.len() != "FIREIMMUNE_SUPER"@.len());
    reveal_strlit("FISHITEM");
    assert("SELECT_CREATURE"@.len() != "FISHITEM"@.len());
    reveal_strlit("FLIER");
    assert("SELECT_CREATURE"@.len() != "FLIER"@.len());
    reveal_strlit("GNAWER");
    assert("SELECT_CREATURE"@.len() != "GNAWER"@.len());
    reveal_strlit("GRASSTRAMPLE");
    assert("SELECT_CREATURE"@.len() != "GRASSTRAMPLE"@.len());
    reveal_strlit("GRAZER");
    assert("SELECT_CREATURE"@.len() != "GRAZER"@.len());
    reveal_strlit("HAS_NERVES");
    assert("SELECT_CREATURE"@.len() != "HAS_NERVES"@.len());
    reveal_strlit("HUNTS_VERMIN");
    assert("SELECT_CREATURE"@.len() != "HUNTS_VERMIN"@.len());
    reveal_strlit("IMMOBILE");
    assert("SELECT_CREATURE"@.len() != "IMMOBILE"@.len());
    reveal_strlit("IMMOBILE_LAND");
    assert("SELECT_CREATURE"@.len() != "IMMOBILE_LAND"@.len());
    reveal_strlit("IMMOLATE");
    assert("SELECT_CREATURE"@.len() != "IMMOLATE"@.len());
    reveal_strlit("INTELLIGENT");
    assert("SELECT_CREATURE"@.len() != "INTELLIGENT"@.len());
    reveal_strlit("LAYS_EGGS");
    assert("SELECT_CREATURE"@.len() != "LAYS_EGGS"@.len());
    reveal_strlit("LIGHT_GEN");
    assert("SELECT_CREATURE"@.len() != "LIGHT_GEN"@.len());
    reveal_strlit("LITTERSIZE");
    assert("SELECT_CREATURE"@.len() != "LITTERSIZE"@.len());
    reveal_strlit("LOCKPICKER");
    assert("SELECT_CREATURE"@.len() != "LOCKPICKER"@.len());
    reveal_strlit("LOW_LIGHT_VISION");
    assert("SELECT_CREATURE"@.len() != "LOW_LIGHT_VISION"@.len());
    reveal_strlit("MAGMA_VISION");
    assert("SELECT_CREATURE"@.len() != "MAGMA_VISION"@.len());
    reveal_strlit("MALE");
    assert("SELECT_CREATURE"@.len() != "MALE"@.len());
    reveal_strlit("MATUTINAL");
    assert("SELECT_CREATURE"@.len() != "MATUTINAL"@.len());
    reveal_strlit("MAXAGE");
    assert("SELECT_CREATURE"@.len() != "MAXAGE"@.len());
    reveal_strlit("MEANDERER");
    assert("SELECT_CREATURE"@.len() != "MEANDERER"@.len());
    reveal_strlit("MEGABEAST");
    assert("SELECT_CREATURE"@.len() != "MEGABEAST"@.len());
    reveal_strlit("MILKABLE");
    assert("SELECT_CREATURE"@.len() != "MILKABLE"@.len());
    reveal_strlit("MISCHIEVIOUS");
    assert("SELECT_CREATURE"@.len() != "MISCHIEVIOUS"@.len());
    reveal_strlit("MISCHIEVOUS");
    assert("SELECT_CREATURE"@.len() != "MISCHIEVOUS"@.len());
    reveal_strlit("MOUNT");
    assert("SELECT_CREATURE"@.len() != "MOUNT"@.len());
    reveal_strlit("MOUNT_EXOTIC");
    assert("SELECT_CREATURE"@.len() != "MOUNT_EXOTIC"@.len());
    reveal_strlit("MULTIPART_FULL_VISION");
    assert("SELECT_CREATURE"@.len() != "MULTIPART_FULL_VISION"@.len());
    reveal_strlit("MULTIPLE_LITTER_RARE");
    assert("SELECT_CREATURE"@.len() != "MULTIPLE_LITTER_RARE"@.len());
    reveal_strlit("NATURAL");
    assert("SELECT_CREATURE"@.len() != "NATURAL"@.len());
    reveal_strlit("NOBONES");
    assert("SELECT_CREATURE"@.len() != "NOBONES"@.len());
    reveal_strlit("NOBREATHE");
    assert("SELECT_CREATURE"@.len() != "NOBREATHE"@.len());
    reveal_strlit("NOCTURNAL");
    assert("SELECT_CREATURE"@.len() != "NOCTURNAL"@.len());
    reveal_strlit("NOEMOTION");
    assert("SELECT_CREATURE"@.len() != "NOEMOTION"@.len());
    reveal_strlit("NOEXERT");
    assert("SELECT_CREATURE"@.len() != "NOEXERT"@.len());
    reveal_strlit("NOFEAR");
    assert("SELECT_CREATURE"@.len() != "NOFEAR"@.len());
    reveal_strlit("NOMEAT");
    assert("SELECT_CREATURE"@.len() != "NOMEAT"@.len());
    reveal_strlit("NONAUSEA");
    assert("SELECT_CREATURE"@.len() != "NONAUSEA"@.len());
    reveal_strlit("NOPAIN");
    assert("SELECT_CREATURE"@.len() != "NOPAIN"@.len());
    reveal_strlit("NOSKIN");
    assert("SELECT_CREATURE"@.len() != "NOSKIN"@.len());
    reveal_strlit("NOSKULL");
    assert("SELECT_CREATURE"@.len() != "NOSKULL"@.len());
    reveal_strlit("NOSMELLYROT");
    assert("SELECT_CREATURE"@.len() != "NOSMELLYROT"@.len());
    reveal_strlit("NOSTUCKINS");
    assert("SELECT_CREATURE"@.len() != "NOSTUCKINS"@.len());
    reveal_strlit("NOSTUN");
    assert("SELECT_CREATURE"@.len() != "NOSTUN"@.len());
    reveal_strlit("NOTHOUGHT");
    assert("SELECT_CREATURE"@.len() != "NOTHOUGHT"@.len());
    reveal_strlit("NOT_BUTCHERABLE");
    assert("SELECT_CREATURE"@[0] != "NOT_BUTCHERABLE"@[0]);
    reveal_strlit("NOT_LIVING");
    assert("SELECT_CREATURE"@.len() != "NOT_LIVING"@.len());
    reveal_strlit("NO_AUTUMN");
    assert("SELECT_CREATURE"@.len() != "NO_AUTUMN"@.len());
    reveal_strlit("NO_CONNECTIONS_FOR_MOVEMENT");
    assert("SELECT_CREATURE"@.len() != "NO_CONNECTIONS_FOR_MOVEMENT"@.len());
    reveal_strlit("NO_DIZZINESS");
    assert("SELECT_CREATURE"@.len() != "NO_DIZZINESS"@.len());
    reveal_strlit("NO_DRINK");
    assert("SELECT_CREATURE"@.len() != "NO_DRINK"@.len());
    reveal_strlit("NO_EAT");
    assert("SELECT_CREATURE"@.len() != "NO_EAT"@.len());
    reveal_strlit("NO_FEVERS");
    assert("SELECT_CREATURE"@.len() != "NO_FEVERS"@.len());
    reveal_strlit("NO_GENDER");
    assert("SELECT_CREATURE"@.len() != "NO_GENDER"@.len());
    reveal_strlit("NO_SLEEP");
    assert("SELECT_CREATURE"@.len() != "NO_SLEEP"@.len());
    reveal_strlit("NO_SPRING");
    assert("SELECT_CREATURE"@.len() != "NO_SPRING"@.len());
    reveal_strlit("NO_SUMMER");
    assert("SELECT_CREATURE"@.len() != "NO_SUMMER"@.len());
    reveal_strlit("NO_WINTER");
    assert("SELECT_CREATURE"@.len() != "NO_WINTER"@.len());
    reveal_strlit("OPPOSED_TO_LIFE");
    assert("SELECT_CREATURE"@[0] != "OPPOSED_TO_LIFE"@[0]);
    reveal_strlit("OUTSIDER_CONTROLLABLE");
    assert("SELECT_CREATURE"@.len() != "OUTSIDER_CONTROLLABLE"@.len());
    reveal_strlit("PACK_ANIMAL");
    assert("SELECT_CREATURE"@.len() != "PACK_ANIMAL"@.len());
    reveal_strlit("PARALYZEIMMUNE");
    assert("SELECT_CREATURE"@.len() != "PARALYZEIMMUNE"@.len());
    reveal_strlit("PET");
    assert("SELECT_CREATURE"@.len() != "PET"@.len());
    reveal_strlit("PETVALUE");
    assert("SELECT_CREATURE"@.len() != "PETVALUE"@.len());
    reveal_strlit("PET_EXOTIC");
    assert("SELECT_CREATURE"@.len() != "PET_EXOTIC"@.len());
    reveal_strlit("POP_RATIO");
    assert("SELECT_CREATURE"@.len() != "POP_RATIO"@.len());
    reveal_strlit("POWER");
    assert("SELECT_CREATURE"@.len() != "POWER"@.len());
    reveal_strlit("SEMIMEGABEAST");
    assert("SELECT_CREATURE"@.len() != "SEMIMEGABEAST"@.len());
    reveal_strlit("SLOW_LEARNER");
    assert("SELECT_CREATURE"@.len() != "SLOW_LEARNER"@.len());
    reveal_strlit("SMALL_REMAINS");
    assert("SELECT_CREATURE"@.len() != "SMALL_REMAINS"@.len());
    reveal_strlit("STANDARD_GRAZER");
    assert("SELECT_CREATURE"@[1] != "STANDARD_GRAZER"@[1]);
    reveal_strlit("SUPERNATURAL");
    assert("SELECT_CREATURE"@.len() != "SUPERNATURAL"@.len());
    reveal_strlit("SWIMS_INNATE");
    assert("SELECT_CREATURE"@.len() != "SWIMS_INNATE"@.len());
    reveal_strlit("SWIMS_LEARNED");
    assert("SELECT_CREATURE"@.len() != "SWIMS_LEARNED"@.len());
    reveal_strlit("THICKWEB");
    assert("SELECT_CREATURE"@.len() != "THICKWEB"@.len());
    reveal_strlit("TITAN");
    assert("SELECT_CREATURE"@.len() != "TITAN"@.len());
    reveal_strlit("TRAINABLE");
    assert("SELECT_CREATURE"@.len() != "TRAINABLE"@.len());
    reveal_strlit("TRAINABLE_HUNTING");
    assert("SELECT_CREATURE"@.len() != "TRAINABLE_HUNTING"@.len());
    reveal_strlit("TRAINABLE_WAR");
    assert("SELECT_CREATURE"@.len() != "TRAINABLE_WAR"@.len());
    reveal_strlit("TRANCES");
    assert("SELECT_CREATURE"@.len() != "TRANCES"@.len());
    reveal_strlit("TRAPAVOID");
    assert("SELECT_CREATURE"@.len() != "TRAPAVOID"@.len());
    reveal_strlit("UNIQUE_DEMON");
    assert("SELECT_CREATURE"@.len() != "UNIQUE_DEMON"@.len());
    reveal_strlit("VEGETATION");
    assert("SELECT_CREATURE"@.len() != "VEGETATION"@.len());
    reveal_strlit("VERMIN_HATEABLE");
    assert("SELECT_CREATURE"@[0] != "VERMIN_HATEABLE"@[0]);
    reveal_strlit("VERMIN_MICRO");
    assert("SELECT_CREATURE"@.len() != "VERMIN_MICRO"@.len());
    reveal_strlit("VERMIN_NOFISH");
    assert("SELECT_CREATURE"@.len() != "VERMIN_NOFISH"@.len());
    reveal_strlit("VERMIN_NOROAM");
    assert("SELECT_CREATURE"@.len() != "VERMIN_NOROAM"@.len());
    reveal_strlit("VERMIN_NOTRAP");
    assert("SELECT_CREATURE"@.len() != "VERMIN_NOTRAP"@.len());
    reveal_strlit("VESPERTINE");
    assert("SELECT_CREATURE"@.len() != "VESPERTINE"@.len());
    reveal_strlit("WAGON_PULLER");
    assert("SELECT_CREATURE"@.len() != "WAGON_PULLER"@.len());
    reveal_strlit("WEBIMMUNE");
    assert("SELECT_CREATURE"@.len() != "WEBIMMUNE"@.len());
}

proof fn lemma_select_creature_not_creature_key()
    ensures
        creature_tag_of("SELECT_CREATURE"@) is None,
{
    reveal_strlit("SELECT_CREATURE");
    reveal_strlit("ALTTILE");
    assert("SELECT_CREATURE"@.len() != "ALTTILE"@.len());
    reveal_strlit("APPLY_CREATURE_VARIATION");
    assert("SELECT_CREATURE"@.len() != "APPLY_CREATURE_VARIATION"@.len());
    reveal_strlit("ARTIFICIAL_HIVEABLE");
    assert("SELECT_CREATURE"@.len() != "ARTIFICIAL_HIVEABLE"@.len());
    reveal_strlit("BIOME");
    assert("SELECT_CREATURE"@.len() != "BIOME"@.len());
    reveal_strlit("CHANGE_FREQUENCY_PERC");
    assert("SELECT_CREATURE"@.len() != "CHANGE_FREQUENCY_PERC"@.len());
    reveal_strlit("CLUSTER_NUMBER");
    assert("SELECT_CREATURE"@.len() != "CLUSTER_NUMBER"@.len());
    reveal_strlit("COLOR");
    assert("SELECT_CREATURE"@.len() != "COLOR"@.len());
    reveal_strlit("COPY_TAGS_FROM");
    assert("SELECT_CREATURE"@.len() != "COPY_TAGS_FROM"@.len());
    reveal_strlit("CREATURE_TILE");
    assert("SELECT_CREATURE"@.len() != "CREATURE_TILE"@.len());
    reveal_strlit("DOES_NOT_EXIST");
    assert("SELECT_CREATURE"@.len() != "DOES_NOT_EXIST"@.len());
    reveal_strlit("EVIL");
    assert("SELECT_CREATURE"@.len() != "EVIL"@.len());
    reveal_strlit("FANCIFUL");
    assert("SELECT_CREATURE"@.len() != "FANCIFUL"@.len());
    reveal_strlit("FREQUENCY");
    assert("SELECT_CREATURE"@.len() != "FREQUENCY"@.len());
    reveal_strlit("GENERAL_BABY_NAME");
    assert("SELECT_CREATURE"@.len() != "GENERAL_BABY_NAME"@.len());
    reveal_strlit("GENERAL_CHILD_NAME");
    assert("SELECT_CREATURE"@.len() != "GENERAL_CHILD_NAME"@.len());
    reveal_strlit("GENERATED");
    assert("SELECT_CREATURE"@.len() != "GENERATED"@.len());
    reveal_strlit("GLOWCOLOR");
    assert("SELECT_CREATURE"@.len() != "GLOWCOLOR"@.len());
    reveal_strlit("GLOWTILE");
    assert("SELECT_CREATURE"@.len() != "GLOWTILE"@.len());
    reveal_strlit("GOOD");
    assert("SELECT_CREATURE"@.len() != "GOOD"@.len());
    reveal_strlit("LARGE_ROAMING");
    assert("SELECT_CREATURE"@.len() != "LARGE_ROAMING"@.len());
    reveal_strlit("LOCAL_POPS_CONTROLLABLE");
    assert("SELECT_CREATURE"@.len() != "LOCAL_POPS_CONTROLLABLE"@.len());
    reveal_strlit("LOCAL_POPS_PRODUCE_HEROES");
    assert("SELECT_CREATURE"@.len() != "LOCAL_POPS_PRODUCE_HEROES"@.len());
    reveal_strlit("LOOSE_CLUSTERS");
    assert("SELECT_CREATURE"@.len() != "LOOSE_CLUSTERS"@.len());
    reveal_strlit("MUNDANE");
    assert("SELECT_CREATURE"@.len() != "MUNDANE"@.len());
    reveal_strlit("NAME");
    assert("SELECT_CREATURE"@.len() != "NAME"@.len());
    reveal_strlit("POPULATION_NUMBER");
    assert("SELECT_CREATURE"@.len() != "POPULATION_NUMBER"@.len());
    reveal_strlit("PREFSTRING");
    assert("SELECT_CREATURE"@.len() != "PREFSTRING"@.len());
    reveal_strlit("SAVAGE");
    assert("SELECT_CREATURE"@.len() != "SAVAGE"@.len());
    reveal_strlit("UBIQUITOUS");
    assert("SELECT_CREATURE"@.len() != "UBIQUITOUS"@.len());
    reveal_strlit("UNDERGROUND_DEPTH");
    assert("SELECT_CREATURE"@.len() != "UNDERGROUND_DEPTH"@.len());
    reveal_strlit("VERMIN_EATER");
    assert("SELECT_CREATURE"@.len() != "VERMIN_EATER"@.len());
    reveal_strlit("VERMIN_FISH");
    assert("SELECT_CREATURE"@.len() != "VERMIN_FISH"@.len());
    reveal_strlit("VERMIN_GROUNDER");
    assert("SELECT_CREATURE"@[0] != "VERMIN_GROUNDER"@[0]);
    reveal_strlit("VERMIN_ROTTER");
    assert("SELECT_CREATURE"@.len() != "VERMIN_ROTTER"@.len());
    reveal_strlit("VERMIN_SOIL");
    assert("SELECT_CREATURE"@.len() != "VERMIN_SOIL"@.len());
    reveal_strlit("VERMIN_SOIL_COLONY");
    assert("SELECT_CREATURE"@.len() != "VERMIN_SOIL_COLONY"@.len());
}

proof fn lemma_caste_not_caste_key()
    ensures
        caste_tag_of("CASTE"@) is None,
{
    reveal_strlit("CASTE");
    reveal_strlit("ADOPTS_OWNER");
    assert("CASTE"@.len() != "ADOPTS_OWNER"@.len());
    reveal_strlit("ALL_ACTIVE");
    assert("CASTE"@.len() != "ALL_ACTIVE"@.len());
    reveal_strlit("AMBUSHPREDATOR");
    assert("CASTE"@.len() != "AMBUSHPREDATOR"@.len());
    reveal_strlit("AMBUSH_PREDATOR");
    assert("CASTE"@.len() != "AMBUSH_PREDATOR"@.len());
    reveal_strlit("AMPHIBIOUS");
    assert("CASTE"@.len() != "AMPHIBIOUS"@.len());
    reveal_strlit("AQUATIC");
    assert("CASTE"@.len() != "AQUATIC"@.len());
    reveal_strlit("ARENA_RESTRICTED");
    assert("CASTE"@.len() != "ARENA_RESTRICTED"@.len());
    reveal_strlit("AT_PEACE_WITH_WILDLIFE");
    assert("CASTE"@.len() != "AT_PEACE_WITH_WILDLIFE"@.len());
    reveal_strlit("BABY");
    assert("CASTE"@.len() != "BABY"@.len());
    reveal_strlit("BABYNAME");
    assert("CASTE"@.len() != "BABYNAME"@.len());
    reveal_strlit("BENIGN");
    assert("CASTE"@.len() != "BENIGN"@.len());
    reveal_strlit("BODY_SIZE");
    assert("CASTE"@.len() != "BODY_SIZE"@.len());
    reveal_strlit("BONECARN");
    assert("CASTE"@.len() != "BONECARN"@.len());
    reveal_strlit("CAN_LEARN");
    assert("CASTE"@.len() != "CAN_LEARN"@.len());
    reveal_strlit("CAN_SPEAK");
    assert("CASTE"@.len() != "CAN_SPEAK"@.len());
    reveal_strlit("CARNIVORE");
    assert("CASTE"@.len() != "CARNIVORE"@.len());
    reveal_strlit("CASTE_ALTTILE");
    assert("CASTE"@.len() != "CASTE_ALTTILE"@.len());
    reveal_strlit("CASTE_COLOR");
    assert("CASTE"@.len() != "CASTE_COLOR"@.len());
    reveal_strlit("CASTE_GLOWCOLOR");
    assert("CASTE"@.len() != "CASTE_GLOWCOLOR"@.len());
    reveal_strlit("CASTE_GLOWTILE");
    assert("CASTE"@.len() != "CASTE_GLOWTILE"@.len());
    reveal_strlit("CASTE_NAME");
    assert("CASTE"@.len() != "CASTE_NAME"@.len());
    reveal_strlit("CASTE_TILE");
    assert("CASTE"@.len() != "CASTE_TILE"@.len());
    reveal_strlit("CHANGE_BODY_SIZE_PERC");
    assert("CASTE"@.len() != "CHANGE_BODY_SIZE_PERC"@.len());
    reveal_strlit("CHILD");
    assert("CASTE"@[1] != "CHILD"@[1]);
    reveal_strlit("CHILDNAME");
    assert("CASTE"@.len() != "CHILDNAME"@.len());
    reveal_strlit("CLUTCH_SIZE");
    assert("CASTE"@.len() != "CLUTCH_SIZE"@.len());
    reveal_strlit("COMMON_DOMESTIC");
    assert("CASTE"@.len() != "COMMON_DOMESTIC"@.len());
    reveal_strlit("COOKABLE_LIVE");
    assert("CASTE"@.len() != "COOKABLE_LIVE"@.len());
    reveal_strlit("CREATURE_CLASS");
    assert("CASTE"@.len() != "CREATURE_CLASS"@.len());
    reveal_strlit("CREPUSCULAR");
    assert("CASTE"@.len() != "CREPUSCULAR"@.len());
    reveal_strlit("CURIOUSBEAST_EATER");
    assert("CASTE"@.len() != "CURIOUSBEAST_EATER"@.len());
    reveal_strlit("CURIOUSBEAST_GUZZLER");
    assert("CASTE"@.len() != "CURIOUSBEAST_GUZZLER"@.len());
    reveal_strlit("CURIOUSBEAST_ITEM");
    assert("CASTE"@.len() != "CURIOUSBEAST_ITEM"@.len());
    reveal_strlit("DEMON");
    assert("CASTE"@[0] != "DEMON"@[0]);
    reveal_strlit("DESCRIPTION");
    assert("CASTE"@.len() != "DESCRIPTION"@.len());
    reveal_strlit("DIE_WHEN_VERMIN_BITE");
    assert("CASTE"@.len() != "DIE_WHEN_VERMIN_BITE"@.len());
    reveal_strlit("DIFFICULTY");
    assert("CASTE"@.len() != "DIFFICULTY"@.len());
    reveal_strlit("DIURNAL");
    assert("CASTE"@.len() != "DIURNAL"@.len());
    reveal_strlit("EGG_SIZE");
    assert("CASTE"@.len() != "EGG_SIZE"@.len());
    reveal_strlit("EQUIPS");
    assert("CASTE"@.len() != "EQUIPS"@.len());
    reveal_strlit("EXTRAVISION");
    assert("CASTE"@.len() != "EXTRAVISION"@.len());
    reveal_strlit("FEATURE_BEAST");
    assert("CASTE"@.len() != "FEATURE_BEAST"@.len());
    reveal_strlit("FEMALE");
    assert("CASTE"@.len() != "FEMALE"@.len());
    reveal_strlit("FIREIMMUNE");
    assert("CASTE"@.len() != "FIREIMMUNE"@.len());
    reveal_strlit("FIREIMMUNE_SUPER");
    assert("CASTE"@.len() != "FIREIMMUNE_SUPER"@.len());
    reveal_strlit("FISHITEM");
    assert("CASTE"@.len() != "FISHITEM"@.len());
    reveal_strlit("FLIER");
    assert("CASTE"@[0] != "FLIER"@[0]);
    reveal_strlit("GNAWER");
    assert("CASTE"@.len() != "GNAWER"@.len());
    reveal_strlit("GRASSTRAMPLE");
    assert("CASTE"@.len() != "GRASSTRAMPLE"@.len());
    reveal_strlit("GRAZER");
    assert("CASTE"@.len() != "GRAZER"@.len());
    reveal_strlit("HAS_NERVES");
    assert("CASTE"@.len() != "HAS_NERVES"@.len());
    reveal_strlit("HUNTS_VERMIN");
    assert("CASTE"@.len() != "HUNTS_VERMIN"@.len());
    reveal_strlit("IMMOBILE");
    assert("CASTE"@.len() != "IMMOBILE"@.len());
    reveal_strlit("IMMOBILE_LAND");
    assert("CASTE"@.len() != "IMMOBILE_LAND"@.len());
    reveal_strlit("IMMOLATE");
    assert("CASTE"@.len() != "IMMOLATE"@.len());
    reveal_strlit("INTELLIGENT");
    assert("CASTE"@.len() != "INTELLIGENT"@.len());
    reveal_strlit("LAYS_EGGS");
    assert("CASTE"@.len() != "LAYS_EGGS"@.len());
    reveal_strlit("LIGHT_GEN");
    assert("CASTE"@.len() != "LIGHT_GEN"@.len());
    reveal_strlit("LITTERSIZE");
    assert("CASTE"@.len() != "LITTERSIZE"@.len());
    reveal_strlit("LOCKPICKER");
    assert("CASTE"@.len() != "LOCKPICKER"@.len());
    reveal_strlit("LOW_LIGHT_VISION");
    assert("CASTE"@.len() != "LOW_LIGHT_VISION"@.len());
    reveal_strlit("MAGMA_VISION");
    assert("CASTE"@.len() != "MAGMA_VISION"@.len());
    reveal_strlit("MALE");
    assert("CASTE"@.len() != "MALE"@.len());
    reveal_strlit("MATUTINAL");
    assert("CASTE"@.len() != "MATUTINAL"@.len());
    reveal_strlit("MAXAGE");
    assert("CASTE"@.len() != "MAXAGE"@.len());
    reveal_strlit("MEANDERER");
    assert("CASTE"@.len() != "MEANDERER"@.len());
    reveal_strlit("MEGABEAST");
    assert("CASTE"@.len() != "MEGABEAST"@.len());
    reveal_strlit("MILKABLE");
    assert("CASTE"@.len() != "MILKABLE"@.len());
    reveal_strlit("MISCHIEVIOUS");
    assert("CASTE"@.len() != "MISCHIEVIOUS"@.len());
    reveal_strlit("MISCHIEVOUS");
    assert("CASTE"@.len() != "MISCHIEVOUS"@.len());
    reveal_strlit("MOUNT");
    assert("CASTE"@[0] != "MOUNT"@[0]);
    reveal_strlit("MOUNT_EXOTIC");
    assert("CASTE"@.len() != "MOUNT_EXOTIC"@.len());
    reveal_strlit("MULTIPART_FULL_VISION");
    assert("CASTE"@.len() != "MULTIPART_FULL_VISION"@.len());
    reveal_strlit("MULTIPLE_LITTER_RARE");
    assert("CASTE"@.len() != "MULTIPLE_LITTER_RARE"@.len());
    reveal_strlit("NATURAL");
    assert("CASTE"@.len() != "NATURAL"@.len());
    reveal_strlit("NOBONES");
    assert("CASTE"@.len() != "NOBONES"@.len());
    reveal_strlit("NOBREATHE");
    assert("CASTE"@.len() != "NOBREATHE"@.len());
    reveal_strlit("NOCTURNAL");
    assert("CASTE"@.len() != "NOCTURNAL"@.len());
    reveal_strlit("NOEMOTION");
    assert("CASTE"@.len() != "NOEMOTION"@.len());
    reveal_strlit("NOEXERT");
    assert("CASTE"@.len() != "NOEXERT"@.len());
    reveal_strlit("NOFEAR");
    assert("CASTE"@.len() != "NOFEAR"@.len());
    reveal_strlit("NOMEAT");
    assert("CASTE"@.len() != "NOMEAT"@.len());
    reveal_strlit("NONAUSEA");
    assert("CASTE"@.len() != "NONAUSEA"@.len());
    reveal_strlit("NOPAIN");
    assert("CASTE"@.len() != "NOPAIN"@.len());
    reveal_strlit("NOSKIN");
    assert("CASTE"@.len() != "NOSKIN"@.len());
    reveal_strlit("NOSKULL");
    assert("CASTE"@.len() != "NOSKULL"@.len());
    reveal_strlit("NOSMELLYROT");
    assert("CASTE"@.len() != "NOSMELLYROT"@.len());
    reveal_strlit("NOSTUCKINS");
    assert("CASTE"@.len() != "NOSTUCKINS"@.len());
    reveal_strlit("NOSTUN");
    assert("CASTE"@.len() != "NOSTUN"@.len());
    reveal_strlit("NOTHOUGHT");
    assert("CASTE"@.len() != "NOTHOUGHT"@.len());
    reveal_strlit("NOT_BUTCHERABLE");
    assert("CASTE"@.len() != "NOT_BUTCHERABLE"@.len());
    reveal_strlit("NOT_LIVING");
    assert("CASTE"@.len() != "NOT_LIVING"@.len());
    reveal_strlit("NO_AUTUMN");
    assert("CASTE"@.len() != "NO_AUTUMN"@.len());
    reveal_strlit("NO_CONNECTIONS_FOR_MOVEMENT");
    assert("CASTE"@.len() != "NO_CONNECTIONS_FOR_MOVEMENT"@.len());
    reveal_strlit("NO_DIZZINESS");
    assert("CASTE"@.len() != "NO_DIZZINESS"@.len());
    reveal_strlit("NO_DRINK");
    assert("CASTE"@.len() != "NO_DRINK"@.len());
    reveal_strlit("NO_EAT");
    assert("CASTE"@.len() != "NO_EAT"@.len());
    reveal_strlit("NO_FEVERS");
    assert("CASTE"@.len() != "NO_FEVERS"@.len());
    reveal_strlit("NO_GENDER");
    assert("CASTE"@.len() != "NO_GENDER"@.len());
    reveal_strlit("NO_SLEEP");
    assert("CASTE"@.len() != "NO_SLEEP"@.len());
    reveal_strlit("NO_SPRING");
    assert("CASTE"@.len() != "NO_SPRING"@.len());
    reveal_strlit("NO_SUMMER");
    assert("CASTE"@.len() != "NO_SUMMER"@.len());
    reveal_strlit("NO_WINTER");
    assert("CASTE"@.len() != "NO_WINTER"@.len());
    reveal_strlit("OPPOSED_TO_LIFE");
    assert("CASTE"@.len() != "OPPOSED_TO_LIFE"@.len());
    reveal_strlit("OUTSIDER_CONTROLLABLE");
    assert("CASTE"@.len() != "OUTSIDER_CONTROLLABLE"@.len());
    reveal_strlit("PACK_ANIMAL");
    assert("CASTE"@.len() != "PACK_ANIMAL"@.len());
    reveal_strlit("PARALYZEIMMUNE");
    assert("CASTE"@.len() != "PARALYZEIMMUNE"@.len());
    reveal_strlit("PET");
    assert("CASTE"@.len() != "PET"@.len());
    reveal_strlit("PETVALUE");
    assert("CASTE"@.len() != "PETVALUE"@.len());
    reveal_strlit("PET_EXOTIC");
    assert("CASTE"@.len() != "PET_EXOTIC"@.len());
    reveal_strlit("POP_RATIO");
    assert("CASTE"@.len() != "POP_RATIO"@.len());
    reveal_strlit("POWER");
    assert("CASTE"@[0] != "POWER"@[0]);
    reveal_strlit("SEMIMEGABEAST");
    assert("CASTE"@.len() != "SEMIMEGABEAST"@.len());
    reveal_strlit("SLOW_LEARNER");
    assert("CASTE"@.len() != "SLOW_LEARNER"@.len());
    reveal_strlit("SMALL_REMAINS");
    assert("CASTE"@.len() != "SMALL_REMAINS"@.len());
    reveal_strlit("STANDARD_GRAZER");
    assert("CASTE"@.len() != "STANDARD_GRAZER"@.len());
    reveal_strlit("SUPERNATURAL");
    assert("CASTE"@.len() != "SUPERNATURAL"@.len());
    reveal_strlit("SWIMS_INNATE");
    assert("CASTE"@.len() != "SWIMS_INNATE"@.len());
    reveal_strlit("SWIMS_LEARNED");
    assert("CASTE"@.len() != "SWIMS_LEARNED"@.len());
    reveal_strlit("THICKWEB");
    assert("CASTE"@.len() != "THICKWEB"@.len());
    reveal_strlit("TITAN");
    assert("CASTE"@[0] != "TITAN"@[0]);
    reveal_strlit("TRAINABLE");
    assert("CASTE"@.len() != "TRAINABLE"@.len());
    reveal_strlit("TRAINABLE_HUNTING");
    assert("CASTE"@.len() != "TRAINABLE_HUNTING"@.len());
    reveal_strlit("TRAINABLE_WAR");
    assert("CASTE"@.len() != "TRAINABLE_WAR"@.len());
    reveal_strlit("TRANCES");
    assert("CASTE"@.len() != "TRANCES"@.len());
    reveal_strlit("TRAPAVOID");
    assert("CASTE"@.len() != "TRAPAVOID"@.len());
    reveal_strlit("UNIQUE_DEMON");
    assert("CASTE"@.len() != "UNIQUE_DEMON"@.len());
    reveal_strlit("VEGETATION");
    assert("CASTE"@.len() != "VEGETATION"@.len());
    reveal_strlit("VERMIN_HATEABLE");
    assert("CASTE"@.len() != "VERMIN_HATEABLE"@.len());
    reveal_strlit("VERMIN_MICRO");
    assert("CASTE"@.len() != "VERMIN_MICRO"@.len());
    reveal_strlit("VERMIN_NOFISH");
    assert("CASTE"@.len() != "VERMIN_NOFISH"@.len());
    reveal_strlit("VERMIN_NOROAM");
    assert("CASTE"@.len() != "VERMIN_NOROAM"@.len());
    reveal_strlit("VERMIN_NOTRAP");
    assert("CASTE"@.len() != "VERMIN_NOTRAP"@.len());
    reveal_strlit("VESPERTINE");
    assert("CASTE"@.len() != "VESPERTINE"@.len());
    reveal_strlit("WAGON_PULLER");
    assert("CASTE"@.len() != "WAGON_PULLER"@.len());
    reveal_strlit("WEBIMMUNE");
    assert("CASTE"@.len() != "WEBIMMUNE"@.len());
}

proof fn lemma_caste_not_creature_key()
    ensures
        creature_tag_of("CASTE"@) is None,
{
    reveal_strlit("CASTE");
    reveal_strlit("ALTTILE");
    assert("CASTE"@.len() != "ALTTILE"@.len());
    reveal_strlit("APPLY_CREATURE_VARIATION");
    assert("CASTE"@.len() != "APPLY_CREATURE_VARIATION"@.len());
    reveal_strlit("ARTIFICIAL_HIVEABLE");
    assert("CASTE"@.len() != "ARTIFICIAL_HIVEABLE"@.len());
    reveal_strlit("BIOME");
    assert("CASTE"@[0] != "BIOME"@[0]);
    reveal_strlit("CHANGE_FREQUENCY_PERC");
    assert("CASTE"@.len() != "CHANGE_FREQUENCY_PERC"@.len());
    reveal_strlit("CLUSTER_NUMBER");
    assert("CASTE"@.len() != "CLUSTER_NUMBER"@.len());
    reveal_strlit("COLOR");
    assert("CASTE"@[1] != "COLOR"@[1]);
    reveal_strlit("COPY_TAGS_FROM");
    assert("CASTE"@.len() != "COPY_TAGS_FROM"@.len());
    reveal_strlit("CREATURE_TILE");
    assert("CASTE"@.len() != "CREATURE_TILE"@.len());
    reveal_strlit("DOES_NOT_EXIST");
    assert("CASTE"@.len() != "DOES_NOT_EXIST"@.len());
    reveal_strlit("EVIL");
    assert("CASTE"@.len() != "EVIL"@.len());
    reveal_strlit("FANCIFUL");
    assert("CASTE"@.len() != "FANCIFUL"@.len());
    reveal_strlit("FREQUENCY");
    assert("CASTE"@.len() != "FREQUENCY"@.len());
    reveal_strlit("GENERAL_BABY_NAME");
    assert("CASTE"@.len() != "GENERAL_BABY_NAME"@.len());
    reveal_strlit("GENERAL_CHILD_NAME");
    assert("CASTE"@.len() != "GENERAL_CHILD_NAME"@.len());
    reveal_strlit("GENERATED");
    assert("CASTE"@.len() != "GENERATED"@.len());
    reveal_strlit("GLOWCOLOR");
    assert("CASTE"@.len() != "GLOWCOLOR"@.len());
    reveal_strlit("GLOWTILE");
    assert("CASTE"@.len() != "GLOWTILE"@.len());
    reveal_strlit("GOOD");
    assert("CASTE"@.len() != "GOOD"@.len());
    reveal_strlit("LARGE_ROAMING");
    assert("CASTE"@.len() != "LARGE_ROAMING"@.len());
    reveal_strlit("LOCAL_POPS_CONTROLLABLE");
    assert("CASTE"@.len() != "LOCAL_POPS_CONTROLLABLE"@.len());
    reveal_strlit("LOCAL_POPS_PRODUCE_HEROES");
    assert("CASTE"@.len() != "LOCAL_POPS_PRODUCE_HEROES"@.len());
    reveal_strlit("LOOSE_CLUSTERS");
    assert("CASTE"@.len() != "LOOSE_CLUSTERS"@.len());
    reveal_strlit("MUNDANE");
    assert("CASTE"@.len() != "MUNDANE"@.len());
    reveal_strlit("NAME");
    assert("CASTE"@.len() != "NAME"@.len());
    reveal_strlit("POPULATION_NUMBER");
    assert("CASTE"@.len() != "POPULATION_NUMBER"@.len());
    reveal_strlit("PREFSTRING");
    assert("CASTE"@.len() != "PREFSTRING"@.len());
    reveal_strlit("SAVAGE");
    assert("CASTE"@.len() != "SAVAGE"@.len());
    reveal_strlit("UBIQUITOUS");
    assert("CASTE"@.len() != "UBIQUITOUS"@.len());
    reveal_strlit("UNDERGROUND_DEPTH");
    assert("CASTE"@.len() != "UNDERGROUND_DEPTH"@.len());
    reveal_strlit("VERMIN_EATER");
    assert("CASTE"@.len() != "VERMIN_EATER"@.len());
    reveal_strlit("VERMIN_FISH");
    assert("CASTE"@.len() != "VERMIN_FISH"@.len());
    reveal_strlit("VERMIN_GROUNDER");
    assert("CASTE"@.len() != "VERMIN_GROUNDER"@.len());
    reveal_strlit("VERMIN_ROTTER");
    assert("CASTE"@.len() != "VERMIN_ROTTER"@.len());
    reveal_strlit("VERMIN_SOIL");
    assert("CASTE"@.len() != "VERMIN_SOIL"@.len());
    reveal_strlit("VERMIN_SOIL_COLONY");
    assert("CASTE"@.len() != "VERMIN_SOIL_COLONY"@.len());
}

proof fn lemma_select_caste_not_caste_key()
    ensures
        caste_tag_of("SELECT_CASTE"@) is None,
{
    reveal_strlit("SELECT_CASTE");
    reveal_strlit("ADOPTS_OWNER");
    assert("SELECT_CASTE"@[0] != "ADOPTS_OWNER"@[0]);
    reveal_strlit("ALL_ACTIVE");
    assert("SELECT_CASTE"@.len() != "ALL_ACTIVE"@.len());
    reveal_strlit("AMBUSHPREDATOR");
    assert("SELECT_CASTE"@.len() != "AMBUSHPREDATOR"@.len());
    reveal_strlit("AMBUSH_PREDATOR");
    assert("SELECT_CASTE"@.len() != "AMBUSH_PREDATOR"@.len());
    reveal_strlit("AMPHIBIOUS");
    assert("SELECT_CASTE"@.len() != "AMPHIBIOUS"@.len());
    reveal_strlit("AQUATIC");
    assert("SELECT_CASTE"@.len() != "AQUATIC"@.len());
    reveal_strlit("ARENA_RESTRICTED");
    assert("SELECT_CASTE"@.len() != "ARENA_RESTRICTED"@.len());
    reveal_strlit("AT_PEACE_WITH_WILDLIFE");
    assert("SELECT_CASTE"@.len() != "AT_PEACE_WITH_WILDLIFE"@.len());
    reveal_strlit("BABY");
    assert("SELECT_CASTE"@.len() != "BABY"@.len());
    reveal_strlit("BABYNAME");
    assert("SELECT_CASTE"@.len() != "BABYNAME"@.len());
    reveal_strlit("BENIGN");
    assert("SELECT_CASTE"@.len() != "BENIGN"@.len());
    reveal_strlit("BODY_SIZE");
    assert("SELECT_CASTE"@.len() != "BODY_SIZE"@.len());
    reveal_strlit("BONECARN");
    assert("SELECT_CASTE"@.len() != "BONECARN"@.len());
    reveal_strlit("CAN_LEARN");
    assert("SELECT_CASTE"@.len() != "CAN_LEARN"@.len());
    reveal_strlit("CAN_SPEAK");
    assert("SELECT_CASTE"@.len() != "CAN_SPEAK"@.len());
    reveal_strlit("CARNIVORE");
    assert("SELECT_CASTE"@.len() != "CARNIVORE"@.len());
    reveal_strlit("CASTE_ALTTILE");
    assert("SELECT_CASTE"@.len() != "CASTE_ALTTILE"@.len());
    reveal_strlit("CASTE_COLOR");
    assert("SELECT_CASTE"@.len() != "CASTE_COLOR"@.len());
    reveal_strlit("CASTE_GLOWCOLOR");
    assert("SELECT_CASTE"@.len() != "CASTE_GLOWCOLOR"@.len());
    reveal_strlit("CASTE_GLOWTILE");
    assert("SELECT_CASTE"@.len() != "CASTE_GLOWTILE"@.len());
    reveal_strlit("CASTE_NAME");
    assert("SELECT_CASTE"@.len() != "CASTE_NAME"@.len());
    reveal_strlit("CASTE_TILE");
    assert("SELECT_CASTE"@.len() != "CASTE_TILE"@.len());
    reveal_strlit("CHANGE_BODY_SIZE_PERC");
    assert("SELECT_CASTE"@.len() != "CHANGE_BODY_SIZE_PERC"@.len());
    reveal_strlit("CHILD");
    assert("SELECT_CASTE"@.len() != "CHILD"@.len());
    reveal_strlit("CHILDNAME");
    assert("SELECT_CASTE"@.len() != "CHILDNAME"@.len());
    reveal_strlit("CLUTCH_SIZE");
    assert("SELECT_CASTE"@.len() != "CLUTCH_SIZE"@.len());
    reveal_strlit("COMMON_DOMESTIC");
    assert("SELECT_CASTE"@.len() != "COMMON_DOMESTIC"@.len());
    reveal_strlit("COOKABLE_LIVE");
    assert("SELECT_CASTE"@.len() != "COOKABLE_LIVE"@.len());
    reveal_strlit("CREATURE_CLASS");
    assert("SELECT_CASTE"@.len() != "CREATURE_CLASS"@.len());
    reveal_strlit("CREPUSCULAR");
    assert("SELECT_CASTE"@.len() != "CREPUSCULAR"@.len());
    reveal_strlit("CURIOUSBEAST_EATER");
    assert("SELECT_CASTE"@.len() != "CURIOUSBEAST_EATER"@.len());
    reveal_strlit("CURIOUSBEAST_GUZZLER");
    assert("SELECT_CASTE"@.len() != "CURIOUSBEAST_GUZZLER"@.len());
    reveal_strlit("CURIOUSBEAST_ITEM");
    assert("SELECT_CASTE"@.len() != "CURIOUSBEAST_ITEM"@.len());
    reveal_strlit("DEMON");
    assert("SELECT_CASTE"@.len() != "DEMON"@.len());
    reveal_strlit("DESCRIPTION");
    assert("SELECT_CASTE"@.len() != "DESCRIPTION"@.len());
    reveal_strlit("DIE_WHEN_VERMIN_BITE");
    assert("SELECT_CASTE"@.len() != "DIE_WHEN_VERMIN_BITE"@.len());
    reveal_strlit("DIFFICULTY");
    assert("SELECT_CASTE"@.len() != "DIFFICULTY"@.len());
    reveal_strlit("DIURNAL");
    assert("SELECT_CASTE"@.len() != "DIURNAL"@.len());
    reveal_strlit("EGG_SIZE");
    assert("SELECT_CASTE"@.len() != "EGG_SIZE"@.len());
    reveal_strlit("EQUIPS");
    assert("SELECT_CASTE"@.len() != "EQUIPS"@.len());
    reveal_strlit("EXTRAVISION");
    assert("SELECT_CASTE"@.len() != "EXTRAVISION"@.len());
    reveal_strlit("FEATURE_BEAST");
    assert("SELECT_CASTE"@.len() != "FEATURE_BEAST"@.len());
    reveal_strlit("FEMALE");
    assert("SELECT_CASTE"@.len() != "FEMALE"@.len());
    reveal_strlit("FIREIMMUNE");
    assert("SELECT_CASTE"@.len() != "FIREIMMUNE"@.len());
    reveal_strlit("FIREIMMUNE_SUPER");
    assert("SELECT_CASTE"@.len() != "FIREIMMUNE_SUPER"@.len());
    reveal_strlit("FISHITEM");
    assert("SELECT_CASTE"@.len() != "FISHITEM"@.len());
    reveal_strlit("FLIER");
    assert("SELECT_CASTE"@.len() != "FLIER"@.len());
    reveal_strlit("GNAWER");
    assert("SELECT_CASTE"@.len() != "GNAWER"@.len());
    reveal_strlit("GRASSTRAMPLE");
    assert("SELECT_CASTE"@[0] != "GRASSTRAMPLE"@[0]);
    reveal_strlit("GRAZER");
    assert("SELECT_CASTE"@.len() != "GRAZER"@.len());
    reveal_strlit("HAS_NERVES");
    assert("SELECT_CASTE"@.len() != "HAS_NERVES"@.len());
    reveal_strlit("HUNTS_VERMIN");
    assert("SELECT_CASTE"@[0] != "HUNTS_VERMIN"@[0]);
    reveal_strlit("IMMOBILE");
    assert("SELECT_CASTE"@.len() != "IMMOBILE"@.len());
    reveal_strlit("IMMOBILE_LAND");
    assert("SELECT_CASTE"@.len() != "IMMOBILE_LAND"@.len());
    reveal_strlit("IMMOLATE");
    assert("SELECT_CASTE"@.len() != "IMMOLATE"@.len());
    reveal_strlit("INTELLIGENT");
    assert("SELECT_CASTE"@.len() != "INTELLIGENT"@.len());
    reveal_strlit("LAYS_EGGS");
    assert("SELECT_CASTE"@.len() != "LAYS_EGGS"@.len());
    reveal_strlit("LIGHT_GEN");
    assert("SELECT_CASTE"@.len() != "LIGHT_GEN"@.len());
    reveal_strlit("LITTERSIZE");
    assert("SELECT_CASTE"@.len() != "LITTERSIZE"@.len());
    reveal_strlit("LOCKPICKER");
    assert("SELECT_CASTE"@.len() != "LOCKPICKER"@.len());
    reveal_strlit("LOW_LIGHT_VISION");
    assert("SELECT_CASTE"@.len() != "LOW_LIGHT_VISION"@.len());
    reveal_strlit("MAGMA_VISION");
    assert("SELECT_CASTE"@[0] != "MAGMA_VISION"@[0]);
    reveal_strlit("MALE");
    assert("SELECT_CASTE"@.len() != "MALE"@.len());
    reveal_strlit("MATUTINAL");
    assert("SELECT_CASTE"@.len() != "MATUTINAL"@.len());
    reveal_strlit("MAXAGE");
    assert("SELECT_CASTE"@.len() != "MAXAGE"@.len());
    reveal_strlit("MEANDERER");
    assert("SELECT_CASTE"@.len() != "MEANDERER"@.len());
    reveal_strlit("MEGABEAST");
    assert("SELECT_CASTE"@.len() != "MEGABEAST"@.len());
    reveal_strlit("MILKABLE");
    assert("SELECT_CASTE"@.len() != "MILKABLE"@.len());
    reveal_strlit("MISCHIEVIOUS");
    assert("SELECT_CASTE"@[0] != "MISCHIEVIOUS"@[0]);
    reveal_strlit("MISCHIEVOUS");
    assert("SELECT_CASTE"@.len() != "MISCHIEVOUS"@.len());
    reveal_strlit("MOUNT");
    assert("SELECT_CASTE"@.len() != "MOUNT"@.len());
    reveal_strlit("MOUNT_EXOTIC");
    assert("SELECT_CASTE"@[0] != "MOUNT_EXOTIC"@[0]);
    reveal_strlit("MULTIPART_FULL_VISION");
    assert("SELECT_CASTE"@.len() != "MULTIPART_FULL_VISION"@.len());
    reveal_strlit("MULTIPLE_LITTER_RARE");
    assert("SELECT_CASTE"@.len() != "MULTIPLE_LITTER_RARE"@.len());
    reveal_strlit("NATURAL");
    assert("SELECT_CASTE"@.len() != "NATURAL"@.len());
    reveal_strlit("NOBONES");
    assert("SELECT_CASTE"@.len() != "NOBONES"@.len());
    reveal_strlit("NOBREATHE");
    assert("SELECT_CASTE"@.len() != "NOBREATHE"@.len());
    reveal_strlit("NOCTURNAL");
    assert("SELECT_CASTE"@.len() != "NOCTURNAL"@.len());
    reveal_strlit("NOEMOTION");
    assert("SELECT_CASTE"@.len() != "NOEMOTION"@.len());
    reveal_strlit("NOEXERT");
    assert("SELECT_CASTE"@.len() != "NOEXERT"@.len());
    reveal_strlit("NOFEAR");
    assert("SELECT_CASTE"@.len() != "NOFEAR"@.len());
    reveal_strlit("NOMEAT");
    assert("SELECT_CASTE"@.len() != "NOMEAT"@.len());
    reveal_strlit("NONAUSEA");
    assert("SELECT_CASTE"@.len() != "NONAUSEA"@.len());
    reveal_strlit("NOPAIN");
    assert("SELECT_CASTE"@.len() != "NOPAIN"@.len());
    reveal_strlit("NOSKIN");
    assert("SELECT_CASTE"@.len() != "NOSKIN"@.len());
    reveal_strlit("NOSKULL");
    assert("SELECT_CASTE"@.len() != "NOSKULL"@.len());
    reveal_strlit("NOSMELLYROT");
    assert("SELECT_CASTE"@.len() != "NOSMELLYROT"@.len());
    reveal_strlit("NOSTUCKINS");
    assert("SELECT_CASTE"@.len() != "NOSTUCKINS"@.len());
    reveal_strlit("NOSTUN");
    assert("SELECT_CASTE"@.len() != "NOSTUN"@.len());
    reveal_strlit("NOTHOUGHT");
    assert("SELECT_CASTE"@.len() != "NOTHOUGHT"@.len());
    reveal_strlit("NOT_BUTCHERABLE");
    assert("SELECT_CASTE"@.len() != "NOT_BUTCHERABLE"@.len());
    reveal_strlit("NOT_LIVING");
    assert("SELECT_CASTE"@.len() != "NOT_LIVING"@.len());
    reveal_strlit("NO_AUTUMN");
    assert("SELECT_CASTE"@.len() != "NO_AUTUMN"@.len());
    reveal_strlit("NO_CONNECTIONS_FOR_MOVEMENT");
    assert("SELECT_CASTE"@.len() != "NO_CONNECTIONS_FOR_MOVEMENT"@.len());
    reveal_strlit("NO_DIZZINESS");
    assert("SELECT_CASTE"@[0] != "NO_DIZZINESS"@[0]);
    reveal_strlit("NO_DRINK");
    assert("SELECT_CASTE"@.len() != "NO_DRINK"@.len());
    reveal_strlit("NO_EAT");
    assert("SELECT_CASTE"@.len() != "NO_EAT"@.len());
    reveal_strlit("NO_FEVERS");
    assert("SELECT_CASTE"@.len() != "NO_FEVERS"@.len());
    reveal_strlit("NO_GENDER");
    assert("SELECT_CASTE"@.len() != "NO_GENDER"@.len());
    reveal_strlit("NO_SLEEP");
    assert("SELECT_CASTE"@.len() != "NO_SLEEP"@.len());
    reveal_strlit("NO_SPRING");
    assert("SELECT_CASTE"@.len() != "NO_SPRING"@.len());
    reveal_strlit("NO_SUMMER");
    assert("SELECT_CASTE"@.len() != "NO_SUMMER"@.len());
    reveal_strlit("NO_WINTER");
    assert("SELECT_CASTE"@.len() != "NO_WINTER"@.len());
    reveal_strlit("OPPOSED_TO_LIFE");
    assert("SELECT_CASTE"@.len() != "OPPOSED_TO_LIFE"@.len());
    reveal_strlit("OUTSIDER_CONTROLLABLE");
    assert("SELECT_CASTE"@.len() != "OUTSIDER_CONTROLLABLE"@.len());
    reveal_strlit("PACK_ANIMAL");
    assert("SELECT_CASTE"@.len() != "PACK_ANIMAL"@.len());
    reveal_strlit("PARALYZEIMMUNE");
    assert("SELECT_CASTE"@.len() != "PARALYZEIMMUNE"@.len());
    reveal_strlit("PET");
    assert("SELECT_CASTE"@.len() != "PET"@.len());
    reveal_strlit("PETVALUE");
    assert("SELECT_CASTE"@.len() != "PETVALUE"@.len());
    reveal_strlit("PET_EXOTIC");
    assert("SELECT_CASTE"@.len() != "PET_EXOTIC"@.len());
    reveal_strlit("POP_RATIO");
    assert("SELECT_CASTE"@.len() != "POP_RATIO"@.len());
    reveal_strlit("POWER");
    assert("SELECT_CASTE"@.len() != "POWER"@.len());
    reveal_strlit("SEMIMEGABEAST");
    assert("SELECT_CASTE"@.len() != "SEMIMEGABEAST"@.len());
    reveal_strlit("SLOW_LEARNER");
    assert("SELECT_CASTE"@[1] != "SLOW_LEARNER"@[1]);
    reveal_strlit("SMALL_REMAINS");
    assert("SELECT_CASTE"@.len() != "SMALL_REMAINS"@.len());
    reveal_strlit("STANDARD_GRAZER");
    assert("SELECT_CASTE"@.len() != "STANDARD_GRAZER"@.len());
    reveal_strlit("SUPERNATURAL");
    assert("SELECT_CASTE"@[1] != "SUPERNATURAL"@[1]);
    reveal_strlit("SWIMS_INNATE");
    assert("SELECT_CASTE"@[1] != "SWIMS_INNATE"@[1]);
    reveal_strlit("SWIMS_LEARNED");
    assert("SELECT_CASTE"@.len() != "SWIMS_LEARNED"@.len());
    reveal_strlit("THICKWEB");
    assert("SELECT_CASTE"@.len() != "THICKWEB"@.len());
    reveal_strlit("TITAN");
    assert("SELECT_CASTE"@.len() != "TITAN"@.len());
    reveal_strlit("TRAINABLE");
    assert("SELECT_CASTE"@.len() != "TRAINABLE"@.len());
    reveal_strlit("TRAINABLE_HUNTING");
    assert("SELECT_CASTE"@.len() != "TRAINABLE_HUNTING"@.len());
    reveal_strlit("TRAINABLE_WAR");
    assert("SELECT_CASTE"@.len() != "TRAINABLE_WAR"@.len());
    reveal_strlit("TRANCES");
    assert("SELECT_CASTE"@.len() != "TRANCES"@.len());
    reveal_strlit("TRAPAVOID");
    assert("SELECT_CASTE"@.len() != "TRAPAVOID"@.len());
    reveal_strlit("UNIQUE_DEMON");
    assert("SELECT_CASTE"@[0] != "UNIQUE_DEMON"@[0]);
    reveal_strlit("VEGETATION");
    assert("SELECT_CASTE"@.len() != "VEGETATION"@.len());
    reveal_strlit("VERMIN_HATEABLE");
    assert("SELECT_CASTE"@.len() != "VERMIN_HATEABLE"@.len());
    reveal_strlit("VERMIN_MICRO");
    assert("SELECT_CASTE"@[0] != "VERMIN_MICRO"@[0]);
    reveal_strlit("VERMIN_NOFISH");
    assert("SELECT_CASTE"@.len() != "VERMIN_NOFISH"@.len());
    reveal_strlit("VERMIN_NOROAM");
    assert("SELECT_CASTE"@.len() != "VERMIN_NOROAM"@.len());
    reveal_strlit("VERMIN_NOTRAP");
    assert("SELECT_CASTE"@.len() != "VERMIN_NOTRAP"@.len());
    reveal_strlit("VESPERTINE");
    assert("SELECT_CASTE"@.len() != "VESPERTINE"@.len());
    reveal_strlit("WAGON_PULLER");
    assert("SELECT_CASTE"@[0] != "WAGON_PULLER"@[0]);
    reveal_strlit("WEBIMMUNE");
    assert("SELECT_CASTE"@.len() != "WEBIMMUNE"@.len());
}

proof fn lemma_select_caste_not_creature_key()
    ensures
        creature_tag_of("SELECT_CASTE"@) is None,
{
    reveal_strlit("SELECT_CASTE");
    reveal_strlit("ALTTILE");
    assert("SELECT_CASTE"@.len() != "ALTTILE"@.len());
    reveal_strlit("APPLY_CREATURE_VARIATION");
    assert("SELECT_CASTE"@.len() != "APPLY_CREATURE_VARIATION"@.len());
    reveal_strlit("ARTIFICIAL_HIVEABLE");
    assert("SELECT_CASTE"@.len() != "ARTIFICIAL_HIVEABLE"@.len());
    reveal_strlit("BIOME");
    assert("SELECT_CASTE"@.len() != "BIOME"@.len());
    reveal_strlit("CHANGE_FREQUENCY_PERC");
    assert("SELECT_CASTE"@.len() != "CHANGE_FREQUENCY_PERC"@.len());
    reveal_strlit("CLUSTER_NUMBER");
    assert("SELECT_CASTE"@.len() != "CLUSTER_NUMBER"@.len());
    reveal_strlit("COLOR");
    assert("SELECT_CASTE"@.len() != "COLOR"@.len());
    reveal_strlit("COPY_TAGS_FROM");
    assert("SELECT_CASTE"@.len() != "COPY_TAGS_FROM"@.len());
    reveal_strlit("CREATURE_TILE");
    assert("SELECT_CASTE"@.len() != "CREATURE_TILE"@.len());
    reveal_strlit("DOES_NOT_EXIST");
    assert("SELECT_CASTE"@.len() != "DOES_NOT_EXIST"@.len());
    reveal_strlit("EVIL");
    assert("SELECT_CASTE"@.len() != "EVIL"@.len());
    reveal_strlit("FANCIFUL");
    assert("SELECT_CASTE"@.len() != "FANCIFUL"@.len());
    reveal_strlit("FREQUENCY");
    assert("SELECT_CASTE"@.len() != "FREQUENCY"@.len());
    reveal_strlit("GENERAL_BABY_NAME");
    assert("SELECT_CASTE"@.len() != "GENERAL_BABY_NAME"@.len());
    reveal_strlit("GENERAL_CHILD_NAME");
    assert("SELECT_CASTE"@.len() != "GENERAL_CHILD_NAME"@.len());
    reveal_strlit("GENERATED");
    assert("SELECT_CASTE"@.len() != "GENERATED"@.len());
    reveal_strlit("GLOWCOLOR");
    assert("SELECT_CASTE"@.len() != "GLOWCOLOR"@.len());
    reveal_strlit("GLOWTILE");
    assert("SELECT_CASTE"@.len() != "GLOWTILE"@.len());
    reveal_strlit("GOOD");
    assert("SELECT_CASTE"@.len() != "GOOD"@.len());
    reveal_strlit("LARGE_ROAMING");
    assert("SELECT_CASTE"@.len() != "LARGE_ROAMING"@.len());
    reveal_strlit("LOCAL_POPS_CONTROLLABLE");
    assert("SELECT_CASTE"@.len() != "LOCAL_POPS_CONTROLLABLE"@.len());
    reveal_strlit("LOCAL_POPS_PRODUCE_HEROES");
    assert("SELECT_CASTE"@.len() != "LOCAL_POPS_PRODUCE_HEROES"@.len());
    reveal_strlit("LOOSE_CLUSTERS");
    assert("SELECT_CASTE"@.len() != "LOOSE_CLUSTERS"@.len());
    reveal_strlit("MUNDANE");
    assert("SELECT_CASTE"@.len() != "MUNDANE"@.len());
    reveal_strlit("NAME");
    assert("SELECT_CASTE"@.len() != "NAME"@.len());
    reveal_strlit("POPULATION_NUMBER");
    assert("SELECT_CASTE"@.len() != "POPULATION_NUMBER"@.len());
    reveal_strlit("PREFSTRING");
    assert("SELECT_CASTE"@.len() != "PREFSTRING"@.len());
    reveal_strlit("SAVAGE");
    assert("SELECT_CASTE"@.len() != "SAVAGE"@.len());
    reveal_strlit("UBIQUITOUS");
    assert("SELECT_CASTE"@.len() != "UBIQUITOUS"@.len());
    reveal_strlit("UNDERGROUND_DEPTH");
    assert("SELECT_CASTE"@.len() != "UNDERGROUND_DEPTH"@.len());
    reveal_strlit("VERMIN_EATER");
    assert("SELECT_CASTE"@[0] != "VERMIN_EATER"@[0]);
    reveal_strlit("VERMIN_FISH");
    assert("SELECT_CASTE"@.len() != "VERMIN_FISH"@.len());
    reveal_strlit("VERMIN_GROUNDER");
    assert("SELECT_CASTE"@.len() != "VERMIN_GROUNDER"@.len());
    reveal_strlit("VERMIN_ROTTER");
    assert("SELECT_CASTE"@.len() != "VERMIN_ROTTER"@.len());
    reveal_strlit("VERMIN_SOIL");
    assert("SELECT_CASTE"@.len() != "VERMIN_SOIL"@.len());
    reveal_strlit("VERMIN_SOIL_COLONY");
    assert("SELECT_CASTE"@.len() != "VERMIN_SOIL_COLONY"@.len());
}

/// The keys that drive the builder itself belong to neither vocabulary.
pub proof fn lemma_structural_keys_outside_vocabularies()
    ensures
        caste_tag_of("OBJECT"@) is None && creature_tag_of("OBJECT"@) is None,
        caste_tag_of("CREATURE"@) is None && creature_tag_of("CREATURE"@) is None,
        caste_tag_of("SELECT_CREATURE"@) is None && creature_tag_of("SELECT_CREATURE"@) is None,
        caste_tag_of("CASTE"@) is None && creature_tag_of("CASTE"@) is None,
        caste_tag_of("SELECT_CASTE"@) is None && creature_tag_of("SELECT_CASTE"@) is None,
{
    lemma_object_not_caste_key();
    lemma_object_not_creature_key();
    lemma_creature_not_caste_key();
    lemma_creature_not_creature_key();
    lemma_select_creature_not_caste_key();
    lemma_select_creature_not_creature_key();
    lemma_caste_not_caste_key();
    lemma_caste_not_creature_key();
    lemma_select_caste_not_caste_key();
    lemma_select_caste_not_creature_key();
}

} // verus!
