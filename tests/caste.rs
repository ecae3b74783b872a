use dfraw_json_parser::caste::{caste_tag_for, Caste, CasteTag};
use dfraw_json_parser::fields::{BodySize, MinMax};

#[test]
fn new_caste_is_empty() {
    let c = Caste::new("MALE");
    assert_eq!(c.get_identifier(), "MALE");
    assert!(c.tags.is_empty());
    assert_eq!(c.egg_size, 0);
    assert!(!c.is_egg_layer());
}

#[test]
fn flag_and_fields() {
    let mut c = Caste::new("ALL");
    c.parse_tag("LAYS_EGGS", "");
    c.parse_tag("GRASSTRAMPLE", "20");
    c.parse_tag("GRASSTRAMPLE", "256");
    c.parse_tag("MAXAGE", "10:20");
    c.parse_tag("BODY_SIZE", "0:0:1000");
    c.parse_tag("BODY_SIZE", "1:x:1000");
    c.parse_tag("MILKABLE", "LOCAL_CREATURE_MAT:MILK:20000");
    c.parse_tag("CASTE_NAME", "toad:toads:toad");
    c.parse_tag("BABYNAME", "tadpole:tadpoles");
    c.parse_tag("CREATURE_CLASS", "AMPHIBIAN");
    c.parse_tag("CASTE_GLOWCOLOR", "7:0:1");
    assert!(c.is_egg_layer());
    assert_eq!(c.grass_trample, 20);
    assert_eq!(c.max_age, MinMax { min: 10, max: 20 });
    assert_eq!(c.body_size, vec![BodySize { years: 0, days: 0, size_cm3: 1000 }]);
    assert_eq!(c.milkable.material, "LOCAL_CREATURE_MAT:MILK");
    assert_eq!(c.milkable.frequency, 20000);
    assert_eq!(c.caste_name.adjective, "toad");
    assert_eq!(c.baby_name.plural, "tadpoles");
    assert_eq!(c.creature_class, vec!["AMPHIBIAN".to_string()]);
    assert_eq!(c.tile.glow_color, "7:0:1");
    assert!(!c.is_milkable());
}

#[test]
fn numbers_follow_unsigned_parsing() {
    let mut c = Caste::new("ALL");
    c.parse_tag("DIFFICULTY", "+5");
    assert_eq!(c.difficulty, 5);
    c.parse_tag("DIFFICULTY", "-5");
    assert_eq!(c.difficulty, 5);
    c.parse_tag("DIFFICULTY", "4294967295");
    assert_eq!(c.difficulty, 4294967295);
    c.parse_tag("DIFFICULTY", "4294967296");
    assert_eq!(c.difficulty, 4294967295);
    c.parse_tag("PETVALUE", "007");
    assert_eq!(c.pet_value, 7);
}

#[test]
fn flag_with_empty_value_of_a_field_tag_is_a_flag() {
    let mut c = Caste::new("ALL");
    c.parse_tag("MILKABLE", "");
    assert!(c.is_milkable());
}

#[test]
fn duplicate_flags_are_kept() {
    let mut c = Caste::new("ALL");
    c.parse_tag("FLIER", "");
    c.parse_tag("FLIER", "");
    assert_eq!(c.tags, vec![CasteTag::Flier, CasteTag::Flier]);
}

#[test]
fn unknown_key_changes_nothing() {
    let mut c = Caste::new("ALL");
    c.parse_tag("NOPE", "");
    assert!(c.tags.is_empty());
    assert_eq!(caste_tag_for("NOPE"), None);
    assert_eq!(caste_tag_for("AMBUSH_PREDATOR"), Some(CasteTag::AmbushPredator));
    assert_eq!(caste_tag_for("AMBUSHPREDATOR"), Some(CasteTag::AmbushPredator));
}

#[test]
fn remove_undoes_fields_and_flags() {
    let mut c = Caste::new("ALL");
    c.parse_tag("FLIER", "");
    c.parse_tag("GNAWER", "");
    c.parse_tag("FLIER", "");
    c.parse_tag("EGG_SIZE", "12");
    c.parse_tag("CLUTCH_SIZE", "1:2");
    c.parse_tag("CREATURE_CLASS", "A");
    c.parse_tag("CREATURE_CLASS", "B");
    c.parse_tag("BODY_SIZE", "0:0:10");
    c.parse_tag("BODY_SIZE", "1:0:20");
    c.parse_tag("CASTE_TILE", "x");
    c.remove_tag_and_value("FLIER", "");
    c.remove_tag_and_value("EGG_SIZE", "12");
    c.remove_tag_and_value("CLUTCH_SIZE", "1:2");
    c.remove_tag_and_value("CREATURE_CLASS", "A");
    c.remove_tag_and_value("BODY_SIZE", "0:0:10");
    c.remove_tag_and_value("CASTE_TILE", "x");
    c.remove_tag_and_value("NOT_A_TAG", "");
    assert_eq!(c.tags, vec![CasteTag::Gnawer]);
    assert_eq!(c.egg_size, 0);
    assert_eq!(c.clutch_size, MinMax { min: 0, max: 0 });
    assert_eq!(c.creature_class, vec!["B".to_string()]);
    assert_eq!(c.body_size, vec![BodySize { years: 1, days: 0, size_cm3: 20 }]);
    assert_eq!(c.tile.character, "");
}

#[test]
fn overwrite_takes_non_default_fields_and_missing_flags() {
    let mut mine = Caste::new("MALE");
    mine.parse_tag("FLIER", "");
    mine.parse_tag("DIFFICULTY", "3");
    mine.parse_tag("EGG_SIZE", "4");
    let mut other = Caste::new("OTHER");
    other.parse_tag("FLIER", "");
    other.parse_tag("GNAWER", "");
    other.parse_tag("PETVALUE", "9");
    other.parse_tag("EGG_SIZE", "8");
    other.parse_tag("DESCRIPTION", "text");
    mine.overwrite_caste(&other);
    assert_eq!(mine.get_identifier(), "MALE");
    assert_eq!(mine.tags, vec![CasteTag::Flier, CasteTag::Gnawer]);
    assert_eq!(mine.difficulty, 3);
    assert_eq!(mine.pet_value, 9);
    assert_eq!(mine.egg_size, 8);
    assert_eq!(mine.description, "text");
}

#[test]
fn search_words_of_a_caste() {
    let mut c = Caste::new("FEMALE");
    c.parse_tag("CASTE_NAME", "toad:toads");
    c.parse_tag("LAYS_EGGS", "");
    c.parse_tag("EGG_SIZE", "12");
    c.parse_tag("DIFFICULTY", "3");
    c.parse_tag("INTELLIGENT", "");
    c.parse_tag("DESCRIPTION", "d");
    let words = c.get_search_vec();
    assert_eq!(
        words,
        vec!["FEMALE", "toad", "toads", "d", "eggs", "12", "3", "speaks language", "learns", "intelligent"]
            .into_iter()
            .map(String::from)
            .collect::<Vec<String>>()
    );
}

#[test]
fn activity_and_training_flags() {
    let mut c = Caste::new("ALL");
    c.parse_tag("NOCTURNAL", "");
    c.parse_tag("NO_WINTER", "");
    c.parse_tag("TRAINABLE", "");
    c.parse_tag("CURIOUSBEAST_ITEM", "");
    assert_eq!(
        c.tags,
        vec![CasteTag::Nocturnal, CasteTag::NoWinter, CasteTag::Trainable, CasteTag::CuriousBeastItem]
    );
}

#[test]
fn flag_with_a_value_is_ignored() {
    let mut c = Caste::new("ALL");
    c.parse_tag("FLIER", "1");
    assert!(c.tags.is_empty());
    c.parse_tag("FLIER", "");
    c.remove_tag_and_value("FLIER", "1");
    assert_eq!(c.tags, vec![CasteTag::Flier]);
    c.remove_tag_and_value("FLIER", "");
    assert!(c.tags.is_empty());
}
