use dfraw_json_parser::builder::{parse_creature_file, CreatureFileBuilder, ParseState};
use dfraw_json_parser::caste::CasteTag;
use dfraw_json_parser::creature::{Creature, CreatureTag};
use dfraw_json_parser::fields::MinMax;

fn lines(text: &[&str]) -> Vec<String> {
    text.iter().map(|s| s.to_string()).collect()
}

fn caste_names(c: &Creature) -> Vec<String> {
    c.castes.iter().map(|k| k.identifier.clone()).collect()
}

#[test]
fn one_record_round_trip() {
    let file = lines(&[
        "creature_test",
        "[OBJECT:CREATURE]",
        "[CREATURE:TOAD][NAME:toad:toads:toad]",
        "[CASTE:FEMALE][FEMALE][LAYS_EGGS][EGG_SIZE:12][CLUTCH_SIZE:2:5]",
        "[PETVALUE:30][DESCRIPTION:A small toad.][FLIER]",
    ]);
    let records = parse_creature_file(&file);
    assert_eq!(records.len(), 1);
    let toad = &records[0];
    assert_eq!(toad.object_id, "TOAD");
    assert_eq!(toad.name.singular, "toad");
    assert_eq!(toad.name.plural, "toads");
    assert_eq!(caste_names(toad), vec!["ALL".to_string(), "FEMALE".to_string()]);
    let female = &toad.castes[1];
    assert_eq!(female.tags, vec![CasteTag::Female, CasteTag::LaysEggs, CasteTag::Flier]);
    assert_eq!(female.egg_size, 12);
    assert_eq!(female.clutch_size, MinMax { min: 2, max: 5 });
    assert_eq!(female.pet_value, 30);
    assert_eq!(female.description, "A small toad.");
    assert!(toad.castes[0].tags.is_empty());
}

#[test]
fn identifier_uses_file_name_and_slug() {
    let file = lines(&["creature_test", "[OBJECT:CREATURE]", "[CREATURE:GIANT TOAD]"]);
    let records = parse_creature_file(&file);
    assert_eq!(records[0].identifier, "creature_test-CREATURE-giant-toad");
}

#[test]
fn consecutive_boundaries_give_two_records() {
    let file = lines(&["f", "[OBJECT:CREATURE]", "[CREATURE:A][CREATURE:B]", "[FLIER]"]);
    let records = parse_creature_file(&file);
    assert_eq!(records.len(), 2);
    assert_eq!(records[0].object_id, "A");
    assert_eq!(caste_names(&records[0]), vec!["ALL".to_string()]);
    assert!(records[0].castes[0].tags.is_empty());
    assert!(records[0].tags.is_empty());
    assert_eq!(records[1].object_id, "B");
    assert_eq!(records[1].castes[0].tags, vec![CasteTag::Flier]);
}

#[test]
fn range_parses_two_parts() {
    let file = lines(&["f", "[OBJECT:CREATURE]", "[CREATURE:A][CLUTCH_SIZE:2:5]"]);
    let records = parse_creature_file(&file);
    assert_eq!(records[0].castes[0].clutch_size, MinMax { min: 2, max: 5 });
}

#[test]
fn bad_range_keeps_default_and_parsing_goes_on() {
    let file = lines(&[
        "f",
        "[OBJECT:CREATURE]",
        "[CREATURE:A][CLUTCH_SIZE:notanumber:5][EGG_SIZE:9]",
    ]);
    let records = parse_creature_file(&file);
    assert_eq!(records[0].castes[0].clutch_size, MinMax { min: 0, max: 0 });
    assert_eq!(records[0].castes[0].egg_size, 9);
}

#[test]
fn bad_number_keeps_earlier_value() {
    let file = lines(&["f", "[OBJECT:CREATURE]", "[CREATURE:A][EGG_SIZE:12][EGG_SIZE:twelve]"]);
    let records = parse_creature_file(&file);
    assert_eq!(records[0].castes[0].egg_size, 12);
}

#[test]
fn select_caste_extends_without_duplicating() {
    let file = lines(&[
        "f",
        "[OBJECT:CREATURE]",
        "[CREATURE:A]",
        "[CASTE:A][MALE]",
        "[CASTE:B][FEMALE]",
        "[SELECT_CASTE:A][FLIER]",
    ]);
    let records = parse_creature_file(&file);
    let names = caste_names(&records[0]);
    assert_eq!(names, vec!["ALL".to_string(), "B".to_string(), "A".to_string()]);
    let a = &records[0].castes[2];
    assert_eq!(a.tags, vec![CasteTag::Male, CasteTag::Flier]);
    assert_eq!(records[0].castes[1].tags, vec![CasteTag::Female]);
}

#[test]
fn select_unknown_caste_starts_fresh_one() {
    let file = lines(&["f", "[OBJECT:CREATURE]", "[CREATURE:A][SELECT_CASTE:X][FLIER]"]);
    let records = parse_creature_file(&file);
    assert_eq!(caste_names(&records[0]), vec!["ALL".to_string(), "X".to_string()]);
    assert_eq!(records[0].castes[1].tags, vec![CasteTag::Flier]);
}

#[test]
fn unsupported_kind_yields_no_records() {
    let file = lines(&["f", "[OBJECT:PLANT]", "[CREATURE:A][FLIER]"]);
    assert!(parse_creature_file(&file).is_empty());
}

#[test]
fn unsupported_kind_later_discards_earlier_records() {
    let file = lines(&["f", "[OBJECT:CREATURE]", "[CREATURE:A]", "[OBJECT:ITEM]", "[CREATURE:B]"]);
    assert!(parse_creature_file(&file).is_empty());
}

#[test]
fn first_line_is_never_scanned() {
    let file = lines(&["[OBJECT:CREATURE][CREATURE:A]", "[CREATURE:B]"]);
    assert!(parse_creature_file(&file).is_empty());
}

#[test]
fn empty_file_yields_nothing() {
    assert!(parse_creature_file(&Vec::new()).is_empty());
    assert!(parse_creature_file(&lines(&["only a name"])).is_empty());
}

#[test]
fn object_without_records_yields_nothing() {
    assert!(parse_creature_file(&lines(&["f", "[OBJECT:CREATURE]", "[FLIER]"])).is_empty());
}

#[test]
fn creature_tokens_go_to_the_record() {
    let file = lines(&[
        "f",
        "[OBJECT:CREATURE]",
        "[CREATURE:A][EVIL][FREQUENCY:50][BIOME:ANY_LAND][POPULATION_NUMBER:10:20]",
        "[GENERAL_BABY_NAME:pup:pups][COPY_TAGS_FROM:B][CREATURE_TILE:'a'][COLOR:2:0:0]",
    ]);
    let r = &parse_creature_file(&file)[0];
    assert_eq!(r.tags, vec![CreatureTag::Evil]);
    assert_eq!(r.frequency, 50);
    assert_eq!(r.biomes, vec!["ANY_LAND".to_string()]);
    assert_eq!(r.population_number, MinMax { min: 10, max: 20 });
    assert_eq!(r.general_baby_name.plural, "pups");
    assert_eq!(r.copy_tags_from, "B");
    assert_eq!(r.tile.character, "'a'");
    assert_eq!(r.tile.color, "2:0:0");
}

#[test]
fn unknown_keys_are_ignored() {
    let file = lines(&["f", "[OBJECT:CREATURE]", "[CREATURE:A][NOT_A_TAG][ALSO_NOT:1]"]);
    let r = &parse_creature_file(&file)[0];
    assert!(r.tags.is_empty());
    assert!(r.castes[0].tags.is_empty());
}

#[test]
fn select_creature_starts_a_selection_record() {
    let file = lines(&["f", "[OBJECT:CREATURE]", "[SELECT_CREATURE:TOAD][FLIER]"]);
    let r = &parse_creature_file(&file)[0];
    assert_eq!(r.selected_creature, "TOAD");
    assert_eq!(r.object_id, "TOAD");
}

#[test]
fn builder_steps_by_hand() {
    let mut b = CreatureFileBuilder::new("f");
    b.consume("CREATURE", "A");
    assert_eq!(b.state, ParseState::NoObject);
    b.consume("OBJECT", "CREATURE");
    assert_eq!(b.state, ParseState::Building);
    b.consume("CREATURE", "A");
    b.consume("FLIER", "");
    let out = b.finish();
    assert_eq!(out.len(), 1);
    assert_eq!(out[0].castes[0].tags, vec![CasteTag::Flier]);
}

#[test]
fn creature_flag_with_a_value_is_ignored() {
    let file = lines(&["f", "[OBJECT:CREATURE]", "[CREATURE:A][EVIL:1][GOOD][FLIER:yes]"]);
    let r = &parse_creature_file(&file)[0];
    assert_eq!(r.tags, vec![CreatureTag::Good]);
    assert!(r.castes[0].tags.is_empty());
}
