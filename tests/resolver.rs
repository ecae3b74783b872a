use dfraw_json_parser::builder::parse_creature_file;
use dfraw_json_parser::caste::CasteTag;
use dfraw_json_parser::creature::{Creature, CreatureTag};
use dfraw_json_parser::fields::MinMax;
use dfraw_json_parser::options::{ParserOptions, ParsingJob};
use dfraw_json_parser::resolver::{absorb_select_creature, apply_copy_tags_from};
use dfraw_json_parser::searchable::build_search_string;
use dfraw_json_parser::parse;

fn records(text: &[&str]) -> Vec<Creature> {
    let lines: Vec<String> = text.iter().map(|s| s.to_string()).collect();
    parse_creature_file(&lines)
}

fn copy_pair(x_line: &str, y_line: &str) -> Vec<Creature> {
    let mut rs = records(&["f", "[OBJECT:CREATURE]", "[CREATURE:X][COPY_TAGS_FROM:Y]", x_line, "[CREATURE:Y]", y_line]);
    apply_copy_tags_from(&mut rs);
    rs
}

#[test]
fn copy_fills_default_field_from_source() {
    let rs = copy_pair("", "[DIFFICULTY:7]");
    assert_eq!(rs[0].castes[0].difficulty, 7);
    assert_eq!(rs[0].copy_tags_from, "");
    assert_eq!(rs[1].castes[0].difficulty, 7);
}

#[test]
fn copy_keeps_explicit_difficulty() {
    let rs = copy_pair("[DIFFICULTY:3]", "[DIFFICULTY:7]");
    assert_eq!(rs[0].castes[0].difficulty, 3);
}

#[test]
fn copy_keeps_explicit_egg_size() {
    assert_eq!(copy_pair("[EGG_SIZE:3]", "[EGG_SIZE:7]")[0].castes[0].egg_size, 3);
    assert_eq!(copy_pair("", "[EGG_SIZE:7]")[0].castes[0].egg_size, 7);
}

#[test]
fn copy_keeps_explicit_pet_value() {
    assert_eq!(copy_pair("[PETVALUE:3]", "[PETVALUE:7]")[0].castes[0].pet_value, 3);
    assert_eq!(copy_pair("", "[PETVALUE:7]")[0].castes[0].pet_value, 7);
}

#[test]
fn copy_keeps_explicit_clutch_size() {
    assert_eq!(copy_pair("[CLUTCH_SIZE:1:2]", "[CLUTCH_SIZE:5:6]")[0].castes[0].clutch_size, MinMax { min: 1, max: 2 });
    assert_eq!(copy_pair("", "[CLUTCH_SIZE:5:6]")[0].castes[0].clutch_size, MinMax { min: 5, max: 6 });
}

#[test]
fn copy_keeps_explicit_description() {
    assert_eq!(copy_pair("[DESCRIPTION:mine]", "[DESCRIPTION:theirs]")[0].castes[0].description, "mine");
    assert_eq!(copy_pair("", "[DESCRIPTION:theirs]")[0].castes[0].description, "theirs");
}

#[test]
fn copy_keeps_explicit_frequency() {
    assert_eq!(copy_pair("[FREQUENCY:3]", "[FREQUENCY:7]")[0].frequency, 3);
    assert_eq!(copy_pair("", "[FREQUENCY:7]")[0].frequency, 7);
}

#[test]
fn copy_merges_flags_and_castes() {
    let rs = copy_pair("[EVIL][CASTE:MALE][MALE]", "[GOOD][CASTE:FEMALE][FEMALE]");
    let x = &rs[0];
    assert_eq!(x.tags, vec![CreatureTag::Good, CreatureTag::Evil]);
    let names: Vec<String> = x.castes.iter().map(|c| c.identifier.clone()).collect();
    assert_eq!(names, vec!["ALL".to_string(), "FEMALE".to_string(), "MALE".to_string()]);
    assert_eq!(x.identifier, "f-CREATURE-x");
    assert_eq!(x.object_id, "X");
}

#[test]
fn copy_with_missing_source_drops_directive() {
    let mut rs = records(&["f", "[OBJECT:CREATURE]", "[CREATURE:X][COPY_TAGS_FROM:NOBODY][EVIL]"]);
    apply_copy_tags_from(&mut rs);
    assert_eq!(rs[0].copy_tags_from, "");
    assert_eq!(rs[0].tags, vec![CreatureTag::Evil]);
}

#[test]
fn copy_chain_resolves_in_dependency_order() {
    let mut rs = records(&[
        "f",
        "[OBJECT:CREATURE]",
        "[CREATURE:A][COPY_TAGS_FROM:B]",
        "[CREATURE:B][COPY_TAGS_FROM:C]",
        "[CREATURE:C][DIFFICULTY:9]",
    ]);
    apply_copy_tags_from(&mut rs);
    assert_eq!(rs[0].castes[0].difficulty, 9);
    assert_eq!(rs[1].castes[0].difficulty, 9);
}

#[test]
fn copy_cycle_ends_with_directives_left() {
    let mut rs = records(&[
        "f",
        "[OBJECT:CREATURE]",
        "[CREATURE:A][COPY_TAGS_FROM:B]",
        "[CREATURE:B][COPY_TAGS_FROM:A]",
    ]);
    apply_copy_tags_from(&mut rs);
    assert_eq!(rs[0].copy_tags_from, "B");
    assert_eq!(rs[1].copy_tags_from, "A");
}

#[test]
fn selection_is_absorbed_into_target() {
    let mut rs = records(&[
        "f",
        "[OBJECT:CREATURE]",
        "[CREATURE:TOAD][CASTE:MALE][DIFFICULTY:2]",
        "[SELECT_CREATURE:TOAD][EVIL][SELECT_CASTE:MALE][FLIER]",
    ]);
    absorb_select_creature(&mut rs);
    assert_eq!(rs.len(), 1);
    assert_eq!(rs[0].tags, vec![CreatureTag::Evil]);
    let male = rs[0].castes.iter().find(|c| c.identifier == "MALE").unwrap();
    assert_eq!(male.tags, vec![CasteTag::Flier]);
    assert_eq!(male.difficulty, 2);
    assert_eq!(rs[0].selected_creature, "");
}

#[test]
fn selection_without_target_stays() {
    let mut rs = records(&["f", "[OBJECT:CREATURE]", "[SELECT_CREATURE:NOBODY][EVIL]"]);
    absorb_select_creature(&mut rs);
    assert_eq!(rs.len(), 1);
    assert_eq!(rs[0].selected_creature, "NOBODY");
}

#[test]
fn parse_runs_both_passes_across_files() {
    let f1: Vec<String> = ["a", "[OBJECT:CREATURE]", "[CREATURE:X][COPY_TAGS_FROM:Y]"].iter().map(|s| s.to_string()).collect();
    let f2: Vec<String> = ["b", "[OBJECT:CREATURE]", "[CREATURE:Y][DIFFICULTY:4]", "[SELECT_CREATURE:Y][EVIL]"].iter().map(|s| s.to_string()).collect();
    let files = vec![f1, f2];
    let options = ParserOptions::new("/df", ParsingJob::All);
    let rs = parse(&options, &files).creatures;
    assert_eq!(rs.len(), 2);
    assert_eq!(rs[0].castes[0].difficulty, 4);
    assert_eq!(rs[0].tags, vec![CreatureTag::Evil]);
    assert_eq!(rs[1].identifier, "b-CREATURE-y");
}

#[test]
fn parse_can_skip_copies() {
    let f1: Vec<String> = ["a", "[OBJECT:CREATURE]", "[CREATURE:X][COPY_TAGS_FROM:Y]", "[CREATURE:Y][DIFFICULTY:4]"].iter().map(|s| s.to_string()).collect();
    let mut options = ParserOptions::new("/df", ParsingJob::SingleRaw);
    options.skip_apply_copy_tags_from = true;
    let rs = parse(&options, &vec![f1]).creatures;
    assert_eq!(rs[0].castes[0].difficulty, 0);
    assert_eq!(rs[0].copy_tags_from, "Y");
}

#[test]
fn parse_for_info_job_is_empty() {
    let f1: Vec<String> = ["a", "[OBJECT:CREATURE]", "[CREATURE:X]"].iter().map(|s| s.to_string()).collect();
    let options = ParserOptions::new("/df", ParsingJob::AllModuleInfoFiles);
    assert!(parse(&options, &vec![f1]).creatures.is_empty());
}

#[test]
fn search_string_of_a_creature() {
    let rs = records(&["f", "[OBJECT:CREATURE]", "[CREATURE:TOAD][NAME:toad:toads:toad][BIOME:POOL]", "[FLIER][PETVALUE:10]"]);
    assert_eq!(
        build_search_string(&rs[0]),
        "TOAD toad toads toad POOL ALL flying flies flier 10"
    );
}
