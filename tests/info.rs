use dfraw_json_parser::info::{parse_dfraw_module_info_file, parse_version, version_from_digits, ModuleInfoFile};
use dfraw_json_parser::options::{ParserOptions, ParsingJob};
use dfraw_json_parser::{parse_info_modules, parse_module_info_file, read_raw_file_type, InfoFileText, RawObjectKind};

fn lines(text: &[&str]) -> Vec<String> {
    text.iter().map(|s| s.to_string()).collect()
}

#[test]
fn info_file_fields() {
    let m = parse_dfraw_module_info_file(
        &lines(&[
            "[ID:vanilla_creatures]",
            "[NUMERIC_VERSION:5001][DISPLAYED_VERSION:50.01]",
            "[EARLIEST_COMPATIBLE_NUMERIC_VERSION:4900][EARLIEST_COMPATIBLE_DISPLAYED_VERSION:49.00]",
            "[AUTHOR:Bay 12 Games][NAME:Vanilla Creatures][DESCRIPTION:All creatures.]",
        ]),
        "Vanilla",
    );
    assert_eq!(m.get_identifier(), "vanilla_creatures");
    assert_eq!(m.numeric_version, 5001);
    assert_eq!(m.get_version(), "50.01");
    assert_eq!(m.earliest_compatible_numeric_version, 4900);
    assert_eq!(m.earliest_compatible_displayed_version, "49.00");
    assert_eq!(m.author, "Bay 12 Games");
    assert_eq!(m.name, "Vanilla Creatures");
    assert_eq!(m.description, "All creatures.");
    assert_eq!(m.get_sourced_directory(), "Vanilla");
}

#[test]
fn version_falls_back_on_digits() {
    assert_eq!(parse_version("5001"), Some(5001));
    assert_eq!(parse_version("v50.01"), Some(5001));
    assert_eq!(parse_version("none"), None);
    assert_eq!(version_from_digits("v1", "1"), Some(1));
    assert_eq!(version_from_digits("x", ""), None);
}

#[test]
fn id_token_resets_earlier_fields() {
    let m = parse_dfraw_module_info_file(&lines(&["[AUTHOR:a][ID:x][NAME:n]"]), "Mods");
    assert_eq!(m.author, "");
    assert_eq!(m.get_identifier(), "x");
    assert_eq!(m.name, "n");
}

#[test]
fn module_info_needs_its_job() {
    let file = lines(&["[ID:x]"]);
    let wrong = ParserOptions::new("/df", ParsingJob::All);
    assert_eq!(parse_module_info_file(&wrong, &file, "Mods").get_identifier(), "");
    let right = ParserOptions::new("/df/info.txt", ParsingJob::SingleModuleInfoFile);
    assert_eq!(parse_module_info_file(&right, &file, "Mods").get_identifier(), "x");
}

#[test]
fn info_modules_per_file() {
    let files = vec![
        InfoFileText { lines: lines(&["[ID:a]"]), sourced_directory: "Vanilla".to_string() },
        InfoFileText { lines: lines(&["[ID:b]"]), sourced_directory: "Mods".to_string() },
    ];
    let all = ParserOptions::new("/df", ParsingJob::AllModuleInfoFiles);
    let ms: Vec<ModuleInfoFile> = parse_info_modules(&all, &files);
    assert_eq!(ms.len(), 2);
    assert_eq!(ms[1].get_identifier(), "b");
    let raw = ParserOptions::new("/df/x.txt", ParsingJob::SingleRaw);
    assert!(parse_info_modules(&raw, &files).is_empty());
}

#[test]
fn raw_file_type_from_first_object_token() {
    assert_eq!(read_raw_file_type(&lines(&["f", "[OBJECT:CREATURE]"])), RawObjectKind::Creature);
    assert_eq!(read_raw_file_type(&lines(&["f", "[OBJECT:ITEM]", "[OBJECT:CREATURE]"])), RawObjectKind::Unknown);
    assert_eq!(read_raw_file_type(&lines(&["[OBJECT:CREATURE]", "nothing"])), RawObjectKind::Unknown);
    assert_eq!(read_raw_file_type(&Vec::new()), RawObjectKind::Unknown);
}
