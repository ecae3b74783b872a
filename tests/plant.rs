use dfraw_json_parser::builder::parse_creature_file;
use dfraw_json_parser::options::{ParserOptions, ParsingJob};
use dfraw_json_parser::plant;
use dfraw_json_parser::plant::{MaterialTag, PlantGrowth};
use dfraw_json_parser::{parse, parse_raw_lines, read_raw_file_type, RawObjectKind};

fn lines(text: &[&str]) -> Vec<String> {
    text.iter().map(|s| s.to_string()).collect()
}

fn plant_file() -> Vec<String> {
    lines(&[
        "plant_test",
        "[OBJECT:PLANT]",
        "[PLANT:STRAWBERRY][NAME:strawberry plant][NAME_PLURAL:strawberry plants][ADJ:strawberry]",
        "[FREQUENCY:50][CLUSTERSIZE:5][GROWDUR:300][VALUE:2][BIOME:GRASSLAND][PREFSTRING:berries]",
        "[USE_MATERIAL_TEMPLATE:STRUCTURAL:STRUCTURAL_PLANT_TEMPLATE][MATERIAL_VALUE:3]",
        "[STATE_NAME:ALL_SOLID:strawberry][STATE_ADJ:LIQUID:runny][STATE_COLOR:GAS:RED]",
        "[USE_MATERIAL_TEMPLATE:FRUIT:FRUIT_TEMPLATE][EDIBLE_RAW][EDIBLE_COOKED][MELTING_POINT:10000]",
        "[GROWTH:FRUIT][GROWTH_NAME:strawberry:strawberries][GROWTH_NAME:berry:berries]",
        "[PLANT:BLUEBERRY][USE_MATERIAL_TEMPLATE:bad]",
    ])
}

#[test]
fn plant_fields_and_materials() {
    let plants = plant::parse(&plant_file());
    assert_eq!(plants.len(), 2);
    let p = &plants[0];
    assert_eq!(p.identifier, "plant_test-PLANT-strawberry");
    assert_eq!(p.name.singular, "strawberry plant");
    assert_eq!(p.name.plural, "strawberry plants");
    assert_eq!(p.name.adjective, "strawberry");
    assert_eq!((p.frequency, p.cluster_size, p.growth_duration, p.value), (50, 5, 300, 2));
    assert_eq!(p.biomes, vec!["GRASSLAND".to_string()]);
    assert_eq!(p.pref_strings, vec!["berries".to_string()]);
    assert_eq!(p.materials.len(), 3);
    assert_eq!(p.materials[0].material_type, "");
    let structural = &p.materials[1];
    assert_eq!(structural.material_type, "STRUCTURAL");
    assert_eq!(structural.template, "STRUCTURAL_PLANT_TEMPLATE");
    assert_eq!(structural.material_value, 3);
    assert_eq!(structural.state_name.solid, "strawberry");
    assert_eq!(structural.state_adj.liquid, "runny");
    assert_eq!(structural.state_color.gas, "RED");
    let fruit = &p.materials[2];
    assert_eq!(fruit.tags, vec![MaterialTag::EdibleRaw, MaterialTag::EdibleCooked]);
    assert_eq!(fruit.temperatures.melting_point, 10000);
    assert_eq!(p.growth_names.len(), 1);
    assert_eq!(p.growth_names[0].growth, PlantGrowth::Fruit);
    assert_eq!(p.growth_names[0].name.plural, "berries");
    let blueberry = &plants[1];
    assert_eq!(blueberry.materials.len(), 2);
    assert_eq!(blueberry.materials[1].material_type, "");
}

#[test]
fn plant_file_is_not_a_creature_file() {
    assert!(parse_creature_file(&plant_file()).is_empty());
    assert_eq!(read_raw_file_type(&plant_file()), RawObjectKind::Plant);
    let both = parse_raw_lines(&plant_file());
    assert!(both.creatures.is_empty());
    assert_eq!(both.plants.len(), 2);
}

#[test]
fn creature_file_has_no_plants() {
    let file = lines(&["f", "[OBJECT:CREATURE]", "[CREATURE:A]", "[PLANT:B]"]);
    assert!(plant::parse(&file).is_empty());
    let both = parse_raw_lines(&file);
    assert_eq!(both.creatures.len(), 1);
}

#[test]
fn state_name_needs_two_parts() {
    let file = lines(&["f", "[OBJECT:PLANT]", "[PLANT:A][STATE_NAME:SOLID][STATE_NAME:PLASMA:x][STATE_NAME_ADJ:SOLID:y]"]);
    let p = &plant::parse(&file)[0];
    let m = &p.materials[0];
    assert_eq!(m.state_name.solid, "y");
    assert_eq!(m.state_adj.solid, "y");
    assert_eq!(m.state_name.liquid, "");
}

#[test]
fn unknown_growth_keeps_earlier_growth() {
    let file = lines(&["f", "[OBJECT:PLANT]", "[PLANT:A][GROWTH:LEAVES][GROWTH:WINGS][GROWTH_NAME:leaf:leaves]"]);
    let p = &plant::parse(&file)[0];
    assert_eq!(p.growth_names[0].growth, PlantGrowth::Leaves);
}

#[test]
fn parse_returns_plants_too() {
    let options = ParserOptions::new("/df", ParsingJob::All);
    let parsed = parse(&options, &vec![plant_file()]);
    assert_eq!(parsed.plants.len(), 2);
    assert!(parsed.creatures.is_empty());
}

#[test]
fn plant_search_string() {
    let plants = plant::parse(&plant_file());
    assert_eq!(
        dfraw_json_parser::searchable::build_plant_search_string(&plants[0]),
        "STRAWBERRY strawberry plant strawberry plants strawberry GRASSLAND berries"
    );
}

#[test]
fn material_flag_with_a_value_is_ignored() {
    let file = lines(&["f", "[OBJECT:PLANT]", "[PLANT:A][EDIBLE_RAW:1][EDIBLE_COOKED]"]);
    let p = &plant::parse(&file)[0];
    assert_eq!(p.materials[0].tags, vec![MaterialTag::EdibleCooked]);
}
