use dfraw_json_parser::fields::{parse_min_max_range, BodySize, MinMax, Milkable, Name, SingPlurName};
use dfraw_json_parser::searchable::decimal_string;
use dfraw_json_parser::temperature::Temperatures;
use dfraw_json_parser::text::{parse_unsigned_str, split_colon, str_eq};

#[test]
fn ranges_need_two_numbers() {
    assert_eq!(parse_min_max_range("2:5"), Some(MinMax { min: 2, max: 5 }));
    assert_eq!(parse_min_max_range("notanumber:5"), None);
    assert_eq!(parse_min_max_range("1:2:3"), None);
    assert_eq!(parse_min_max_range("7"), None);
    assert_eq!(parse_min_max_range("0:65535"), Some(MinMax { min: 0, max: 65535 }));
    assert_eq!(parse_min_max_range("0:65536"), None);
}

#[test]
fn split_keeps_empty_pieces() {
    assert_eq!(split_colon(""), vec![String::new()]);
    assert_eq!(split_colon("a::b:"), vec!["a".to_string(), String::new(), "b".to_string(), String::new()]);
}

#[test]
fn unsigned_parsing() {
    assert_eq!(parse_unsigned_str("255", 255), Some(255));
    assert_eq!(parse_unsigned_str("256", 255), None);
    assert_eq!(parse_unsigned_str("+", 255), None);
    assert_eq!(parse_unsigned_str("", 255), None);
    assert_eq!(parse_unsigned_str(" 1", 255), None);
}

#[test]
fn string_equality() {
    assert!(str_eq("abc", "abc"));
    assert!(!str_eq("abc", "abd"));
    assert!(!str_eq("ab", "abc"));
    assert!(str_eq("", ""));
}

#[test]
fn names_from_values() {
    let n = Name::from_value("dwarf:dwarves");
    assert_eq!((n.singular.as_str(), n.plural.as_str(), n.adjective.as_str()), ("dwarf", "dwarves", ""));
    assert!(!n.is_empty());
    assert!(Name::new().is_empty());
    let s = SingPlurName::from_value("pup");
    assert_eq!((s.singular.as_str(), s.plural.as_str()), ("pup", ""));
}

#[test]
fn body_size_and_milk_need_three_parts() {
    assert_eq!(BodySize::from_value("1:2:3"), Some(BodySize { years: 1, days: 2, size_cm3: 3 }));
    assert_eq!(BodySize::from_value("1:2"), None);
    assert!(Milkable::from_value("A:B").is_none());
    assert!(Milkable::from_value("A:B:x").is_none());
    assert!(Milkable::new().is_default());
}

#[test]
fn decimal_strings() {
    assert_eq!(decimal_string(0), "0");
    assert_eq!(decimal_string(4294967295), "4294967295");
    assert_eq!(decimal_string(120), "120");
}

#[test]
fn temperatures_update_one_field() {
    let mut t = Temperatures::new();
    assert!(t.is_empty());
    t.update_specific_heat(1);
    t.update_ignition_point(2);
    t.update_melting_point(3);
    t.update_boiling_point(4);
    t.update_heat_damage_point(5);
    t.update_cold_damage_point(6);
    t.update_material_fixed_temperature(7);
    assert!(!t.is_empty());
    assert_eq!(
        (t.specific_heat, t.ignition_point, t.melting_point, t.boiling_point, t.heat_damage_point, t.cold_damage_point, t.material_fixed_temperature),
        (1, 2, 3, 4, 5, 6, 7)
    );
}
