use mod_presets::preset::{
    create, delete, find_preset, import_preset, validate_name, NameError, Preset, Settings,
};
use mod_presets::value::Value;
use mod_presets::values::Values;

fn rows(rows: &[(&str, Value)]) -> Values {
    let mut values = Values::new();
    for (name, value) in rows {
        values.set(name.to_string(), *value);
    }
    values
}

fn named(name: &str, values: &[(&str, Value)]) -> Preset {
    Preset { name: name.to_string(), settings: rows(values) }
}

fn names(presets: &Vec<Preset>) -> Vec<String> {
    presets.iter().map(|p| p.name.clone()).collect()
}

fn settings_with(presets: Vec<Preset>) -> Settings {
    Settings {
        settings: rows(&[("style", Value::SingleFiles(2)), ("tint", Value::Rgb([1, 2, 3]))]),
        presets,
    }
}

#[test]
fn creating_a_preset_named_default_is_rejected() {
    let mut settings = settings_with(vec![named("Mine", &[])]);
    let outcome = create(&mut settings, &"Default".to_string(), &vec![]);
    assert_eq!(outcome, Err(NameError::Reserved));
    assert_eq!(names(&settings.presets), vec!["Mine"]);
    assert_eq!(settings.settings.len(), 2);
    assert_eq!(settings.settings.get(&"style".to_string()), Some(Value::SingleFiles(2)));
}

#[test]
fn creating_a_preset_named_custom_is_rejected() {
    let mut settings = settings_with(vec![]);
    assert_eq!(create(&mut settings, &"Custom".to_string(), &vec![]), Err(NameError::Reserved));
    assert!(settings.presets.is_empty());
}

#[test]
fn reserved_names_are_compared_letter_for_letter() {
    let mut settings = settings_with(vec![]);
    assert_eq!(create(&mut settings, &"default".to_string(), &vec![]), Ok(()));
    assert_eq!(create(&mut settings, &"CUSTOM".to_string(), &vec![]), Ok(()));
    assert_eq!(names(&settings.presets), vec!["default", "CUSTOM"]);
}

#[test]
fn creating_a_preset_without_a_name_is_rejected() {
    let mut settings = settings_with(vec![]);
    assert_eq!(create(&mut settings, &String::new(), &vec![]), Err(NameError::EmptyName));
    assert!(settings.presets.is_empty());
}

#[test]
fn creating_a_preset_under_a_taken_name_is_rejected() {
    let metadata = vec![named("Shipped", &[])];
    let mut settings = settings_with(vec![named("Mine", &[])]);
    assert_eq!(create(&mut settings, &"Shipped".to_string(), &metadata), Err(NameError::Duplicate));
    assert_eq!(create(&mut settings, &"Mine".to_string(), &metadata), Err(NameError::Duplicate));
    assert_eq!(names(&settings.presets), vec!["Mine"]);
}

#[test]
fn a_created_preset_holds_every_current_value() {
    let metadata = vec![named("Shipped", &[])];
    let mut settings = settings_with(vec![named("Mine", &[])]);
    assert_eq!(create(&mut settings, &"Second".to_string(), &metadata), Ok(()));
    assert_eq!(names(&settings.presets), vec!["Mine", "Second"]);
    let made = &settings.presets[1];
    assert_eq!(made.settings, settings.settings);
    assert_eq!(made.settings.len(), 2);
    assert_eq!(made.settings.get(&"tint".to_string()), Some(Value::Rgb([1, 2, 3])));
}

#[test]
fn name_verdicts_in_order() {
    let metadata = vec![named("Shipped", &[]), named("", &[]), named("Default", &[])];
    let local = vec![named("Mine", &[])];
    assert_eq!(validate_name(&"".to_string(), &metadata, &local), Err(NameError::EmptyName));
    assert_eq!(validate_name(&"Default".to_string(), &metadata, &local), Err(NameError::Reserved));
    assert_eq!(validate_name(&"Shipped".to_string(), &metadata, &local), Err(NameError::Duplicate));
    assert_eq!(validate_name(&"Mine".to_string(), &metadata, &local), Err(NameError::Duplicate));
    assert_eq!(validate_name(&"mine".to_string(), &metadata, &local), Ok(()));
}

#[test]
fn importing_over_a_local_preset_replaces_it_where_it_stands() {
    let mut local = vec![named("A", &[]), named("B", &[("style", Value::SingleFiles(0))]), named("C", &[])];
    let incoming = named("B", &[("style", Value::SingleFiles(2))]);
    assert_eq!(import_preset(&mut local, &vec![], incoming), Ok(1));
    assert_eq!(names(&local), vec!["A", "B", "C"]);
    assert_eq!(local[1].settings.get(&"style".to_string()), Some(Value::SingleFiles(2)));
}

#[test]
fn importing_replaces_the_first_of_two_presets_of_one_name() {
    let mut local = vec![named("B", &[]), named("B", &[])];
    let incoming = named("B", &[("style", Value::SingleFiles(2))]);
    assert_eq!(import_preset(&mut local, &vec![], incoming), Ok(0));
    assert_eq!(local[0].settings.len(), 1);
    assert_eq!(local[1].settings.len(), 0);
}

#[test]
fn importing_a_new_name_appends() {
    let mut local = vec![named("A", &[])];
    let incoming = named("B", &[("style", Value::SingleFiles(2))]);
    assert_eq!(import_preset(&mut local, &vec![named("Shipped", &[])], incoming), Ok(1));
    assert_eq!(names(&local), vec!["A", "B"]);
}

#[test]
fn importing_a_refused_name_changes_nothing() {
    let metadata = vec![named("Shipped", &[])];
    let mut local = vec![named("A", &[])];
    for (name, reason) in [
        ("", NameError::EmptyName),
        ("Default", NameError::Reserved),
        ("Custom", NameError::Reserved),
        ("Shipped", NameError::Duplicate),
    ] {
        let incoming = named(name, &[("style", Value::SingleFiles(2))]);
        assert_eq!(import_preset(&mut local, &metadata, incoming), Err(reason));
        assert_eq!(names(&local), vec!["A"]);
        assert!(local[0].settings.is_empty());
    }
}

#[test]
fn deleting_keeps_the_others_in_order() {
    for index in 0..4 {
        let mut local = vec![named("A", &[]), named("B", &[]), named("C", &[]), named("D", &[])];
        assert!(delete(&mut local, index));
        let mut expected = vec!["A", "B", "C", "D"];
        expected.remove(index);
        assert_eq!(names(&local), expected);
    }
}

#[test]
fn deleting_what_is_not_there_changes_nothing() {
    let mut local = vec![named("A", &[])];
    assert!(!delete(&mut local, 1));
    assert_eq!(names(&local), vec!["A"]);
    let mut empty: Vec<Preset> = vec![];
    assert!(!delete(&mut empty, 0));
}

#[test]
fn presets_are_found_by_name() {
    let local = vec![named("A", &[]), named("B", &[]), named("A", &[])];
    assert_eq!(find_preset(&local, &"A".to_string()), Some(0));
    assert_eq!(find_preset(&local, &"B".to_string()), Some(1));
    assert_eq!(find_preset(&local, &"a".to_string()), None);
}

#[test]
fn presets_are_equal_by_name_and_values() {
    let a = named("A", &[("style", Value::SingleFiles(2)), ("tint", Value::Rgb([1, 2, 3]))]);
    let same = named("A", &[("tint", Value::Rgb([1, 2, 3])), ("style", Value::SingleFiles(2))]);
    assert_eq!(a, same);
    assert_eq!(a, a.clone());
    assert_ne!(a, named("B", &[("style", Value::SingleFiles(2)), ("tint", Value::Rgb([1, 2, 3]))]));
    assert_ne!(a, named("A", &[("style", Value::SingleFiles(2))]));
    assert_ne!(a, named("A", &[("style", Value::SingleFiles(2)), ("tint", Value::Rgb([1, 2, 4]))]));
}
