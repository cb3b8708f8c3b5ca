use mod_presets::value::{channel_from_bits, channel_to_bits, Value};
use mod_presets::values::Values;

fn key(name: &str) -> String {
    name.to_string()
}

#[test]
fn a_new_table_is_empty() {
    let values = Values::new();
    assert!(values.is_empty());
    assert_eq!(values.len(), 0);
    assert_eq!(values.get(&key("a")), None);
    assert!(!values.contains(&key("a")));
}

#[test]
fn set_stores_and_replaces() {
    let mut values = Values::new();
    assert_eq!(values.set(key("a"), Value::SingleFiles(1)), None);
    assert_eq!(values.set(key("b"), Value::Mask(2)), None);
    assert_eq!(values.len(), 2);
    assert_eq!(values.set(key("a"), Value::SingleFiles(3)), Some(Value::SingleFiles(1)));
    assert_eq!(values.len(), 2);
    assert_eq!(values.get(&key("a")), Some(Value::SingleFiles(3)));
    assert_eq!(values.get(&key("b")), Some(Value::Mask(2)));
    assert!(values.contains(&key("b")));
    assert!(!values.contains(&key("B")));
    assert!(!values.is_empty());
}

#[test]
fn rows_can_be_walked() {
    let mut values = Values::new();
    values.set(key("a"), Value::SingleFiles(1));
    values.set(key("b"), Value::Mask(2));
    values.set(key("a"), Value::SingleFiles(3));
    let mut seen = vec![];
    for position in 0..values.len() {
        seen.push((values.name_at(position).clone(), values.value_at(position)));
    }
    seen.sort_by(|x, y| x.0.cmp(&y.0));
    assert_eq!(seen, vec![(key("a"), Value::SingleFiles(3)), (key("b"), Value::Mask(2))]);
}

#[test]
fn tables_are_equal_whatever_the_order_of_their_rows() {
    let mut one = Values::new();
    one.set(key("a"), Value::SingleFiles(1));
    one.set(key("b"), Value::Mask(2));
    let mut other = Values::new();
    other.set(key("b"), Value::Mask(2));
    assert_ne!(one, other);
    assert_ne!(other, one);
    other.set(key("a"), Value::SingleFiles(1));
    assert_eq!(one, other);
    assert_eq!(one.clone(), one);
    other.set(key("a"), Value::SingleFiles(2));
    assert_ne!(one, other);
}

#[test]
fn values_are_equal_by_variant_and_data() {
    assert_eq!(Value::SingleFiles(1), Value::SingleFiles(1));
    assert_ne!(Value::SingleFiles(1), Value::SingleFiles(2));
    assert_ne!(Value::SingleFiles(1), Value::Path(1));
    assert_ne!(Value::SingleFiles(1), Value::MultiFiles(1));
    assert_ne!(Value::Grayscale(1), Value::Opacity(1));
    assert_ne!(Value::Opacity(1), Value::Mask(1));
    assert_eq!(Value::Rgb([1, 2, 3]), Value::Rgb([1, 2, 3]));
    assert_ne!(Value::Rgb([1, 2, 3]), Value::Rgb([1, 2, 4]));
    assert_ne!(Value::Rgb([1, 2, 3]), Value::Rgb([0, 2, 3]));
    assert_eq!(Value::Rgba([1, 2, 3, 4]), Value::Rgba([1, 2, 3, 4]));
    assert_ne!(Value::Rgba([1, 2, 3, 4]), Value::Rgba([1, 2, 3, 5]));
}

#[test]
fn channels_of_known_bit_patterns() {
    assert_eq!(channel_from_bits(0), 0);
    assert_eq!(channel_from_bits(1), 1);
    assert_eq!(channel_from_bits(0x7fff_ffff), i32::MAX);
    assert_eq!(channel_from_bits(0x8000_0000), -1);
    assert_eq!(channel_from_bits(0x8000_0001), -2);
    assert_eq!(channel_from_bits(0xffff_ffff), i32::MIN);
    assert_eq!(channel_from_bits(1.0f32.to_bits()), 0x3f80_0000);
    assert_eq!(channel_to_bits(-1), 0x8000_0000);
    assert_eq!(channel_to_bits(i32::MIN), 0xffff_ffff);
    assert_eq!(channel_to_bits(i32::MAX), 0x7fff_ffff);
}

#[test]
fn channels_go_back_to_their_bit_patterns() {
    for x in [0.0f32, -0.0, 1.0, -1.0, 0.5, 255.0, f32::MIN, f32::MAX, f32::INFINITY, f32::NAN] {
        assert_eq!(channel_to_bits(channel_from_bits(x.to_bits())), x.to_bits());
    }
    for c in [0, 1, -1, 7, -7, i32::MIN, i32::MAX] {
        assert_eq!(channel_from_bits(channel_to_bits(c)), c);
    }
}

#[test]
fn channels_are_ordered_as_the_numbers_they_stand_for() {
    let numbers = [f32::NEG_INFINITY, -255.0, -1.0, -0.5, -1e-9, 0.0, 1e-9, 0.25, 0.5, 1.0, 255.0, f32::INFINITY];
    for pair in numbers.windows(2) {
        assert!(channel_from_bits(pair[0].to_bits()) < channel_from_bits(pair[1].to_bits()));
    }
    assert!(channel_from_bits((-0.0f32).to_bits()) < channel_from_bits(0.0f32.to_bits()));
}
