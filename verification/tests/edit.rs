use mod_presets::edit::{choice_label, clamp, edit, is_ticked, normalize, toggle, Edit, EditError};
use mod_presets::schema::{Choices, Color3, Color4, ModOption, OptionKind, Paths, Scalar, SubOption};
use mod_presets::value::Value;

fn declared(settings: OptionKind) -> ModOption {
    ModOption { name: "o".to_string(), settings, description: String::new() }
}

fn list(names: &[&str]) -> Choices {
    Choices {
        default: 0,
        options: names
            .iter()
            .map(|n| SubOption { name: n.to_string(), description: String::new() })
            .collect(),
    }
}

fn paths() -> Paths {
    Paths {
        default: 0,
        options: vec![
            ("Red".to_string(), "files/red".to_string()),
            ("Blue".to_string(), "files/blue".to_string()),
        ],
    }
}

fn rgb() -> OptionKind {
    OptionKind::Rgb(Color3 { default: [0, 0, 0], min: [0, 10, -5], max: [100, 20, 5] })
}

fn rgba() -> OptionKind {
    OptionKind::Rgba(Color4 { default: [0; 4], min: [0, 0, 0, 50], max: [255, 255, 255, 60] })
}

#[test]
fn clamp_moves_a_channel_to_the_nearer_bound() {
    assert_eq!(clamp(5, 0, 10), 5);
    assert_eq!(clamp(-1, 0, 10), 0);
    assert_eq!(clamp(11, 0, 10), 10);
    assert_eq!(clamp(0, 0, 10), 0);
    assert_eq!(clamp(10, 0, 10), 10);
    assert_eq!(clamp(i32::MIN, -3, -3), -3);
    assert_eq!(clamp(i32::MAX, i32::MIN, i32::MAX), i32::MAX);
}

#[test]
fn clamp_with_bounds_the_wrong_way_round() {
    assert_eq!(clamp(5, 10, 0), 10);
    assert_eq!(clamp(20, 10, 0), 0);
}

#[test]
fn toggle_flips_one_bit() {
    assert_eq!(toggle(0, 0), 1);
    assert_eq!(toggle(0b101, 1), 0b111);
    assert_eq!(toggle(0b111, 1), 0b101);
    assert_eq!(toggle(0, 31), 0x8000_0000);
    assert_eq!(toggle(u32::MAX, 31), 0x7fff_ffff);
    for position in 0..32 {
        assert_eq!(toggle(toggle(0xdead_beef, position), position), 0xdead_beef);
    }
}

#[test]
fn ticked_bits() {
    assert!(is_ticked(0b101, 0));
    assert!(!is_ticked(0b101, 1));
    assert!(is_ticked(0b101, 2));
    assert!(!is_ticked(0b101, 31));
    assert!(is_ticked(0x8000_0000, 31));
}

#[test]
fn selecting_stores_the_position_as_it_comes() {
    let single = declared(OptionKind::SingleFiles(list(&["a", "b"])));
    assert_eq!(edit(&single, Value::SingleFiles(0), Edit::Select(1)), Ok(Value::SingleFiles(1)));
    assert_eq!(edit(&single, Value::SingleFiles(0), Edit::Select(9)), Ok(Value::SingleFiles(9)));
    let path = declared(OptionKind::Path(paths()));
    assert_eq!(edit(&path, Value::Path(1), Edit::Select(0)), Ok(Value::Path(0)));
    assert_eq!(edit(&path, Value::Path(1), Edit::Select(7)), Ok(Value::Path(7)));
}

#[test]
fn toggling_a_choice_flips_its_bit() {
    let multi = declared(OptionKind::MultiFiles(list(&["a", "b", "c"])));
    assert_eq!(edit(&multi, Value::MultiFiles(0b001), Edit::Toggle(2)), Ok(Value::MultiFiles(0b101)));
    assert_eq!(edit(&multi, Value::MultiFiles(0b101), Edit::Toggle(0)), Ok(Value::MultiFiles(0b100)));
    assert_eq!(edit(&multi, Value::MultiFiles(0), Edit::Toggle(20)), Ok(Value::MultiFiles(1 << 20)));
    assert_eq!(edit(&multi, Value::MultiFiles(0), Edit::Toggle(32)), Err(EditError::OutOfRange));
}

#[test]
fn colours_are_clamped_channel_by_channel() {
    assert_eq!(
        edit(&declared(rgb()), Value::Rgb([0, 0, 0]), Edit::Rgb([150, 15, -9])),
        Ok(Value::Rgb([100, 15, -5]))
    );
    assert_eq!(
        edit(&declared(rgb()), Value::Rgb([0, 0, 0]), Edit::Rgb([-1, 9, 6])),
        Ok(Value::Rgb([0, 10, 5]))
    );
    assert_eq!(
        edit(&declared(rgba()), Value::Rgba([0; 4]), Edit::Rgba([1, 300, -2, 0])),
        Ok(Value::Rgba([1, 255, 0, 50]))
    );
    assert_eq!(normalize(&rgb(), Value::Rgb([101, 21, 0])), Value::Rgb([100, 20, 0]));
    assert_eq!(normalize(&rgba(), Value::Rgba([5, 5, 5, 99])), Value::Rgba([5, 5, 5, 60]));
    assert_eq!(normalize(&rgb(), Value::Rgba([500; 4])), Value::Rgba([500; 4]));
    assert_eq!(normalize(&rgb(), Value::Mask(500)), Value::Mask(500));
}

#[test]
fn a_value_of_another_kind_is_not_edited() {
    let single = declared(OptionKind::SingleFiles(list(&["a"])));
    assert_eq!(edit(&single, Value::Path(0), Edit::Select(0)), Err(EditError::TypeMismatch));
    assert_eq!(edit(&declared(rgb()), Value::Rgba([0; 4]), Edit::Rgb([0; 3])), Err(EditError::TypeMismatch));
    let scalar = declared(OptionKind::Mask(Scalar { default: 0, min: 0, max: 1 }));
    assert_eq!(edit(&scalar, Value::Opacity(0), Edit::Select(0)), Err(EditError::TypeMismatch));
}

#[test]
fn an_edit_of_another_kind_is_not_made() {
    let single = declared(OptionKind::SingleFiles(list(&["a"])));
    assert_eq!(edit(&single, Value::SingleFiles(0), Edit::Toggle(0)), Err(EditError::TypeMismatch));
    assert_eq!(edit(&declared(rgb()), Value::Rgb([0; 3]), Edit::Rgba([0; 4])), Err(EditError::TypeMismatch));
    let multi = declared(OptionKind::MultiFiles(list(&["a"])));
    assert_eq!(edit(&multi, Value::MultiFiles(0), Edit::Select(0)), Err(EditError::TypeMismatch));
}

#[test]
fn scalars_cannot_be_edited_yet() {
    let scalar = Scalar { default: 0, min: 0, max: 1 };
    let gray = declared(OptionKind::Grayscale(Scalar { default: 0, min: 0, max: 1 }));
    assert_eq!(edit(&gray, Value::Grayscale(0), Edit::Select(0)), Err(EditError::Unsupported));
    let opacity = declared(OptionKind::Opacity(Scalar { default: 0, min: 0, max: 1 }));
    assert_eq!(edit(&opacity, Value::Opacity(0), Edit::Rgb([0; 3])), Err(EditError::Unsupported));
    let mask = declared(OptionKind::Mask(scalar));
    assert_eq!(edit(&mask, Value::Mask(0), Edit::Toggle(40)), Err(EditError::Unsupported));
}

#[test]
fn labels_of_selections() {
    let single = OptionKind::SingleFiles(list(&["plain", "fancy"]));
    assert_eq!(choice_label(&single, &Value::SingleFiles(1)), Some("fancy".to_string()));
    assert_eq!(choice_label(&single, &Value::SingleFiles(2)), Some("Invalid".to_string()));
    assert_eq!(choice_label(&single, &Value::Path(1)), None);
    let path = OptionKind::Path(paths());
    assert_eq!(choice_label(&path, &Value::Path(0)), Some("Red".to_string()));
    assert_eq!(choice_label(&path, &Value::Path(u32::MAX)), Some("Invalid".to_string()));
    assert_eq!(choice_label(&rgb(), &Value::Rgb([0; 3])), None);
    let multi = OptionKind::MultiFiles(list(&["a"]));
    assert_eq!(choice_label(&multi, &Value::MultiFiles(0)), None);
}
