//! Changing the value of one option.

use crate::schema::{ModOption, OptionKind};
use crate::value::Value;
use vstd::prelude::*;
use vstd::string::StringExecFns;

verus! {

/// What a user does to one option.
#[derive(Clone, Copy, Debug)]
pub enum Edit {
    /// Picks the choice, or the path, at this position.
    Select(u32),
    /// Ticks or unticks the choice at this position.
    Toggle(u32),
    /// Sets the three channels of a colour.
    Rgb([i32; 3]),
    /// Sets the four channels of a colour.
    Rgba([i32; 4]),
}

/// Why an edit was not made.
#[derive(Clone, Copy, Debug, PartialEq, Eq, Structural)]
pub enum EditError {
    /// The stored value, or the edit, is not of the option's kind.
    TypeMismatch,
    /// Options of this kind cannot be edited yet.
    Unsupported,
    /// A multiple choice has no box at this position: a value has thirty-two.
    OutOfRange,
}

/// `channel`, moved to the nearer bound where it lies outside `min ..= max`.
pub open spec fn clamped(channel: i32, min: i32, max: i32) -> i32 {
    if channel < min {
        min
    } else if channel > max {
        max
    } else {
        channel
    }
}

/// The mask with the bit at `position` flipped.
pub open spec fn toggled(mask: u32, position: u32) -> u32
    recommends
        position < 32,
{
    mask ^ (1u32 << position)
}

/// Whether the bit at `position` is set.
pub open spec fn ticked(mask: u32, position: u32) -> bool
    recommends
        position < 32,
{
    mask & (1u32 << position) != 0
}

/// A value as it is stored: the channels of a colour moved into the bounds
/// of their option, everything else as it is. A value that is not of the
/// option's kind is left alone.
pub open spec fn normalized(kind: OptionKind, value: Value) -> Value {
    match (kind, value) {
        (OptionKind::Rgb(o), Value::Rgb(c)) => Value::Rgb(
            [
                clamped(c[0], o.min[0], o.max[0]),
                clamped(c[1], o.min[1], o.max[1]),
                clamped(c[2], o.min[2], o.max[2]),
            ],
        ),
        (OptionKind::Rgba(o), Value::Rgba(c)) => Value::Rgba(
            [
                clamped(c[0], o.min[0], o.max[0]),
                clamped(c[1], o.min[1], o.max[1]),
                clamped(c[2], o.min[2], o.max[2]),
                clamped(c[3], o.min[3], o.max[3]),
            ],
        ),
        _ => value,
    }
}

/// What `change` makes of `value`, or why it makes nothing of it.
///
/// A selected position is stored as it comes, also where the list is
/// shorter. A toggle flips its bit, also where the list has fewer choices. A
/// colour is stored with each channel moved into its bounds.
pub open spec fn edited(kind: OptionKind, value: Value, change: Edit) -> Result<Value, EditError> {
    if !kind.accepts(value) {
        Err(EditError::TypeMismatch)
    } else {
        match (kind, change) {
            (OptionKind::SingleFiles(_), Edit::Select(i)) => Ok(Value::SingleFiles(i)),
            (OptionKind::Path(_), Edit::Select(i)) => Ok(Value::Path(i)),
            (OptionKind::MultiFiles(_), Edit::Toggle(i)) => if i < 32 {
                Ok(Value::MultiFiles(toggled(value->MultiFiles_0, i)))
            } else {
                Err(EditError::OutOfRange)
            },
            (OptionKind::Rgb(_), Edit::Rgb(c)) => Ok(normalized(kind, Value::Rgb(c))),
            (OptionKind::Rgba(_), Edit::Rgba(c)) => Ok(normalized(kind, Value::Rgba(c))),
            (OptionKind::Grayscale(_), _) => Err(EditError::Unsupported),
            (OptionKind::Opacity(_), _) => Err(EditError::Unsupported),
            (OptionKind::Mask(_), _) => Err(EditError::Unsupported),
            _ => Err(EditError::TypeMismatch),
        }
    }
}

/// The name under which the selected choice or path is shown: "Invalid"
/// where the list has nothing at the selected position. Nothing for other
/// kinds, and nothing where the value is not of the option's kind.
pub open spec fn selection_label(kind: OptionKind, value: Value) -> Option<Seq<char>> {
    match (kind, value) {
        (OptionKind::SingleFiles(o), Value::SingleFiles(i)) => Some(
            if i < o.options@.len() {
                o.options@[i as int].name@
            } else {
                "Invalid"@
            },
        ),
        (OptionKind::Path(o), Value::Path(i)) => Some(
            if i < o.options@.len() {
                o.options@[i as int].0@
            } else {
                "Invalid"@
            },
        ),
        _ => None,
    }
}

/// Moves `channel` into `min ..= max`. Where the bounds are the wrong way
/// round the lower bound is looked at first.
pub fn clamp(channel: i32, min: i32, max: i32) -> (r: i32)
    ensures
        r == clamped(channel, min, max),
        min <= max ==> min <= r <= max,
        min <= channel <= max ==> r == channel,
{
    if channel < min {
        min
    } else if channel > max {
        max
    } else {
        channel
    }
}

/// Flips the bit at `position`.
pub fn toggle(mask: u32, position: u32) -> (r: u32)
    requires
        position < 32,
    ensures
        r == toggled(mask, position),
        ticked(r, position) != ticked(mask, position),
        forall|other: u32| other < 32 && other != position ==> ticked(r, other) == ticked(mask, other),
        toggled(r, position) == mask,
{
    let bit: u32 = 1u32 << position;
    let r = mask ^ bit;
    proof {
        lemma_toggle(mask, position);
    }
    r
}

/// Whether the bit at `position` is set.
pub fn is_ticked(mask: u32, position: u32) -> (r: bool)
    requires
        position < 32,
    ensures
        r == ticked(mask, position),
{
    mask & (1u32 << position) != 0
}

/// A toggle changes the bit at its position and no other, and a second
/// toggle at the same position undoes the first.
pub proof fn lemma_toggle(mask: u32, position: u32)
    requires
        position < 32,
    ensures
        ticked(toggled(mask, position), position) != ticked(mask, position),
        forall|other: u32|
            other < 32 && other != position ==> ticked(toggled(mask, position), other) == ticked(
                mask,
                other,
            ),
        toggled(toggled(mask, position), position) == mask,
{
    assert((mask ^ (1u32 << position)) & (1u32 << position) != 0 <==> !(mask & (1u32 << position)
        != 0)) by (bit_vector)
        requires
            position < 32,
    ;
    assert forall|other: u32| other < 32 && other != position implies ticked(
        toggled(mask, position),
        other,
    ) == ticked(mask, other) by {
        assert(((mask ^ (1u32 << position)) & (1u32 << other) != 0) == (mask & (1u32 << other)
            != 0)) by (bit_vector)
            requires
                position < 32,
                other < 32,
                other != position,
        ;
    }
    assert((mask ^ (1u32 << position)) ^ (1u32 << position) == mask) by (bit_vector);
}

/// Moves the channels of a colour into the bounds of its option.
pub fn normalize(kind: &OptionKind, value: Value) -> (r: Value)
    ensures
        r == normalized(*kind, value),
        kind.accepts(value) == kind.accepts(r),
{
    match (kind, value) {
        (OptionKind::Rgb(o), Value::Rgb(c)) => {
            let r = [
                clamp(c[0], o.min[0], o.max[0]),
                clamp(c[1], o.min[1], o.max[1]),
                clamp(c[2], o.min[2], o.max[2]),
            ];
            assert(r =~= [
                clamped(c[0], o.min[0], o.max[0]),
                clamped(c[1], o.min[1], o.max[1]),
                clamped(c[2], o.min[2], o.max[2]),
            ]);
            Value::Rgb(r)
        },
        (OptionKind::Rgba(o), Value::Rgba(c)) => {
            let r = [
                clamp(c[0], o.min[0], o.max[0]),
                clamp(c[1], o.min[1], o.max[1]),
                clamp(c[2], o.min[2], o.max[2]),
                clamp(c[3], o.min[3], o.max[3]),
            ];
            assert(r =~= [
                clamped(c[0], o.min[0], o.max[0]),
                clamped(c[1], o.min[1], o.max[1]),
                clamped(c[2], o.min[2], o.max[2]),
                clamped(c[3], o.min[3], o.max[3]),
            ]);
            Value::Rgba(r)
        },
        _ => value,
    }
}

/// Makes `change` to `value`, the current value of `option`.
pub fn edit(option: &ModOption, value: Value, change: Edit) -> (outcome: Result<Value, EditError>)
    ensures
        outcome == edited(option.settings, value, change),
        outcome matches Ok(v) ==> option.settings.accepts(v),
{
    if !option.settings.matches_value(&value) {
        return Err(EditError::TypeMismatch);
    }
    match (&option.settings, change) {
        (OptionKind::SingleFiles(_), Edit::Select(i)) => Ok(Value::SingleFiles(i)),
        (OptionKind::Path(_), Edit::Select(i)) => Ok(Value::Path(i)),
        (OptionKind::MultiFiles(_), Edit::Toggle(i)) => {
            if i < 32 {
                match value {
                    Value::MultiFiles(mask) => Ok(Value::MultiFiles(toggle(mask, i))),
                    _ => Err(EditError::TypeMismatch),
                }
            } else {
                Err(EditError::OutOfRange)
            }
        },
        (OptionKind::Rgb(_), Edit::Rgb(c)) => Ok(normalize(&option.settings, Value::Rgb(c))),
        (OptionKind::Rgba(_), Edit::Rgba(c)) => Ok(normalize(&option.settings, Value::Rgba(c))),
        (OptionKind::Grayscale(_), _) => Err(EditError::Unsupported),
        (OptionKind::Opacity(_), _) => Err(EditError::Unsupported),
        (OptionKind::Mask(_), _) => Err(EditError::Unsupported),
        _ => Err(EditError::TypeMismatch),
    }
}

/// The name under which the selected choice or path of an option is shown.
pub fn choice_label(kind: &OptionKind, value: &Value) -> (label: Option<String>)
    ensures
        match label {
            Some(text) => selection_label(*kind, *value) == Some(text@),
            None => selection_label(*kind, *value) is None,
        },
{
    match (kind, value) {
        (OptionKind::SingleFiles(o), Value::SingleFiles(i)) => {
            let at = *i as usize;
            if at < o.options.len() {
                Some(o.options[at].name.clone())
            } else {
                Some(String::from_str("Invalid"))
            }
        },
        (OptionKind::Path(o), Value::Path(i)) => {
            let at = *i as usize;
            if at < o.options.len() {
                Some(o.options[at].0.clone())
            } else {
                Some(String::from_str("Invalid"))
            }
        },
        _ => None,
    }
}

} // verus!
