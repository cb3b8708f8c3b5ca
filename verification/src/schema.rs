//! The options a mod declares: their kinds, bounds and defaults.

use crate::names::{first_index, has_name, is_first, lemma_first_index, lemma_first_is_unique, Name};
use crate::value::Value;
use vstd::prelude::*;

verus! {

/// One entry of a choice list.
#[derive(Debug)]
pub struct SubOption {
    pub name: String,
    pub description: String,
}

/// A list of choices and the default among them: a position for a single
/// choice, a bitmask for a multiple choice.
#[derive(Debug)]
pub struct Choices {
    pub default: u32,
    pub options: Vec<SubOption>,
}

/// A three-channel colour with bounds for each channel.
#[derive(Debug)]
pub struct Color3 {
    pub default: [i32; 3],
    pub min: [i32; 3],
    pub max: [i32; 3],
}

/// A four-channel colour with bounds for each channel.
#[derive(Debug)]
pub struct Color4 {
    pub default: [i32; 4],
    pub min: [i32; 4],
    pub max: [i32; 4],
}

/// A single bounded channel.
#[derive(Debug)]
pub struct Scalar {
    pub default: i32,
    pub min: i32,
    pub max: i32,
}

/// A list of paths, each with the name it is shown under, and the position
/// of the default.
#[derive(Debug)]
pub struct Paths {
    pub default: u32,
    pub options: Vec<(String, String)>,
}

/// What kind of option this is, with what the kind needs.
#[derive(Debug)]
pub enum OptionKind {
    SingleFiles(Choices),
    MultiFiles(Choices),
    Rgb(Color3),
    Rgba(Color4),
    Grayscale(Scalar),
    Opacity(Scalar),
    Mask(Scalar),
    Path(Paths),
}

/// A configurable option of a mod.
#[derive(Debug)]
pub struct ModOption {
    pub name: String,
    pub settings: OptionKind,
    pub description: String,
}

impl OptionKind {
    /// The value an option of this kind has until somebody changes it.
    pub open spec fn default_value(self) -> Value {
        match self {
            OptionKind::SingleFiles(o) => Value::SingleFiles(o.default),
            OptionKind::MultiFiles(o) => Value::MultiFiles(o.default),
            OptionKind::Rgb(o) => Value::Rgb(o.default),
            OptionKind::Rgba(o) => Value::Rgba(o.default),
            OptionKind::Grayscale(o) => Value::Grayscale(o.default),
            OptionKind::Opacity(o) => Value::Opacity(o.default),
            OptionKind::Mask(o) => Value::Mask(o.default),
            OptionKind::Path(o) => Value::Path(o.default),
        }
    }

    /// `value` is of the variant that this kind stores.
    pub open spec fn accepts(self, value: Value) -> bool {
        match (self, value) {
            (OptionKind::SingleFiles(_), Value::SingleFiles(_)) => true,
            (OptionKind::MultiFiles(_), Value::MultiFiles(_)) => true,
            (OptionKind::Rgb(_), Value::Rgb(_)) => true,
            (OptionKind::Rgba(_), Value::Rgba(_)) => true,
            (OptionKind::Grayscale(_), Value::Grayscale(_)) => true,
            (OptionKind::Opacity(_), Value::Opacity(_)) => true,
            (OptionKind::Mask(_), Value::Mask(_)) => true,
            (OptionKind::Path(_), Value::Path(_)) => true,
            _ => false,
        }
    }

    /// Whether `value` is of the variant that this kind stores.
    pub fn matches_value(&self, value: &Value) -> (r: bool)
        ensures
            r == self.accepts(*value),
    {
        match (self, value) {
            (OptionKind::SingleFiles(_), Value::SingleFiles(_)) => true,
            (OptionKind::MultiFiles(_), Value::MultiFiles(_)) => true,
            (OptionKind::Rgb(_), Value::Rgb(_)) => true,
            (OptionKind::Rgba(_), Value::Rgba(_)) => true,
            (OptionKind::Grayscale(_), Value::Grayscale(_)) => true,
            (OptionKind::Opacity(_), Value::Opacity(_)) => true,
            (OptionKind::Mask(_), Value::Mask(_)) => true,
            (OptionKind::Path(_), Value::Path(_)) => true,
            _ => false,
        }
    }
}

impl Value {
    /// The default value of `option`.
    pub fn from_default(option: &ModOption) -> (value: Value)
        ensures
            value == option.settings.default_value(),
            option.settings.accepts(value),
    {
        match &option.settings {
            OptionKind::SingleFiles(o) => Value::SingleFiles(o.default),
            OptionKind::MultiFiles(o) => Value::MultiFiles(o.default),
            OptionKind::Rgb(o) => Value::Rgb(o.default),
            OptionKind::Rgba(o) => Value::Rgba(o.default),
            OptionKind::Grayscale(o) => Value::Grayscale(o.default),
            OptionKind::Opacity(o) => Value::Opacity(o.default),
            OptionKind::Mask(o) => Value::Mask(o.default),
            OptionKind::Path(o) => Value::Path(o.default),
        }
    }
}

/// The names of the options of a schema, in the schema's order.
pub open spec fn option_names(schema: Seq<ModOption>) -> Seq<Name> {
    Seq::new(schema.len(), |i: int| schema[i].name@)
}

/// The schema declares an option called `name`.
pub open spec fn declares(schema: Seq<ModOption>, name: Name) -> bool {
    has_name(option_names(schema), name)
}

/// The default of the option called `name`: that of the first option of
/// that name, and nothing where the schema declares no such option.
pub open spec fn default_for(schema: Seq<ModOption>, name: Name) -> Option<Value> {
    match first_index(option_names(schema), name) {
        Some(i) => Some(schema[i].settings.default_value()),
        None => None,
    }
}

/// The position of the first option called `name`.
pub fn find_option(schema: &Vec<ModOption>, name: &String) -> (found: Option<usize>)
    ensures
        found.is_some() == declares(schema@, name@),
        match found {
            Some(i) => first_index(option_names(schema@), name@) == Some(i as int),
            None => first_index(option_names(schema@), name@) is None,
        },
{
    let ghost names = option_names(schema@);
    let mut i: usize = 0;
    while i < schema.len()
        invariant
            i <= schema.len(),
            names == option_names(schema@),
            forall|j: int| 0 <= j < i ==> names[j] != name@,
        decreases schema.len() - i,
    {
        if schema[i].name == *name {
            proof {
                assert(names[i as int] == name@);
                assert(is_first(names, name@, i as int));
                lemma_first_is_unique(names, name@, i as int);
            }
            return Some(i);
        }
        i += 1;
    }
    proof {
        lemma_first_index(names, name@);
    }
    None
}

/// The default of the option called `name`, if the schema declares one.
pub fn default_of(schema: &Vec<ModOption>, name: &String) -> (value: Option<Value>)
    ensures
        value == default_for(schema@, name@),
        value.is_some() == declares(schema@, name@),
{
    match find_option(schema, name) {
        Some(i) => Some(Value::from_default(&schema[i])),
        None => None,
    }
}

} // verus!
