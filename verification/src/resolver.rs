//! Which preset the current values of a mod amount to, and how a preset is
//! put into effect.

use crate::names::{is_first, lemma_first_is_unique, Name};
use crate::preset::{custom_label, default_label, Preset};
use crate::schema::{declares, default_for, default_of, option_names, ModOption};
use crate::value::Value;
use crate::values::Values;
use vstd::prelude::*;
use vstd::string::StringExecFns;

verus! {

/// The value that `preset` gives the option called `name`: the one it names,
/// or else the option's default. Nothing where the preset is silent and the
/// schema declares no such option.
pub open spec fn effective(preset: Map<Name, Value>, schema: Seq<ModOption>, name: Name) -> Option<
    Value,
> {
    if preset.contains_key(name) {
        Some(preset[name])
    } else {
        default_for(schema, name)
    }
}

/// Every stored value is the one that `preset` gives its option.
pub open spec fn agrees(
    settings: Map<Name, Value>,
    schema: Seq<ModOption>,
    preset: Map<Name, Value>,
) -> bool {
    forall|name: Name| #[trigger]
        settings.contains_key(name) ==> Some(settings[name]) == effective(preset, schema, name)
}

/// Every stored value is the default of its option.
pub open spec fn all_default(settings: Map<Name, Value>, schema: Seq<ModOption>) -> bool {
    agrees(settings, schema, Map::empty())
}

/// The position of the last of `presets` that matches the stored values.
pub open spec fn last_match(
    settings: Map<Name, Value>,
    schema: Seq<ModOption>,
    presets: Seq<Preset>,
) -> Option<int>
    decreases presets.len(),
{
    if presets.len() == 0 {
        None
    } else if agrees(settings, schema, presets.last().settings@) {
        Some(presets.len() - 1)
    } else {
        last_match(settings, schema, presets.drop_last())
    }
}

/// The label of the stored values: the name of the last matching preset of
/// the collection; failing that, of the last matching preset that the mod
/// came with; failing that, "Default" where every value is its option's
/// default, and "Custom" otherwise.
pub open spec fn resolved(
    settings: Map<Name, Value>,
    schema: Seq<ModOption>,
    metadata_presets: Seq<Preset>,
    local_presets: Seq<Preset>,
) -> Name {
    match last_match(settings, schema, local_presets) {
        Some(i) => local_presets[i].name@,
        None => match last_match(settings, schema, metadata_presets) {
            Some(i) => metadata_presets[i].name@,
            None => if all_default(settings, schema) {
                default_label()
            } else {
                custom_label()
            },
        },
    }
}

/// The values that putting `preset` into effect leaves: one for each option
/// that the schema declares, and no others.
pub open spec fn applied(preset: Map<Name, Value>, schema: Seq<ModOption>) -> Map<Name, Value> {
    Map::new(
        |name: Name| declares(schema, name),
        |name: Name| effective(preset, schema, name).unwrap(),
    )
}

/// Whether every value in `settings` is the one that `preset` gives its
/// option.
pub fn agrees_with(settings: &Values, schema: &Vec<ModOption>, preset: &Values) -> (r: bool)
    ensures
        r == agrees(settings@, schema@, preset@),
{
    let n = settings.len();
    let mut i: usize = 0;
    while i < n
        invariant
            settings.wf(),
            n == settings.names().len(),
            i <= n,
            forall|j: int|
                0 <= j < i ==> Some(settings.values()[j]) == effective(
                    preset@,
                    schema@,
                    #[trigger] settings.names()[j],
                ),
        decreases n - i,
    {
        let name = settings.name_at(i);
        let value = settings.value_at(i);
        let wanted = match preset.get(name) {
            Some(v) => Some(v),
            None => default_of(schema, name),
        };
        let agrees = match wanted {
            Some(v) => v == value,
            None => false,
        };
        if !agrees {
            proof {
                settings.lemma_rows();
                assert(settings@.contains_key(name@));
            }
            return false;
        }
        i += 1;
    }
    proof {
        settings.lemma_rows();
        assert forall|name: Name| #[trigger] settings@.contains_key(name) implies Some(
            settings@[name],
        ) == effective(preset@, schema@, name) by {
            let j = choose|j: int|
                0 <= j < settings.names().len() && settings.names()[j] == name
                    && settings.values()[j] == settings@[name];
            assert(settings.names()[j] == name);
        }
    }
    true
}

/// The position of the last of `presets` that matches `settings`.
pub fn find_last_match(settings: &Values, schema: &Vec<ModOption>, presets: &Vec<Preset>) -> (found:
    Option<usize>)
    ensures
        match found {
            Some(i) => last_match(settings@, schema@, presets@) == Some(i as int) && i
                < presets@.len(),
            None => last_match(settings@, schema@, presets@) is None,
        },
{
    let mut found: Option<usize> = None;
    let mut i: usize = 0;
    assert(presets@.take(0) =~= Seq::<Preset>::empty());
    while i < presets.len()
        invariant
            i <= presets.len(),
            match found {
                Some(k) => last_match(settings@, schema@, presets@.take(i as int)) == Some(
                    k as int,
                ) && k < i,
                None => last_match(settings@, schema@, presets@.take(i as int)) is None,
            },
        decreases presets.len() - i,
    {
        let hit = agrees_with(settings, schema, &presets[i].settings);
        proof {
            let next = presets@.take(i + 1);
            assert(next.last() == presets@[i as int]);
            assert(next.drop_last() =~= presets@.take(i as int));
        }
        if hit {
            found = Some(i);
        }
        i += 1;
    }
    assert(presets@.take(i as int) =~= presets@);
    found
}

/// The label under which the current values are shown.
pub fn resolve(
    settings: &Values,
    schema: &Vec<ModOption>,
    metadata_presets: &Vec<Preset>,
    local_presets: &Vec<Preset>,
) -> (label: String)
    ensures
        label@ == resolved(settings@, schema@, metadata_presets@, local_presets@),
{
    match find_last_match(settings, schema, local_presets) {
        Some(i) => local_presets[i].name.clone(),
        None => match find_last_match(settings, schema, metadata_presets) {
            Some(i) => metadata_presets[i].name.clone(),
            None => {
                let nothing = Values::new();
                if agrees_with(settings, schema, &nothing) {
                    String::from_str("Default")
                } else {
                    String::from_str("Custom")
                }
            },
        },
    }
}

/// The values that `source` gives the options of `schema`, defaults filling
/// in where it is silent.
fn overlay(source: &Values, schema: &Vec<ModOption>) -> (table: Values)
    ensures
        table@ == applied(source@, schema@),
{
    let ghost names = option_names(schema@);
    let mut table = Values::new();
    let mut i: usize = 0;
    while i < schema.len()
        invariant
            i <= schema.len(),
            names == option_names(schema@),
            forall|name: Name|
                table@.contains_key(name) <==> exists|j: int| 0 <= j < i && names[j] == name,
            forall|name: Name| #[trigger]
                table@.contains_key(name) ==> Some(table@[name]) == effective(
                    source@,
                    schema@,
                    name,
                ),
        decreases schema.len() - i,
    {
        let option = &schema[i];
        let ghost before = table@;
        if !table.contains(&option.name) {
            proof {
                assert(names[i as int] == option.name@);
                assert forall|j: int| 0 <= j < i implies names[j] != option.name@ by {
                    if names[j] == option.name@ {
                        assert(before.contains_key(names[j]));
                    }
                }
                assert(is_first(names, option.name@, i as int));
                lemma_first_is_unique(names, option.name@, i as int);
            }
            let value = match source.get(&option.name) {
                Some(v) => v,
                None => Value::from_default(option),
            };
            table.set(option.name.clone(), value);
        }
        proof {
            assert(names[i as int] == option.name@);
            assert forall|name: Name| table@.contains_key(name) <==> exists|j: int|
                0 <= j < i + 1 && names[j] == name by {
                if table@.contains_key(name) {
                    if before.contains_key(name) {
                        let j = choose|j: int| 0 <= j < i && names[j] == name;
                        assert(0 <= j < i + 1 && names[j] == name);
                    } else {
                        assert(names[i as int] == name);
                    }
                }
                if exists|j: int| 0 <= j < i + 1 && names[j] == name {
                    let j = choose|j: int| 0 <= j < i + 1 && names[j] == name;
                    if j < i {
                        assert(before.contains_key(name));
                    }
                }
            }
        }
        i += 1;
    }
    proof {
        assert forall|name: Name| table@.contains_key(name) <==> declares(schema@, name) by {
            if table@.contains_key(name) {
                let j = choose|j: int| 0 <= j < i && names[j] == name;
                assert(0 <= j < names.len() && names[j] == name);
            }
            if declares(schema@, name) {
                let j = choose|j: int| 0 <= j < names.len() && names[j] == name;
                assert(0 <= j < i && names[j] == name);
            }
        }
        assert(table@ =~= applied(source@, schema@));
    }
    table
}

/// Puts `preset` into effect, or the defaults where there is none: every
/// option of the schema gets the value that the preset names for it, or else
/// its default. Nothing of the earlier values is kept.
pub fn apply(preset: Option<&Preset>, schema: &Vec<ModOption>, settings: &mut Values)
    ensures
        final(settings)@ == applied(
            match preset {
                Some(p) => p.settings@,
                None => Map::empty(),
            },
            schema@,
        ),
        forall|name: Name| final(settings)@.contains_key(name) <==> declares(schema@, name),
{
    *settings = match preset {
        Some(p) => overlay(&p.settings, schema),
        None => {
            let nothing = Values::new();
            overlay(&nothing, schema)
        },
    };
}

/// Fits stored values to a schema that may have changed since they were
/// stored: an option that has gained no value yet gets its default, and a
/// value whose option is gone is dropped. The other values stay.
pub fn reconcile(settings: &mut Values, schema: &Vec<ModOption>)
    ensures
        final(settings)@ == applied(old(settings)@, schema@),
        forall|name: Name| final(settings)@.contains_key(name) <==> declares(schema@, name),
        forall|name: Name|
            declares(schema@, name) ==> final(settings)@[name] == if old(settings)@.contains_key(
                name,
            ) {
                old(settings)@[name]
            } else {
                default_for(schema@, name).unwrap()
            },
{
    *settings = overlay(settings, schema);
}

} // verus!
