//! Presets, the settings of one mod in one collection, and the list of
//! presets that a collection keeps.

use crate::names::{first_index, has_name, is_first, lemma_first_index, lemma_first_is_unique, Name};
use crate::values::Values;
use vstd::prelude::*;
use vstd::string::StringExecFns;

verus! {

/// A named set of option values. It need not name every option: an option
/// it leaves out stands at its default.
#[derive(Debug)]
pub struct Preset {
    pub name: String,
    pub settings: Values,
}

/// The values of one mod in one collection, and the presets that this
/// collection has added to those the mod came with.
#[derive(Debug)]
pub struct Settings {
    pub settings: Values,
    pub presets: Vec<Preset>,
}

/// Why a name cannot be given to a preset.
#[derive(Clone, Copy, Debug, PartialEq, Eq, Structural)]
pub enum NameError {
    /// The name is empty.
    EmptyName,
    /// The name is one of the two labels kept for settings that no preset
    /// describes.
    Reserved,
    /// Another preset already has the name.
    Duplicate,
}

impl Clone for Preset {
    fn clone(&self) -> (copy: Self)
        ensures
            copy.name@ == self.name@,
            copy.settings@ == self.settings@,
    {
        Preset { name: self.name.clone(), settings: self.settings.clone() }
    }
}

impl PartialEq for Preset {
    /// Two presets are equal when they have the same name and give the same
    /// options the same values.
    fn eq(&self, other: &Self) -> (r: bool) {
        self.name == other.name && self.settings == other.settings
    }
}

impl vstd::std_specs::cmp::PartialEqSpecImpl for Preset {
    open spec fn obeys_eq_spec() -> bool {
        true
    }

    open spec fn eq_spec(&self, other: &Self) -> bool {
        self.name@ == other.name@ && self.settings@ == other.settings@
    }
}

/// The label of settings in which every option stands at its default.
pub open spec fn default_label() -> Name {
    "Default"@
}

/// The label of settings that neither the defaults nor any preset describe.
pub open spec fn custom_label() -> Name {
    "Custom"@
}

/// `name` is one of the two labels that no preset may carry.
pub open spec fn is_reserved(name: Name) -> bool {
    name == default_label() || name == custom_label()
}

/// The names of `presets`, in their order.
pub open spec fn preset_names(presets: Seq<Preset>) -> Seq<Name> {
    Seq::new(presets.len(), |i: int| presets[i].name@)
}

/// Whether `name` may be given to a preset beside those in `metadata` and
/// `local`, and if not, why not. Of several reasons the first in the order
/// empty, reserved, duplicate is given. Names are compared letter for
/// letter.
pub open spec fn name_verdict(name: Name, metadata: Seq<Preset>, local: Seq<Preset>) -> Result<
    (),
    NameError,
> {
    if name.len() == 0 {
        Err(NameError::EmptyName)
    } else if is_reserved(name) {
        Err(NameError::Reserved)
    } else if has_name(preset_names(metadata), name) || has_name(preset_names(local), name) {
        Err(NameError::Duplicate)
    } else {
        Ok(())
    }
}

/// A reserved label is refused as reserved, whatever the presets.
pub proof fn lemma_reserved_is_refused(name: Name, metadata: Seq<Preset>, local: Seq<Preset>)
    ensures
        is_reserved(name) ==> name_verdict(name, metadata, local) == Err::<(), NameError>(
            NameError::Reserved,
        ),
{
    reveal_strlit("Default");
    reveal_strlit("Custom");
}

/// The position of the first preset called `name`.
pub fn find_preset(presets: &Vec<Preset>, name: &String) -> (found: Option<usize>)
    ensures
        found.is_some() == has_name(preset_names(presets@), name@),
        match found {
            Some(i) => first_index(preset_names(presets@), name@) == Some(i as int),
            None => first_index(preset_names(presets@), name@) is None,
        },
{
    let ghost names = preset_names(presets@);
    let mut i: usize = 0;
    while i < presets.len()
        invariant
            i <= presets.len(),
            names == preset_names(presets@),
            forall|j: int| 0 <= j < i ==> names[j] != name@,
        decreases presets.len() - i,
    {
        if presets[i].name == *name {
            proof {
                assert(names[i as int] == name@);
                assert(is_first(names, name@, i as int));
                lemma_first_is_unique(names, name@, i as int);
            }
            return Some(i);
        }
        i += 1;
    }
    proof {
        lemma_first_index(names, name@);
    }
    None
}

/// Decides whether `name` may be given to a preset beside those in
/// `metadata` and `local`.
pub fn validate_name(name: &String, metadata: &Vec<Preset>, local: &Vec<Preset>) -> (verdict:
    Result<(), NameError>)
    ensures
        verdict == name_verdict(name@, metadata@, local@),
{
    if name.as_str().is_empty() {
        return Err(NameError::EmptyName);
    }
    if *name == String::from_str("Default") || *name == String::from_str("Custom") {
        return Err(NameError::Reserved);
    }
    if find_preset(metadata, name).is_some() || find_preset(local, name).is_some() {
        return Err(NameError::Duplicate);
    }
    Ok(())
}

/// Saves the current values of `settings` under `name` as a new preset at
/// the end of its list. The preset holds every value, not only those that
/// differ from the defaults. Where the name is refused nothing changes.
pub fn create(settings: &mut Settings, name: &String, metadata: &Vec<Preset>) -> (outcome: Result<
    (),
    NameError,
>)
    ensures
        outcome == name_verdict(name@, metadata@, old(settings).presets@),
        is_reserved(name@) ==> outcome == Err::<(), NameError>(NameError::Reserved),
        outcome is Err ==> *final(settings) == *old(settings),
        final(settings).settings == old(settings).settings,
        outcome is Ok ==> {
            let before = old(settings).presets@;
            let after = final(settings).presets@;
            &&& after.len() == before.len() + 1
            &&& after.drop_last() == before
            &&& after.last().name@ == name@
            &&& after.last().settings@ == old(settings).settings@
        },
{
    proof {
        lemma_reserved_is_refused(name@, metadata@, settings.presets@);
    }
    match validate_name(name, metadata, &settings.presets) {
        Err(reason) => Err(reason),
        Ok(()) => {
            let preset = Preset { name: name.clone(), settings: settings.settings.clone() };
            settings.presets.push(preset);
            assert(settings.presets@.drop_last() =~= old(settings).presets@);
            Ok(())
        },
    }
}

/// Removes the preset at `index` from a collection's list and says whether
/// there was one. The others keep their order.
pub fn delete(local_presets: &mut Vec<Preset>, index: usize) -> (removed: bool)
    ensures
        removed == (index < old(local_presets)@.len()),
        removed ==> final(local_presets)@ == old(local_presets)@.remove(index as int),
        removed ==> {
            let before = old(local_presets)@;
            let after = final(local_presets)@;
            &&& after.len() == before.len() - 1
            &&& forall|j: int| 0 <= j < index ==> after[j] == before[j]
            &&& forall|j: int| index <= j < after.len() ==> after[j] == before[j + 1]
        },
        !removed ==> *final(local_presets) == *old(local_presets),
{
    if index < local_presets.len() {
        local_presets.remove(index);
        true
    } else {
        false
    }
}

/// Takes a preset that came from elsewhere into a collection's list and
/// returns the position it now has. A preset of the same name in the list is
/// replaced where it stands; otherwise the newcomer goes to the end. The
/// name must be fit for a preset and must not be that of a preset the mod
/// came with; where it is refused nothing changes.
pub fn import_preset(local_presets: &mut Vec<Preset>, metadata: &Vec<Preset>, preset: Preset) -> (outcome:
    Result<usize, NameError>)
    ensures
        has_name(preset_names(old(local_presets)@), preset.name@) ==> final(local_presets)@.len()
            == old(local_presets)@.len(),
        match outcome {
            Ok(position) => {
                &&& position < final(local_presets)@.len()
                &&& final(local_presets)@[position as int] == preset
                &&& name_verdict(preset.name@, metadata@, Seq::empty()) is Ok
                &&& match first_index(preset_names(old(local_presets)@), preset.name@) {
                    Some(i) => position == i && final(local_presets)@ == old(local_presets)@.update(
                        i,
                        preset,
                    ),
                    None => position == old(local_presets)@.len() && final(local_presets)@ == old(
                        local_presets,
                    )@.push(preset),
                }
            },
            Err(reason) => {
                &&& name_verdict(preset.name@, metadata@, Seq::empty()) == Err::<(), NameError>(
                    reason,
                )
                &&& *final(local_presets) == *old(local_presets)
            },
        },
{
    let nothing: Vec<Preset> = Vec::new();
    assert(nothing@ =~= Seq::<Preset>::empty());
    proof {
        lemma_first_index(preset_names(local_presets@), preset.name@);
    }
    match validate_name(&preset.name, metadata, &nothing) {
        Err(reason) => Err(reason),
        Ok(()) => {
            match find_preset(local_presets, &preset.name) {
                Some(i) => {
                    local_presets.set(i, preset);
                    Ok(i)
                },
                None => {
                    let position = local_presets.len();
                    local_presets.push(preset);
                    Ok(position)
                },
            }
        },
    }
}

} // verus!
