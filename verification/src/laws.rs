//! What holds of labels, whatever the schema, the values and the presets.

use crate::names::{lemma_first_index, Name};
use crate::preset::{custom_label, default_label, Preset};
use crate::resolver::{agrees, all_default, applied, effective, last_match, resolved};
use crate::schema::{declares, default_for, option_names, ModOption};
use crate::value::Value;
use vstd::prelude::*;

verus! {

/// None of `presets` matches the stored values.
pub open spec fn none_matches(
    settings: Map<Name, Value>,
    schema: Seq<ModOption>,
    presets: Seq<Preset>,
) -> bool {
    forall|i: int|
        0 <= i < presets.len() ==> !agrees(settings, schema, (#[trigger] presets[i]).settings@)
}

/// The preset at position `i` matches the stored values and none after it
/// does.
pub open spec fn is_last_match(
    settings: Map<Name, Value>,
    schema: Seq<ModOption>,
    presets: Seq<Preset>,
    i: int,
) -> bool {
    &&& 0 <= i < presets.len()
    &&& agrees(settings, schema, presets[i].settings@)
    &&& forall|j: int|
        i < j < presets.len() ==> !agrees(settings, schema, (#[trigger] presets[j]).settings@)
}

/// `last_match` finds the matching preset that no matching preset follows,
/// and finds nothing only where no preset matches.
pub proof fn lemma_last_match(
    settings: Map<Name, Value>,
    schema: Seq<ModOption>,
    presets: Seq<Preset>,
)
    ensures
        match last_match(settings, schema, presets) {
            Some(i) => is_last_match(settings, schema, presets, i),
            None => none_matches(settings, schema, presets),
        },
    decreases presets.len(),
{
    if presets.len() > 0 && !agrees(settings, schema, presets.last().settings@) {
        let shorter = presets.drop_last();
        lemma_last_match(settings, schema, shorter);
        assert forall|j: int| 0 <= j < shorter.len() implies shorter[j] == presets[j] by {}
        match last_match(settings, schema, shorter) {
            Some(i) => {
                assert(shorter[i] == presets[i]);
                assert forall|j: int| i < j < presets.len() implies !agrees(
                    settings,
                    schema,
                    (#[trigger] presets[j]).settings@,
                ) by {
                    if j < shorter.len() {
                        assert(shorter[j] == presets[j]);
                    }
                }
            },
            None => {
                assert forall|j: int| 0 <= j < presets.len() implies !agrees(
                    settings,
                    schema,
                    (#[trigger] presets[j]).settings@,
                ) by {
                    if j < shorter.len() {
                        assert(shorter[j] == presets[j]);
                    }
                }
            },
        }
    }
}

/// There is only one last match.
pub proof fn lemma_last_match_is(
    settings: Map<Name, Value>,
    schema: Seq<ModOption>,
    presets: Seq<Preset>,
    i: int,
)
    requires
        is_last_match(settings, schema, presets, i),
    ensures
        last_match(settings, schema, presets) == Some(i),
{
    lemma_last_match(settings, schema, presets);
    match last_match(settings, schema, presets) {
        Some(k) => {
            if k < i {
                assert(!agrees(settings, schema, presets[i].settings@));
            } else if i < k {
                assert(!agrees(settings, schema, presets[k].settings@));
            }
        },
        None => {
            assert(!agrees(settings, schema, presets[i].settings@));
        },
    }
}

/// Values that all stand at their defaults are labelled "Default", unless a
/// preset matches them: a preset that matches takes the label.
pub proof fn lemma_defaults_are_labelled_default(
    settings: Map<Name, Value>,
    schema: Seq<ModOption>,
    metadata_presets: Seq<Preset>,
    local_presets: Seq<Preset>,
)
    requires
        all_default(settings, schema),
        none_matches(settings, schema, metadata_presets),
        none_matches(settings, schema, local_presets),
    ensures
        resolved(settings, schema, metadata_presets, local_presets) == default_label(),
{
    lemma_last_match(settings, schema, metadata_presets);
    lemma_last_match(settings, schema, local_presets);
}

/// Values of which at least one differs from its default, and which no
/// preset matches, are labelled "Custom".
pub proof fn lemma_changed_values_are_labelled_custom(
    settings: Map<Name, Value>,
    schema: Seq<ModOption>,
    metadata_presets: Seq<Preset>,
    local_presets: Seq<Preset>,
    changed: Name,
)
    requires
        settings.contains_key(changed),
        Some(settings[changed]) != default_for(schema, changed),
        none_matches(settings, schema, metadata_presets),
        none_matches(settings, schema, local_presets),
    ensures
        resolved(settings, schema, metadata_presets, local_presets) == custom_label(),
{
    lemma_last_match(settings, schema, metadata_presets);
    lemma_last_match(settings, schema, local_presets);
    assert(!all_default(settings, schema)) by {
        assert(effective(Map::empty(), schema, changed) == default_for(schema, changed));
    }
}

/// The last matching preset of the collection gives the label, whatever
/// the presets that the mod came with: of two presets with the same values,
/// one from each side, the collection's wins.
pub proof fn lemma_local_preset_wins(
    settings: Map<Name, Value>,
    schema: Seq<ModOption>,
    metadata_presets: Seq<Preset>,
    local_presets: Seq<Preset>,
    i: int,
)
    requires
        is_last_match(settings, schema, local_presets, i),
    ensures
        resolved(settings, schema, metadata_presets, local_presets) == local_presets[i].name@,
{
    lemma_last_match_is(settings, schema, local_presets, i);
}

/// Where no preset of the collection matches, the last matching preset
/// that the mod came with gives the label.
pub proof fn lemma_metadata_preset_labels(
    settings: Map<Name, Value>,
    schema: Seq<ModOption>,
    metadata_presets: Seq<Preset>,
    local_presets: Seq<Preset>,
    i: int,
)
    requires
        is_last_match(settings, schema, metadata_presets, i),
        none_matches(settings, schema, local_presets),
    ensures
        resolved(settings, schema, metadata_presets, local_presets) == metadata_presets[i].name@,
{
    lemma_last_match_is(settings, schema, metadata_presets, i);
    lemma_last_match(settings, schema, local_presets);
}

/// The values that a preset leaves match that preset, and have a value for
/// each option of the schema and for nothing else.
pub proof fn lemma_applied_matches(preset: Map<Name, Value>, schema: Seq<ModOption>)
    ensures
        agrees(applied(preset, schema), schema, preset),
        forall|name: Name| applied(preset, schema).contains_key(name) <==> declares(schema, name),
{
    let after = applied(preset, schema);
    assert forall|name: Name| #[trigger] after.contains_key(name) implies Some(after[name])
        == effective(preset, schema, name) by {
        lemma_first_index(option_names(schema), name);
    }
}

/// Putting a preset of the collection into effect and then asking for the
/// label gives the name of that preset, unless a later preset of the
/// collection matches the same values.
pub proof fn lemma_applied_local_preset_is_resolved(
    schema: Seq<ModOption>,
    metadata_presets: Seq<Preset>,
    local_presets: Seq<Preset>,
    i: int,
)
    requires
        0 <= i < local_presets.len(),
        forall|j: int|
            i < j < local_presets.len() ==> !agrees(
                applied(local_presets[i].settings@, schema),
                schema,
                (#[trigger] local_presets[j]).settings@,
            ),
    ensures
        resolved(
            applied(local_presets[i].settings@, schema),
            schema,
            metadata_presets,
            local_presets,
        ) == local_presets[i].name@,
{
    lemma_applied_matches(local_presets[i].settings@, schema);
    lemma_local_preset_wins(
        applied(local_presets[i].settings@, schema),
        schema,
        metadata_presets,
        local_presets,
        i,
    );
}

/// Putting a preset that the mod came with into effect and then asking for
/// the label gives the name of that preset, unless a later preset, of the
/// mod or of the collection, matches the same values.
pub proof fn lemma_applied_metadata_preset_is_resolved(
    schema: Seq<ModOption>,
    metadata_presets: Seq<Preset>,
    local_presets: Seq<Preset>,
    i: int,
)
    requires
        0 <= i < metadata_presets.len(),
        forall|j: int|
            i < j < metadata_presets.len() ==> !agrees(
                applied(metadata_presets[i].settings@, schema),
                schema,
                (#[trigger] metadata_presets[j]).settings@,
            ),
        none_matches(applied(metadata_presets[i].settings@, schema), schema, local_presets),
    ensures
        resolved(
            applied(metadata_presets[i].settings@, schema),
            schema,
            metadata_presets,
            local_presets,
        ) == metadata_presets[i].name@,
{
    lemma_applied_matches(metadata_presets[i].settings@, schema);
    lemma_metadata_preset_labels(
        applied(metadata_presets[i].settings@, schema),
        schema,
        metadata_presets,
        local_presets,
        i,
    );
}

/// Putting the defaults into effect and then asking for the label gives
/// "Default", unless a preset matches the defaults.
pub proof fn lemma_applied_defaults_are_resolved(
    schema: Seq<ModOption>,
    metadata_presets: Seq<Preset>,
    local_presets: Seq<Preset>,
)
    requires
        none_matches(applied(Map::empty(), schema), schema, metadata_presets),
        none_matches(applied(Map::empty(), schema), schema, local_presets),
    ensures
        resolved(applied(Map::empty(), schema), schema, metadata_presets, local_presets)
            == default_label(),
{
    lemma_applied_matches(Map::empty(), schema);
    lemma_defaults_are_labelled_default(
        applied(Map::empty(), schema),
        schema,
        metadata_presets,
        local_presets,
    );
}

/// With no option in the schema, and so no value stored, the label is
/// "Default" unless a preset matches; and every preset matches.
pub proof fn lemma_nothing_stored(schema: Seq<ModOption>, preset: Map<Name, Value>)
    ensures
        all_default(Map::empty(), schema),
        agrees(Map::empty(), schema, preset),
{
}

} // verus!
