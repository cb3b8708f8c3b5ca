//! The state of the panel in which a user picks a mod and a collection and
//! changes the settings of the one in the other, and what each thing the
//! user does leads to.
//!
//! The panel neither draws nor stores anything. Whoever shows it tells it
//! what happened and does what it answers.

use crate::edit::{edit, edited, Edit};
use crate::names::{
    distinct, first_index, has_name, is_first, lemma_distinct_first, lemma_first_index,
    lemma_first_is_unique, Name,
};
use crate::order::{rising, sort_ids};
use crate::preset::{create, delete, import_preset, name_verdict, preset_names, Preset, Settings};
use crate::resolver::{applied, apply, resolve, resolved};
use crate::schema::ModOption;
use vstd::prelude::*;
use vstd::string::StringExecFns;

verus! {

/// A collection: a scope under which mods keep settings of their own.
#[derive(Debug)]
pub struct Collection {
    pub id: String,
    pub name: String,
}

/// What a mod says of itself.
#[derive(Debug)]
pub struct Meta {
    pub name: String,
    pub version: String,
    pub description: String,
    pub options: Vec<ModOption>,
    pub presets: Vec<Preset>,
}

/// What is kept for a mod whatever the collection.
#[derive(Clone, Copy, Debug, PartialEq, Eq, Structural)]
pub struct RemoteSettings {
    pub auto_update: bool,
}

/// The state of the panel.
#[derive(Debug)]
pub struct Mods {
    /// The id of the collection whose settings are shown.
    pub active_collection: String,
    /// The id of the mod whose settings are shown.
    pub selected_mod: String,
    /// Whether the user is picking files to import.
    pub import_open: bool,
    /// What the user has typed as the name of a new preset.
    pub new_preset_name: String,
    /// Whether an install or an apply was running when the panel was last
    /// drawn.
    pub last_was_busy: bool,
    /// The ids of the mods, in rising order.
    pub mods: Vec<String>,
    /// The collections, each id once.
    pub collections: Vec<Collection>,
}

/// What the user did to the settings of the selected mod.
#[derive(Debug)]
pub enum ModEvent {
    /// Ticked or unticked the box for automatic updates.
    ToggleAutoUpdate,
    /// Picked the defaults.
    SelectDefault,
    /// Picked the preset at this position among those of the mod.
    SelectMetadataPreset(usize),
    /// Picked the preset at this position among those of the collection.
    SelectLocalPreset(usize),
    /// Asked to delete the preset at this position among those of the
    /// collection.
    DeletePreset(usize),
    /// Asked to save the current values under the name typed.
    AddPreset,
    /// Brought in this preset from elsewhere.
    ImportPreset(Preset),
    /// Changed the option at this position of the schema.
    EditOption(usize, Edit),
}

/// What the user did since the panel was last drawn.
#[derive(Debug)]
pub enum Event {
    Idle,
    /// Asked to import mods.
    ImportMods,
    /// Picked these files to import.
    FilesPicked(Vec<String>),
    /// Closed the file picker without picking.
    PickerCanceled,
    /// Asked to look for updates.
    UpdateMods,
    /// Asked to load the mods again.
    ReloadMods,
    /// Asked to apply the changes that are waiting.
    Apply,
    /// Picked the collection of this id.
    SelectCollection(String),
    /// Picked the mod of this id.
    SelectMod(String),
    /// Did something to the settings of the selected mod.
    Mod(ModEvent),
}

/// What is to be done about an [`Event`].
#[derive(Debug)]
pub enum Action {
    Nothing,
    /// Show the file picker.
    OpenPicker,
    /// Install the mods in these files.
    InstallMods(Vec<String>),
    /// Look for updates, without holding the panel up.
    CheckUpdates,
    /// Load mods and collections again and hand them to [`Mods::refresh`].
    Refresh,
    /// Apply the changes that are waiting.
    FinalizeApply,
    /// Store the settings of the selected mod that hold whatever the
    /// collection.
    SaveRemote,
    /// Hand the settings of the selected mod to the backend and store them.
    SaveSettings,
}

/// What drawing the panel once comes to.
#[derive(Debug)]
pub struct Drawn {
    /// The label under which the values of the selected mod are shown, as
    /// they stood before anything was done to them. Nothing while no mod is
    /// shown.
    pub label: Option<String>,
    /// What is to be done about what the user did.
    pub action: Action,
}

/// The ids of `collections`, in their order.
pub open spec fn collection_ids(collections: Seq<Collection>) -> Seq<Name> {
    Seq::new(collections.len(), |i: int| collections[i].id@)
}

/// The name under which the collection of id `id` is shown: that of the
/// first collection of this id, and "Invalid Collection" where there is
/// none.
pub open spec fn collection_label(collections: Seq<Collection>, id: Name) -> Name {
    match first_index(collection_ids(collections), id) {
        Some(i) => collections[i].name@,
        None => "Invalid Collection"@,
    }
}

/// No collection after the one at `i` has its id.
pub open spec fn is_last_of_id(collections: Seq<Collection>, i: int) -> bool {
    &&& 0 <= i < collections.len()
    &&& forall|j: int| i < j < collections.len() ==> collections[j].id@ != collections[i].id@
}

/// Those of the first `k` collections after which no collection of the list
/// has their id, in their order.
pub open spec fn last_of_each_among(collections: Seq<Collection>, k: int) -> Seq<Collection>
    decreases k,
{
    if k <= 0 {
        Seq::empty()
    } else if is_last_of_id(collections, k - 1) {
        last_of_each_among(collections, k - 1).push(collections[k - 1])
    } else {
        last_of_each_among(collections, k - 1)
    }
}

/// For each id the last collection that has it, in the order in which these
/// stand in the list.
pub open spec fn last_of_each(collections: Seq<Collection>) -> Seq<Collection> {
    last_of_each_among(collections, collections.len() as int)
}

/// `x` is one of the first `k` collections, and the last of its id.
spec fn is_last_below(collections: Seq<Collection>, k: int, x: Collection) -> bool {
    exists|j: int| 0 <= j < k && #[trigger] is_last_of_id(collections, j) && x == collections[j]
}

proof fn lemma_last_of_each_among(collections: Seq<Collection>, k: int)
    requires
        0 <= k <= collections.len(),
    ensures
        distinct(collection_ids(last_of_each_among(collections, k))),
        forall|p: int|
            0 <= p < last_of_each_among(collections, k).len() ==> is_last_below(
                collections,
                k,
                #[trigger] last_of_each_among(collections, k)[p],
            ),
        forall|j: int|
            0 <= j < k && #[trigger] is_last_of_id(collections, j) ==> last_of_each_among(
                collections,
                k,
            ).contains(collections[j]),
    decreases k,
{
    if k > 0 {
        let before = last_of_each_among(collections, k - 1);
        let after = last_of_each_among(collections, k);
        lemma_last_of_each_among(collections, k - 1);
        if is_last_of_id(collections, k - 1) {
            let n = before.len() as int;
            assert(after[n] == collections[k - 1]);
            assert forall|p: int| 0 <= p < after.len() implies is_last_below(
                collections,
                k,
                #[trigger] after[p],
            ) by {
                if p < n {
                    assert(after[p] == before[p]);
                    assert(is_last_below(collections, k - 1, before[p]));
                    let j = choose|j: int|
                        0 <= j < k - 1 && #[trigger] is_last_of_id(collections, j) && before[p]
                            == collections[j];
                    assert(0 <= j < k && is_last_of_id(collections, j) && after[p]
                        == collections[j]);
                } else {
                    assert(is_last_of_id(collections, k - 1) && after[p] == collections[k - 1]);
                }
            }
            assert forall|j: int| 0 <= j < k && #[trigger] is_last_of_id(
                collections,
                j,
            ) implies after.contains(collections[j]) by {
                if j < k - 1 {
                    assert(before.contains(collections[j]));
                    let p = choose|p: int| 0 <= p < before.len() && before[p] == collections[j];
                    assert(after[p] == collections[j]);
                } else {
                    assert(after[n] == collections[j]);
                }
            }
            let ids = collection_ids(after);
            assert forall|a: int, b: int| 0 <= a < b < ids.len() implies ids[a] != ids[b] by {
                if b < n {
                    assert(collection_ids(before)[a] == ids[a]);
                    assert(collection_ids(before)[b] == ids[b]);
                } else {
                    assert(after[a] == before[a]);
                    assert(is_last_below(collections, k - 1, before[a]));
                    let j = choose|j: int|
                        0 <= j < k - 1 && #[trigger] is_last_of_id(collections, j) && before[a]
                            == collections[j];
                    assert(collections[k - 1].id@ != collections[j].id@);
                }
            }
        } else {
            assert forall|j: int| 0 <= j < k && #[trigger] is_last_of_id(
                collections,
                j,
            ) implies after.contains(collections[j]) by {
                assert(j < k - 1);
            }
        }
    }
}

/// Among the collections from `i` on that have the id of the one at `i`,
/// one is the last.
proof fn lemma_last_exists(collections: Seq<Collection>, i: int) -> (j: int)
    requires
        0 <= i < collections.len(),
    ensures
        is_last_of_id(collections, j),
        collections[j].id@ == collections[i].id@,
    decreases collections.len() - i,
{
    if is_last_of_id(collections, i) {
        i
    } else {
        let later = choose|later: int|
            i < later < collections.len() && collections[later].id@ == collections[i].id@;
        lemma_last_exists(collections, later)
    }
}

/// What keeping the last collection of each id leaves: no id twice, every
/// id that there was, and each under the name of the last collection that
/// had it.
pub proof fn lemma_last_of_each(collections: Seq<Collection>)
    ensures
        distinct(collection_ids(last_of_each(collections))),
        forall|id: Name|
            has_name(collection_ids(last_of_each(collections)), id) <==> has_name(
                collection_ids(collections),
                id,
            ),
        forall|j: int| #[trigger]
            is_last_of_id(collections, j) ==> collection_label(
                last_of_each(collections),
                collections[j].id@,
            ) == collections[j].name@,
{
    let kept = last_of_each(collections);
    let kept_ids = collection_ids(kept);
    let ids = collection_ids(collections);
    lemma_last_of_each_among(collections, collections.len() as int);
    assert forall|id: Name| has_name(kept_ids, id) <==> has_name(ids, id) by {
        if has_name(kept_ids, id) {
            let p = choose|p: int| 0 <= p < kept_ids.len() && kept_ids[p] == id;
            assert(is_last_below(collections, collections.len() as int, kept[p]));
            let j = choose|j: int|
                0 <= j < collections.len() && #[trigger] is_last_of_id(collections, j) && kept[p]
                    == collections[j];
            assert(ids[j] == id);
        }
        if has_name(ids, id) {
            let i = choose|i: int| 0 <= i < ids.len() && ids[i] == id;
            let j = lemma_last_exists(collections, i);
            assert(kept.contains(collections[j]));
            let p = choose|p: int| 0 <= p < kept.len() && kept[p] == collections[j];
            assert(kept_ids[p] == id);
        }
    }
    assert forall|j: int| #[trigger] is_last_of_id(collections, j) implies collection_label(
        kept,
        collections[j].id@,
    ) == collections[j].name@ by {
        assert(kept.contains(collections[j]));
        let p = choose|p: int| 0 <= p < kept.len() && kept[p] == collections[j];
        assert(kept_ids[p] == collections[j].id@);
        lemma_distinct_first(kept_ids, p);
    }
}

/// For each id the last collection that has it.
pub fn keep_last_of_each(collections: &Vec<Collection>) -> (kept: Vec<Collection>)
    ensures
        kept@ == last_of_each(collections@),
        distinct(collection_ids(kept@)),
{
    let mut kept: Vec<Collection> = Vec::new();
    let mut i: usize = 0;
    while i < collections.len()
        invariant
            i <= collections.len(),
            kept@ == last_of_each_among(collections@, i as int),
        decreases collections.len() - i,
    {
        let mut later = false;
        let mut j: usize = i + 1;
        while j < collections.len()
            invariant
                i < j <= collections.len(),
                later == exists|k: int| i < k < j && collections@[k].id@ == collections@[i as int].id@,
            decreases collections.len() - j,
        {
            if collections[j].id == collections[i].id {
                later = true;
            }
            j += 1;
        }
        if !later {
            let copy = Collection { id: collections[i].id.clone(), name: collections[i].name.clone() };
            assert(copy == collections@[i as int]);
            kept.push(copy);
        }
        i += 1;
    }
    proof {
        lemma_last_of_each(collections@);
    }
    kept
}

/// Whether the defaults are offered beside the presets: only where the mod
/// came with no presets.
pub fn offers_default(meta: &Meta) -> (r: bool)
    ensures
        r == (meta.presets@.len() == 0),
{
    meta.presets.len() == 0
}

/// What an event outside the settings of a mod makes of the panel, and what
/// is to be done about it.
///
/// While something is running, nothing is updated, reloaded or applied. The
/// file picker is opened only while it is closed. Nothing is applied where
/// nothing waits. What is done to the settings of a mod is not dealt with
/// here.
pub open spec fn list_step(
    before: Mods,
    is_busy: bool,
    queue_size: usize,
    event: Event,
    after: Mods,
    action: Action,
) -> bool {
    match event {
        Event::Idle => after == before && action == Action::Nothing,
        Event::ImportMods => if before.import_open {
            after == before && action == Action::Nothing
        } else {
            after == (Mods { import_open: true, ..before }) && action == Action::OpenPicker
        },
        Event::FilesPicked(paths) => after == (Mods { import_open: false, ..before }) && action
            == Action::InstallMods(paths),
        Event::PickerCanceled => after == (Mods { import_open: false, ..before }) && action
            == Action::Nothing,
        Event::UpdateMods => after == before && action == if is_busy {
            Action::Nothing
        } else {
            Action::CheckUpdates
        },
        Event::ReloadMods => after == before && action == if is_busy {
            Action::Nothing
        } else {
            Action::Refresh
        },
        Event::Apply => after == before && action == if !is_busy && queue_size > 0 {
            Action::FinalizeApply
        } else {
            Action::Nothing
        },
        Event::SelectCollection(id) => after == (Mods { active_collection: id, ..before })
            && action == Action::Nothing,
        Event::SelectMod(id) => after == (Mods { selected_mod: id, ..before }) && action
            == Action::Nothing,
        Event::Mod(_) => after == before && action == Action::Nothing,
    }
}

/// What an event in the settings of the selected mod makes of the panel, of
/// the settings and of what holds whatever the collection, and what is to be
/// stored.
///
/// What cannot be done changes nothing and leads to nothing: a position that
/// is not there, a name that is refused, an edit that does not fit its
/// option or whose option has no value.
pub open spec fn mod_step(
    before: Mods,
    meta: Meta,
    settings: Settings,
    remote: RemoteSettings,
    event: ModEvent,
    after: Mods,
    settings_after: Settings,
    remote_after: RemoteSettings,
    action: Action,
) -> bool {
    &&& after.active_collection == before.active_collection
    &&& after.selected_mod == before.selected_mod
    &&& after.import_open == before.import_open
    &&& after.last_was_busy == before.last_was_busy
    &&& after.mods == before.mods
    &&& after.collections == before.collections
    &&& action == Action::Nothing ==> after == before && settings_after == settings && remote_after
        == remote
    &&& !(event is ToggleAutoUpdate) ==> remote_after == remote
    &&& !(event is AddPreset) ==> after.new_preset_name == before.new_preset_name
    &&& match event {
        ModEvent::ToggleAutoUpdate => {
            &&& action == Action::SaveRemote
            &&& remote_after.auto_update == !remote.auto_update
            &&& settings_after == settings
        },
        ModEvent::SelectDefault => {
            &&& action == Action::SaveSettings
            &&& settings_after.settings@ == applied(Map::empty(), meta.options@)
            &&& settings_after.presets == settings.presets
        },
        ModEvent::SelectMetadataPreset(i) => if i < meta.presets@.len() {
            &&& action == Action::SaveSettings
            &&& settings_after.settings@ == applied(
                meta.presets@[i as int].settings@,
                meta.options@,
            )
            &&& settings_after.presets == settings.presets
        } else {
            action == Action::Nothing
        },
        ModEvent::SelectLocalPreset(i) => if i < settings.presets@.len() {
            &&& action == Action::SaveSettings
            &&& settings_after.settings@ == applied(
                settings.presets@[i as int].settings@,
                meta.options@,
            )
            &&& settings_after.presets == settings.presets
        } else {
            action == Action::Nothing
        },
        ModEvent::DeletePreset(i) => if i < settings.presets@.len() {
            &&& action == Action::SaveSettings
            &&& settings_after.presets@ == settings.presets@.remove(i as int)
            &&& settings_after.settings == settings.settings
        } else {
            action == Action::Nothing
        },
        ModEvent::AddPreset => if name_verdict(
            before.new_preset_name@,
            meta.presets@,
            settings.presets@,
        ) is Ok {
            &&& action == Action::SaveSettings
            &&& after.new_preset_name@.len() == 0
            &&& settings_after.settings == settings.settings
            &&& settings_after.presets@.len() == settings.presets@.len() + 1
            &&& settings_after.presets@.drop_last() == settings.presets@
            &&& settings_after.presets@.last().name@ == before.new_preset_name@
            &&& settings_after.presets@.last().settings@ == settings.settings@
        } else {
            action == Action::Nothing
        },
        ModEvent::ImportPreset(preset) => if name_verdict(
            preset.name@,
            meta.presets@,
            Seq::empty(),
        ) is Ok {
            &&& action == Action::SaveSettings
            &&& settings_after.settings == settings.settings
            &&& settings_after.presets@ == match first_index(
                preset_names(settings.presets@),
                preset.name@,
            ) {
                Some(k) => settings.presets@.update(k, preset),
                None => settings.presets@.push(preset),
            }
        } else {
            action == Action::Nothing
        },
        ModEvent::EditOption(k, change) => if k < meta.options@.len()
            && settings.settings@.contains_key(meta.options@[k as int].name@) && edited(
            meta.options@[k as int].settings,
            settings.settings@[meta.options@[k as int].name@],
            change,
        ) is Ok {
            &&& action == Action::SaveSettings
            &&& settings_after.presets == settings.presets
            &&& settings_after.settings@ == settings.settings@.insert(
                meta.options@[k as int].name@,
                edited(
                    meta.options@[k as int].settings,
                    settings.settings@[meta.options@[k as int].name@],
                    change,
                )->Ok_0,
            )
        } else {
            action == Action::Nothing
        },
    }
}

impl Mods {
    /// A panel that holds the mods and collections as they were just
    /// loaded, with nothing selected. The active collection is the one that
    /// the backend calls active, unless a collection has the empty id.
    pub fn new(mods: Vec<String>, collections: Vec<Collection>, backend_active: String) -> (panel:
        Mods)
        ensures
            panel.mods@.to_multiset() == mods@.to_multiset(),
            rising(panel.mods@),
            panel.collections@ == last_of_each(collections@),
            distinct(collection_ids(panel.collections@)),
            if has_name(collection_ids(collections@), Seq::empty()) {
                panel.active_collection@ == Seq::<char>::empty()
            } else {
                panel.active_collection == backend_active
            },
            panel.selected_mod@ == Seq::<char>::empty(),
            !panel.import_open,
            panel.new_preset_name@ == Seq::<char>::empty(),
            !panel.last_was_busy,
    {
        let mut panel = Mods {
            active_collection: String::new(),
            selected_mod: String::new(),
            import_open: false,
            new_preset_name: String::new(),
            last_was_busy: false,
            mods: Vec::new(),
            collections: Vec::new(),
        };
        panel.refresh(mods, collections, backend_active);
        panel
    }

    /// The position of the first collection of id `id`.
    fn find_collection(&self, id: &String) -> (found: Option<usize>)
        ensures
            match found {
                Some(i) => first_index(collection_ids(self.collections@), id@) == Some(i as int),
                None => first_index(collection_ids(self.collections@), id@) is None,
            },
            found.is_some() == has_name(collection_ids(self.collections@), id@),
    {
        let ghost ids = collection_ids(self.collections@);
        let mut i: usize = 0;
        while i < self.collections.len()
            invariant
                i <= self.collections.len(),
                ids == collection_ids(self.collections@),
                forall|j: int| 0 <= j < i ==> ids[j] != id@,
            decreases self.collections.len() - i,
        {
            if self.collections[i].id == *id {
                proof {
                    assert(ids[i as int] == id@);
                    assert(is_first(ids, id@, i as int));
                    lemma_first_is_unique(ids, id@, i as int);
                    lemma_first_index(ids, id@);
                }
                return Some(i);
            }
            i += 1;
        }
        proof {
            lemma_first_index(ids, id@);
        }
        None
    }

    /// Takes in the mods and collections as they were just loaded. The mods
    /// are put in rising order. Of several collections of one id the last is
    /// kept. The active collection stays where it still exists; otherwise
    /// the one that the backend calls active takes its place.
    pub fn refresh(&mut self, mods: Vec<String>, collections: Vec<Collection>, backend_active: String)
        ensures
            final(self).mods@.to_multiset() == mods@.to_multiset(),
            rising(final(self).mods@),
            final(self).collections@ == last_of_each(collections@),
            distinct(collection_ids(final(self).collections@)),
            final(self).active_collection == if has_name(
                collection_ids(collections@),
                old(self).active_collection@,
            ) {
                old(self).active_collection
            } else {
                backend_active
            },
            final(self).selected_mod == old(self).selected_mod,
            final(self).import_open == old(self).import_open,
            final(self).new_preset_name == old(self).new_preset_name,
            final(self).last_was_busy == old(self).last_was_busy,
    {
        let mut sorted = mods;
        sort_ids(&mut sorted);
        self.mods = sorted;
        self.collections = keep_last_of_each(&collections);
        proof {
            lemma_last_of_each(collections@);
        }
        let known = self.find_collection(&self.active_collection).is_some();
        if !known {
            self.active_collection = backend_active;
        }
    }

    /// Notes whether an install or an apply is running, and says whether
    /// one has just come to an end, in which case everything is to be loaded
    /// again.
    pub fn frame(&mut self, is_busy: bool) -> (reload: bool)
        ensures
            reload == (old(self).last_was_busy && !is_busy),
            *final(self) == (Mods { last_was_busy: is_busy, ..*old(self) }),
    {
        let reload = self.last_was_busy && !is_busy;
        self.last_was_busy = is_busy;
        reload
    }

    /// The name under which the active collection is shown.
    pub fn active_collection_name(&self) -> (label: String)
        ensures
            label@ == collection_label(self.collections@, self.active_collection@),
    {
        match self.find_collection(&self.active_collection) {
            Some(i) => self.collections[i].name.clone(),
            None => String::from_str("Invalid Collection"),
        }
    }

    /// Takes in what the user did outside the settings of a mod, and says
    /// what is to be done about it. `is_busy` says whether an install or an
    /// apply is running, `queue_size` how many mods wait for an apply.
    pub fn draw_list(&mut self, is_busy: bool, queue_size: usize, event: Event) -> (action: Action)
        ensures
            list_step(*old(self), is_busy, queue_size, event, *final(self), action),
    {
        match event {
            Event::Idle => Action::Nothing,
            Event::ImportMods => {
                if self.import_open {
                    Action::Nothing
                } else {
                    self.import_open = true;
                    Action::OpenPicker
                }
            },
            Event::FilesPicked(paths) => {
                self.import_open = false;
                Action::InstallMods(paths)
            },
            Event::PickerCanceled => {
                self.import_open = false;
                Action::Nothing
            },
            Event::UpdateMods => {
                if is_busy {
                    Action::Nothing
                } else {
                    Action::CheckUpdates
                }
            },
            Event::ReloadMods => {
                if is_busy {
                    Action::Nothing
                } else {
                    Action::Refresh
                }
            },
            Event::Apply => {
                if !is_busy && queue_size > 0 {
                    Action::FinalizeApply
                } else {
                    Action::Nothing
                }
            },
            Event::SelectCollection(id) => {
                self.active_collection = id;
                Action::Nothing
            },
            Event::SelectMod(id) => {
                self.selected_mod = id;
                Action::Nothing
            },
            Event::Mod(_) => Action::Nothing,
        }
    }

    /// Takes in what the user did to the settings of the selected mod, and
    /// says what is to be stored. `meta` is the selected mod's, `settings`
    /// are its settings in the active collection, `remote` those that hold
    /// whatever the collection.
    pub fn draw_mod(
        &mut self,
        meta: &Meta,
        settings: &mut Settings,
        remote: &mut RemoteSettings,
        event: ModEvent,
    ) -> (action: Action)
        ensures
            mod_step(
                *old(self),
                *meta,
                *old(settings),
                *old(remote),
                event,
                *final(self),
                *final(settings),
                *final(remote),
                action,
            ),
    {
        match event {
            ModEvent::ToggleAutoUpdate => {
                remote.auto_update = !remote.auto_update;
                Action::SaveRemote
            },
            ModEvent::SelectDefault => {
                apply(None, &meta.options, &mut settings.settings);
                Action::SaveSettings
            },
            ModEvent::SelectMetadataPreset(i) => {
                if i < meta.presets.len() {
                    apply(Some(&meta.presets[i]), &meta.options, &mut settings.settings);
                    Action::SaveSettings
                } else {
                    Action::Nothing
                }
            },
            ModEvent::SelectLocalPreset(i) => {
                if i < settings.presets.len() {
                    apply(Some(&settings.presets[i]), &meta.options, &mut settings.settings);
                    Action::SaveSettings
                } else {
                    Action::Nothing
                }
            },
            ModEvent::DeletePreset(i) => {
                if delete(&mut settings.presets, i) {
                    Action::SaveSettings
                } else {
                    Action::Nothing
                }
            },
            ModEvent::AddPreset => {
                match create(settings, &self.new_preset_name, &meta.presets) {
                    Ok(()) => {
                        self.new_preset_name = String::new();
                        Action::SaveSettings
                    },
                    Err(_) => Action::Nothing,
                }
            },
            ModEvent::ImportPreset(preset) => {
                match import_preset(&mut settings.presets, &meta.presets, preset) {
                    Ok(_) => Action::SaveSettings,
                    Err(_) => Action::Nothing,
                }
            },
            ModEvent::EditOption(k, change) => {
                if k < meta.options.len() {
                    let option = &meta.options[k];
                    match settings.settings.get(&option.name) {
                        Some(value) => match edit(option, value, change) {
                            Ok(next) => {
                                settings.settings.set(option.name.clone(), next);
                                Action::SaveSettings
                            },
                            Err(_) => Action::Nothing,
                        },
                        None => Action::Nothing,
                    }
                } else {
                    Action::Nothing
                }
            },
        }
    }

    /// Draws the panel once: says under which label the values of the
    /// selected mod are shown, takes in what the user did, and says what is
    /// to be done about it.
    ///
    /// `meta` is the selected mod's, `settings` are its settings in the
    /// active collection, and `remote` those that hold whatever the
    /// collection. While no mod is shown `meta` is nothing; then no label is
    /// given, and `settings` and `remote` are left alone. `is_busy` says
    /// whether an install or an apply is running, `queue_size` how many mods
    /// wait for an apply.
    ///
    /// The label is that of the values as they come in. What the user did to
    /// them shows in the label of the next drawing.
    pub fn draw(
        &mut self,
        is_busy: bool,
        queue_size: usize,
        meta: Option<&Meta>,
        settings: &mut Settings,
        remote: &mut RemoteSettings,
        event: Event,
    ) -> (drawn: Drawn)
        ensures
            match meta {
                Some(m) => drawn.label matches Some(label) && label@ == resolved(
                    old(settings).settings@,
                    m.options@,
                    m.presets@,
                    old(settings).presets@,
                ),
                None => drawn.label is None,
            },
            match event {
                Event::Mod(change) => match meta {
                    Some(m) => mod_step(
                        *old(self),
                        *m,
                        *old(settings),
                        *old(remote),
                        change,
                        *final(self),
                        *final(settings),
                        *final(remote),
                        drawn.action,
                    ),
                    None => {
                        &&& *final(self) == *old(self)
                        &&& *final(settings) == *old(settings)
                        &&& *final(remote) == *old(remote)
                        &&& drawn.action == Action::Nothing
                    },
                },
                _ => {
                    &&& list_step(
                        *old(self),
                        is_busy,
                        queue_size,
                        event,
                        *final(self),
                        drawn.action,
                    )
                    &&& *final(settings) == *old(settings)
                    &&& *final(remote) == *old(remote)
                },
            },
    {
        let label = match meta {
            Some(m) => Some(resolve(&settings.settings, &m.options, &m.presets, &settings.presets)),
            None => None,
        };
        let action = match event {
            Event::Mod(change) => match meta {
                Some(m) => self.draw_mod(m, settings, remote, change),
                None => Action::Nothing,
            },
            other => self.draw_list(is_busy, queue_size, other),
        };
        Drawn { label, action }
    }
}

} // verus!
