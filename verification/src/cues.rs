//! Cue-list lookups and reordering for the cue-list view.
use vstd::prelude::*;
use crate::ids::{hyphenated_uuid, id_matches};
use crate::lookup::{first_where, lemma_first_where_prefix, lemma_first_where_step};
use crate::scenes::{is_current, spec_is_current};
use crate::text::{decimal, decimal_text};
use crate::view_state::{AppViewState, CueEntry, CueList, SceneConfig, SceneSummary};

verus! {

pub open spec fn list_named(text: Seq<char>) -> spec_fn(CueList) -> bool {
    |l: CueList| hyphenated_uuid(l.id) == text
}

pub open spec fn entry_named(text: Seq<char>) -> spec_fn(CueEntry) -> bool {
    |e: CueEntry| hyphenated_uuid(e.id) == text
}

pub open spec fn scene_named(text: Seq<char>) -> spec_fn(SceneConfig) -> bool {
    |c: SceneConfig| hyphenated_uuid(c.internal_scene_id) == text
}

pub open spec fn scene_with_id(id: u128) -> spec_fn(SceneConfig) -> bool {
    |c: SceneConfig| c.internal_scene_id == id
}

fn find_list(lists: &Vec<CueList>, text: &String) -> (r: Option<usize>)
    ensures
        r matches Some(i) ==> i < lists@.len(),
        r matches Some(i) ==> first_where(lists@, list_named(text@)) == Some(i as int),
        r is None ==> first_where(lists@, list_named(text@)) is None,
{
    let mut i: usize = 0;
    while i < lists.len()
        invariant
            i <= lists@.len(),
            first_where(lists@.take(i as int), list_named(text@)) is None,
        decreases lists@.len() - i,
    {
        proof {
            lemma_first_where_step(lists@, list_named(text@), i as int);
        }
        if id_matches(lists[i].id, text) {
            proof {
                lemma_first_where_prefix(lists@, list_named(text@), i + 1);
            }
            return Some(i);
        }
        i = i + 1;
    }
    proof {
        lemma_first_where_prefix(lists@, list_named(text@), i as int);
    }
    None
}

fn find_entry(entries: &Vec<CueEntry>, text: &String) -> (r: Option<usize>)
    ensures
        r matches Some(i) ==> i < entries@.len(),
        r matches Some(i) ==> first_where(entries@, entry_named(text@)) == Some(i as int),
        r is None ==> first_where(entries@, entry_named(text@)) is None,
{
    let mut i: usize = 0;
    while i < entries.len()
        invariant
            i <= entries@.len(),
            first_where(entries@.take(i as int), entry_named(text@)) is None,
        decreases entries@.len() - i,
    {
        proof {
            lemma_first_where_step(entries@, entry_named(text@), i as int);
        }
        if id_matches(entries[i].id, text) {
            proof {
                lemma_first_where_prefix(entries@, entry_named(text@), i + 1);
            }
            return Some(i);
        }
        i = i + 1;
    }
    proof {
        lemma_first_where_prefix(entries@, entry_named(text@), i as int);
    }
    None
}

/// The first scene configuration whose identifier text is `text`.
pub fn find_scene_named(configs: &Vec<SceneConfig>, text: &String) -> (r: Option<usize>)
    ensures
        r matches Some(i) ==> i < configs@.len(),
        r matches Some(i) ==> first_where(configs@, scene_named(text@)) == Some(i as int),
        r is None ==> first_where(configs@, scene_named(text@)) is None,
{
    let mut i: usize = 0;
    while i < configs.len()
        invariant
            i <= configs@.len(),
            first_where(configs@.take(i as int), scene_named(text@)) is None,
        decreases configs@.len() - i,
    {
        proof {
            lemma_first_where_step(configs@, scene_named(text@), i as int);
        }
        if id_matches(configs[i].internal_scene_id, text) {
            proof {
                lemma_first_where_prefix(configs@, scene_named(text@), i + 1);
            }
            return Some(i);
        }
        i = i + 1;
    }
    proof {
        lemma_first_where_prefix(configs@, scene_named(text@), i as int);
    }
    None
}

fn find_scene_id(configs: &Vec<SceneConfig>, id: u128) -> (r: Option<usize>)
    ensures
        r matches Some(i) ==> i < configs@.len(),
        r matches Some(i) ==> first_where(configs@, scene_with_id(id)) == Some(i as int),
        r is None ==> first_where(configs@, scene_with_id(id)) is None,
{
    let mut i: usize = 0;
    while i < configs.len()
        invariant
            i <= configs@.len(),
            first_where(configs@.take(i as int), scene_with_id(id)) is None,
        decreases configs@.len() - i,
    {
        proof {
            lemma_first_where_step(configs@, scene_with_id(id), i as int);
        }
        if configs[i].internal_scene_id == id {
            proof {
                lemma_first_where_prefix(configs@, scene_with_id(id), i + 1);
            }
            return Some(i);
        }
        i = i + 1;
    }
    proof {
        lemma_first_where_prefix(configs@, scene_with_id(id), i as int);
    }
    None
}

/// The position of the active cue list: the first list whose identifier text is
/// the projected active identifier.
pub open spec fn spec_active_list(s: AppViewState) -> Option<int> {
    match s.active_cue_list_id {
        None => None,
        Some(active) => first_where(s.cue_lists@, list_named(active@)),
    }
}

pub fn active_cue_list(snapshot: &AppViewState) -> (r: Option<&CueList>)
    ensures
        match spec_active_list(*snapshot) {
            None => r is None,
            Some(i) => r == Some(&snapshot.cue_lists@[i]),
        },
{
    let active = match &snapshot.active_cue_list_id {
        Some(active) => active,
        None => {
            return None;
        },
    };
    match find_list(&snapshot.cue_lists, active) {
        Some(i) => Some(&snapshot.cue_lists[i]),
        None => None,
    }
}

/// The position of the selected scene configuration.
pub open spec fn spec_selected_scene(s: AppViewState) -> Option<int> {
    match s.selected_scene_internal_id {
        None => None,
        Some(selected) => first_where(s.scene_configs@, scene_named(selected@)),
    }
}

pub fn selected_scene_config(snapshot: &AppViewState) -> (r: Option<&SceneConfig>)
    ensures
        match spec_selected_scene(*snapshot) {
            None => r is None,
            Some(i) => r == Some(&snapshot.scene_configs@[i]),
        },
{
    let selected = match &snapshot.selected_scene_internal_id {
        Some(selected) => selected,
        None => {
            return None;
        },
    };
    match find_scene_named(&snapshot.scene_configs, selected) {
        Some(i) => Some(&snapshot.scene_configs[i]),
        None => None,
    }
}

/// The first scene configuration with identifier `scene_id`.
pub fn scene_by_id(snapshot: &AppViewState, scene_id: u128) -> (r: Option<&SceneConfig>)
    ensures
        match first_where(snapshot.scene_configs@, scene_with_id(scene_id)) {
            None => r is None,
            Some(i) => r == Some(&snapshot.scene_configs@[i]),
        },
{
    match find_scene_id(&snapshot.scene_configs, scene_id) {
        Some(i) => Some(&snapshot.scene_configs[i]),
        None => None,
    }
}

/// The cued entry: the first entry of the active list whose identifier text is
/// the projected cued identifier.
pub open spec fn spec_cued_entry(s: AppViewState) -> Option<CueEntry> {
    match (s.cued_cue_entry_id, spec_active_list(s)) {
        (Some(cued), Some(l)) => match first_where(
            s.cue_lists@[l].entries@,
            entry_named(cued@),
        ) {
            Some(e) => Some(s.cue_lists@[l].entries@[e]),
            None => None,
        },
        _ => None,
    }
}

/// The cued entry of the active list, if any.
pub fn cued_entry(snapshot: &AppViewState) -> (r: Option<&CueEntry>)
    ensures
        match spec_cued_entry(*snapshot) {
            None => r is None,
            Some(e) => r == Some(&e),
        },
{
    let cued = match &snapshot.cued_cue_entry_id {
        Some(cued) => cued,
        None => {
            return None;
        },
    };
    let list = match active_cue_list(snapshot) {
        Some(list) => list,
        None => {
            return None;
        },
    };
    match find_entry(&list.entries, cued) {
        Some(i) => Some(&list.entries[i]),
        None => None,
    }
}

/// A cued entry is valid only when its scene configuration exists.
pub fn valid_cued_entry(snapshot: &AppViewState) -> (r: Option<&CueEntry>)
    ensures
        match spec_cued_entry(*snapshot) {
            None => r is None,
            Some(e) => if first_where(snapshot.scene_configs@, scene_with_id(e.scene_internal_id))
                is Some {
                r == Some(&e)
            } else {
                r is None
            },
        },
{
    let entry = match cued_entry(snapshot) {
        Some(entry) => entry,
        None => {
            return None;
        },
    };
    match scene_by_id(snapshot, entry.scene_internal_id) {
        Some(_) => Some(entry),
        None => None,
    }
}

/// The scene that the cued entry recalls, whether or not its configuration exists.
pub fn cued_scene_id(snapshot: &AppViewState) -> (r: Option<u128>)
    ensures
        r == match spec_cued_entry(*snapshot) {
            None => None,
            Some(e) => Some(e.scene_internal_id),
        },
{
    match cued_entry(snapshot) {
        Some(entry) => Some(entry.scene_internal_id),
        None => None,
    }
}

/// The nested editors of the cue-list manager.
#[derive(Clone, Copy, Debug, PartialEq, Eq, Structural)]
pub enum NameEditor {
    Create,
    Rename(u128),
}

/// A cue-list manager command that is awaiting completion.
#[derive(Clone, Copy, Debug, PartialEq, Eq, Structural)]
pub enum ManageCommand {
    Name(NameEditor),
    Delete(u128),
    Activate,
    Reorder,
}

/// Manager controls are inert while a nested editor is open or a command is pending.
pub fn manager_controls_inert(
    name_editor: Option<NameEditor>,
    pending_delete: Option<u128>,
    pending_command: Option<(u64, ManageCommand)>,
) -> (r: bool)
    ensures
        r == (name_editor is Some || pending_delete is Some || pending_command is Some),
{
    name_editor.is_some() || pending_delete.is_some() || pending_command.is_some()
}

/// Items that carry a stable identifier.
pub trait StableId {
    spec fn spec_stable_id(&self) -> u128;

    fn stable_id(&self) -> (r: u128)
        ensures
            r == self.spec_stable_id(),
    ;
}

impl StableId for CueEntry {
    open spec fn spec_stable_id(&self) -> u128 {
        self.id
    }

    fn stable_id(&self) -> (r: u128) {
        self.id
    }
}

impl StableId for CueList {
    open spec fn spec_stable_id(&self) -> u128 {
        self.id
    }

    fn stable_id(&self) -> (r: u128) {
        self.id
    }
}

pub open spec fn stable_ids<T: StableId>(items: Seq<T>) -> Seq<u128> {
    items.map_values(|t: T| t.spec_stable_id())
}

pub open spec fn id_is(id: u128) -> spec_fn(u128) -> bool {
    |x: u128| x == id
}

/// Moving `from` to the position of `to`: the identifiers with `from` removed and
/// reinserted where `to` was. Nothing to do when they are equal or either is
/// missing.
pub open spec fn spec_reordered(ids: Seq<u128>, from: u128, to: u128) -> Option<Seq<u128>> {
    if from == to {
        None
    } else {
        match (first_where(ids, id_is(from)), first_where(ids, id_is(to))) {
            (Some(f), Some(t)) => Some(ids.remove(f).insert(t, from)),
            _ => None,
        }
    }
}

fn position_of<T: StableId>(items: &Vec<T>, id: u128) -> (r: Option<usize>)
    ensures
        r matches Some(i) ==> first_where(stable_ids(items@), id_is(id)) == Some(i as int),
        r is None ==> first_where(stable_ids(items@), id_is(id)) is None,
{
    let ghost ids = stable_ids(items@);
    let mut i: usize = 0;
    while i < items.len()
        invariant
            ids == stable_ids(items@),
            i <= items@.len(),
            first_where(ids.take(i as int), id_is(id)) is None,
        decreases items@.len() - i,
    {
        proof {
            lemma_first_where_step(ids, id_is(id), i as int);
        }
        if items[i].stable_id() == id {
            proof {
                lemma_first_where_prefix(ids, id_is(id), i + 1);
            }
            return Some(i);
        }
        i = i + 1;
    }
    proof {
        lemma_first_where_prefix(ids, id_is(id), i as int);
    }
    None
}

/// The identifiers after dragging `from` onto `to`.
pub fn reordered_ids<T: StableId>(items: &Vec<T>, from: u128, to: u128) -> (r: Option<Vec<u128>>)
    ensures
        match spec_reordered(stable_ids(items@), from, to) {
            None => r is None,
            Some(ids) => r matches Some(v) && v@ == ids,
        },
{
    if from == to {
        return None;
    }
    let from_index = match position_of(items, from) {
        Some(i) => i,
        None => {
            return None;
        },
    };
    let to_index = match position_of(items, to) {
        Some(i) => i,
        None => {
            return None;
        },
    };
    let mut ids: Vec<u128> = Vec::new();
    let mut i: usize = 0;
    while i < items.len()
        invariant
            i <= items@.len(),
            ids@ == stable_ids(items@).take(i as int),
        decreases items@.len() - i,
    {
        ids.push(items[i].stable_id());
        i = i + 1;
        assert(ids@ =~= stable_ids(items@).take(i as int));
    }
    assert(ids@ =~= stable_ids(items@));
    proof {
        crate::lookup::lemma_first_where(stable_ids(items@), id_is(from));
        crate::lookup::lemma_first_where(stable_ids(items@), id_is(to));
    }
    let moved = ids.remove(from_index);
    ids.insert(to_index, moved);
    Some(ids)
}

/// A reorder is a complete, stable permutation: the same identifiers with the
/// same multiplicities, the moved identifier at the target's former position, and
/// the others in their previous relative order.
pub proof fn law_reorder_is_a_permutation(ids: Seq<u128>, from: u128, to: u128)
    ensures
        spec_reordered(ids, from, to) matches Some(r) ==> {
            &&& r.len() == ids.len()
            &&& r.to_multiset() == ids.to_multiset()
            &&& r[first_where(ids, id_is(to))->0] == from
            &&& r.remove(first_where(ids, id_is(to))->0) == ids.remove(
                first_where(ids, id_is(from))->0,
            )
        },
{
    if let Some(r) = spec_reordered(ids, from, to) {
        crate::lookup::lemma_first_where(ids, id_is(from));
        crate::lookup::lemma_first_where(ids, id_is(to));
        let f = first_where(ids, id_is(from))->0;
        let t = first_where(ids, id_is(to))->0;
        let rest = ids.remove(f);
        assert(r.remove(t) =~= rest);
        assert(ids[f] == from);
        assert(r[t] == from);
        vstd::seq_lib::to_multiset_remove(ids, f);
        vstd::seq_lib::to_multiset_remove(r, t);
        vstd::seq_lib::to_multiset_contains(ids, from);
        vstd::seq_lib::to_multiset_contains(r, from);
        assert(ids.contains(from));
        assert(r.contains(from));
        let mi = ids.to_multiset();
        let mr = r.to_multiset();
        assert(mr.remove(from) == mi.remove(from));
        assert forall|x: u128| mr.count(x) == mi.count(x) by {
            assert(mr.remove(from).count(x) == mi.remove(from).count(x));
        }
        assert(mr =~= mi);
    }
}

/// How the text of a cue-list entry is coloured, by precedence.
#[derive(Clone, Copy, Debug, PartialEq, Eq, Structural)]
pub enum EntryTone {
    Current,
    Cued,
    Warning,
    Primary,
}

/// The colour of a cue-list entry's left border, by precedence.
#[derive(Clone, Copy, Debug, PartialEq, Eq, Structural)]
pub enum EntryBorder {
    Current,
    Cued,
    Selected,
    Warning,
    Plain,
}

/// What the row of a cue-list entry shows.
pub struct CueEntryRow {
    pub display_name: String,
    pub current: bool,
    pub cued: bool,
    pub selected: bool,
    pub missing: bool,
    pub tone: EntryTone,
    pub border: EntryBorder,
    /// Whether the row carries the play marker.
    pub marked: bool,
    pub select_label: String,
    pub remove_label: String,
}

/// The scene configuration that an entry recalls: the first with its identifier.
pub open spec fn spec_entry_scene(s: AppViewState, entry: CueEntry) -> Option<int> {
    first_where(s.scene_configs@, scene_with_id(entry.scene_internal_id))
}

pub open spec fn spec_entry_name(s: AppViewState, entry: CueEntry) -> Seq<char> {
    match spec_entry_scene(s, entry) {
        Some(i) => s.scene_configs@[i].scene_name@,
        None => "Missing scene"@,
    }
}

pub open spec fn spec_entry_tone(current: bool, cued: bool, missing: bool) -> EntryTone {
    if current {
        EntryTone::Current
    } else if cued {
        EntryTone::Cued
    } else if missing {
        EntryTone::Warning
    } else {
        EntryTone::Primary
    }
}

pub open spec fn spec_entry_border(current: bool, cued: bool, selected: bool, missing: bool) -> EntryBorder {
    if current {
        EntryBorder::Current
    } else if cued {
        EntryBorder::Cued
    } else if selected {
        EntryBorder::Selected
    } else if missing {
        EntryBorder::Warning
    } else {
        EntryBorder::Plain
    }
}

fn labelled(verb: &str, number: &String, name: &String) -> (s: String)
    ensures
        s@ == verb@ + " cue "@ + number@ + ": "@ + name@,
{
    let mut s = String::from_str(verb);
    s.append(" cue ");
    s.append(number.as_str());
    s.append(": ");
    s.append(name.as_str());
    s
}

/// The row of the entry at `index` of the active list: the scene it recalls
/// (or "Missing scene"), whether that scene is the console's current one, whether
/// the entry is cued or selected, and the labels of its select and remove
/// buttons, which number cues from one.
pub fn cue_entry_row(
    snapshot: &AppViewState,
    entry: &CueEntry,
    index: usize,
    current_scene: Option<&SceneSummary>,
    selected_entry_id: Option<u128>,
) -> (row: CueEntryRow)
    requires
        index < u64::MAX,
    ensures
        row.missing == spec_entry_scene(*snapshot, *entry) is None,
        row.current == match spec_entry_scene(*snapshot, *entry) {
            Some(i) => spec_is_current(
                snapshot.scene_configs@[i],
                match current_scene {
                    Some(c) => Some(*c),
                    None => None,
                },
            ),
            None => false,
        },
        row.cued == match snapshot.cued_cue_entry_id {
            Some(cued) => cued@ == hyphenated_uuid(entry.id),
            None => false,
        },
        row.selected == (selected_entry_id == Some(entry.id)),
        row.display_name@ == spec_entry_name(*snapshot, *entry),
        row.tone == spec_entry_tone(row.current, row.cued, row.missing),
        row.border == spec_entry_border(row.current, row.cued, row.selected, row.missing),
        row.marked == (row.current || row.cued || row.selected || row.missing),
        row.select_label@ == "Select cue "@ + decimal((index + 1) as nat) + ": "@ + spec_entry_name(
            *snapshot,
            *entry,
        ),
        row.remove_label@ == "Remove cue "@ + decimal((index + 1) as nat) + ": "@ + spec_entry_name(
            *snapshot,
            *entry,
        ),
{
    let scene = scene_by_id(snapshot, entry.scene_internal_id);
    let missing = scene.is_none();
    let current = match scene {
        Some(scene) => is_current(scene, current_scene),
        None => false,
    };
    let cued = match &snapshot.cued_cue_entry_id {
        Some(cued) => id_matches(entry.id, cued),
        None => false,
    };
    let selected = selected_entry_id == Some(entry.id);
    let display_name = match scene {
        Some(scene) => scene.scene_name.clone(),
        None => String::from_str("Missing scene"),
    };
    let tone = if current {
        EntryTone::Current
    } else if cued {
        EntryTone::Cued
    } else if missing {
        EntryTone::Warning
    } else {
        EntryTone::Primary
    };
    let border = if current {
        EntryBorder::Current
    } else if cued {
        EntryBorder::Cued
    } else if selected {
        EntryBorder::Selected
    } else if missing {
        EntryBorder::Warning
    } else {
        EntryBorder::Plain
    };
    let number: u64 = index as u64 + 1;
    let number_text = decimal_text(number);
    let select_label = labelled("Select", &number_text, &display_name);
    let remove_label = labelled("Remove", &number_text, &display_name);
    proof {
        reveal_strlit("Select");
        reveal_strlit("Remove");
        reveal_strlit(" cue ");
        reveal_strlit("Select cue ");
        reveal_strlit("Remove cue ");
        assert(select_label@ =~= "Select cue "@ + decimal((index + 1) as nat) + ": "@ + display_name@);
        assert(remove_label@ =~= "Remove cue "@ + decimal((index + 1) as nat) + ": "@ + display_name@);
    }
    CueEntryRow {
        display_name,
        current,
        cued,
        selected,
        missing,
        tone,
        border,
        marked: current || cued || selected || missing,
        select_label,
        remove_label,
    }
}

} // verus!
