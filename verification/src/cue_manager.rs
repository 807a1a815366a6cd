//! The interaction state of the cue-list view: the selected cue, the cue-list
//! manager with its nested name editor and delete confirmation, and the one
//! manager command that may be pending.
use vstd::prelude::*;
use crate::cues::{active_cue_list, manager_controls_inert, spec_active_list, ManageCommand, NameEditor};
use crate::ids::{hyphenated_uuid, id_matches};
use crate::lookup::{first_where, lemma_first_where_prefix, lemma_first_where_step};
use crate::view_state::{AppViewState, CueEntry, CueList};

verus! {

/// What the view does with keyboard focus after a transition.
#[derive(Clone, Copy, Debug, PartialEq, Eq, Structural)]
pub enum ManagerFocus {
    Unchanged,
    /// Return focus to the manager after a nested editor closed.
    FocusManager,
    /// The manager closed: restore the focus it was opened from.
    CloseManager,
}

/// The selection and cue-list manager state of the cue-list view.
#[derive(Clone, Copy, Debug)]
pub struct CueManagerState {
    pub selected_entry_id: Option<u128>,
    pub manage_open: bool,
    pub name_editor: Option<NameEditor>,
    pub pending_delete: Option<u128>,
    pub pending_manage_command: Option<(u64, ManageCommand)>,
}

/// The entry is in the active cue list of the snapshot.
pub open spec fn in_active_list(s: AppViewState, entry_id: u128) -> bool {
    match spec_active_list(s) {
        None => false,
        Some(i) => exists|j: int|
            0 <= j < s.cue_lists@[i].entries@.len() && #[trigger] s.cue_lists@[i].entries@[j].id
                == entry_id,
    }
}

/// The snapshot has a cue list with this identifier.
pub open spec fn list_exists(s: AppViewState, list_id: u128) -> bool {
    exists|j: int| 0 <= j < s.cue_lists@.len() && #[trigger] s.cue_lists@[j].id == list_id
}

fn entries_contain(entries: &Vec<CueEntry>, id: u128) -> (r: bool)
    ensures
        r == exists|j: int| 0 <= j < entries@.len() && #[trigger] entries@[j].id == id,
{
    let mut i: usize = 0;
    while i < entries.len()
        invariant
            i <= entries@.len(),
            forall|j: int| 0 <= j < i ==> entries@[j].id != id,
        decreases entries@.len() - i,
    {
        if entries[i].id == id {
            return true;
        }
        i = i + 1;
    }
    false
}

fn lists_contain(lists: &Vec<CueList>, id: u128) -> (r: bool)
    ensures
        r == exists|j: int| 0 <= j < lists@.len() && #[trigger] lists@[j].id == id,
{
    let mut i: usize = 0;
    while i < lists.len()
        invariant
            i <= lists@.len(),
            forall|j: int| 0 <= j < i ==> lists@[j].id != id,
        decreases lists@.len() - i,
    {
        if lists[i].id == id {
            return true;
        }
        i = i + 1;
    }
    false
}

/// Whether an entry is in the active cue list of the snapshot.
pub fn entry_in_active_list(snapshot: &AppViewState, entry_id: u128) -> (r: bool)
    ensures
        r == in_active_list(*snapshot, entry_id),
{
    match active_cue_list(snapshot) {
        Some(list) => entries_contain(&list.entries, entry_id),
        None => false,
    }
}

/// Escape inside the manager: a pending command keeps everything; otherwise
/// the delete confirmation closes first, then the name editor, then the
/// manager itself. Returns whether the key was handled.
pub open spec fn spec_dismiss(s: CueManagerState) -> (CueManagerState, bool, ManagerFocus) {
    if !s.manage_open {
        (s, false, ManagerFocus::Unchanged)
    } else if s.pending_manage_command is Some {
        (s, true, ManagerFocus::Unchanged)
    } else if s.pending_delete is Some {
        (CueManagerState { pending_delete: None, ..s }, true, ManagerFocus::FocusManager)
    } else if s.name_editor is Some {
        (CueManagerState { name_editor: None, ..s }, true, ManagerFocus::FocusManager)
    } else {
        (CueManagerState { manage_open: false, ..s }, true, ManagerFocus::CloseManager)
    }
}

/// A new snapshot drops a selection that left the active list, a delete
/// confirmation or rename for a list that is gone; when that closed the last
/// nested editor of an open manager, focus returns to the manager.
pub open spec fn spec_set_snapshot(s: CueManagerState, snapshot: AppViewState) -> (
    CueManagerState,
    bool,
) {
    let nested_was_open = s.pending_delete is Some || s.name_editor is Some;
    let selected = match s.selected_entry_id {
        Some(id) => if in_active_list(snapshot, id) {
            Some(id)
        } else {
            None
        },
        None => None,
    };
    let pending_delete = match s.pending_delete {
        Some(id) => if list_exists(snapshot, id) {
            Some(id)
        } else {
            None
        },
        None => None,
    };
    let name_editor = match s.name_editor {
        Some(NameEditor::Rename(id)) => if list_exists(snapshot, id) {
            s.name_editor
        } else {
            None
        },
        other => other,
    };
    let next = CueManagerState {
        selected_entry_id: selected,
        pending_delete,
        name_editor,
        ..s
    };
    (next, s.manage_open && nested_was_open && pending_delete is None && name_editor is None)
}

/// The completion of the pending manager command (and only of it) clears it;
/// on success a matching name editor or delete confirmation closes, and
/// activating a list closes the manager.
pub open spec fn spec_command_finished(s: CueManagerState, command_id: u64, failed: bool) -> (
    CueManagerState,
    ManagerFocus,
) {
    match s.pending_manage_command {
        None => (s, ManagerFocus::Unchanged),
        Some((pending_id, command)) => if pending_id != command_id {
            (s, ManagerFocus::Unchanged)
        } else {
            let cleared = CueManagerState { pending_manage_command: None, ..s };
            if failed {
                (cleared, ManagerFocus::Unchanged)
            } else {
                match command {
                    ManageCommand::Name(editor) => if s.name_editor == Some(editor) {
                        (CueManagerState { name_editor: None, ..cleared }, ManagerFocus::FocusManager)
                    } else {
                        (cleared, ManagerFocus::Unchanged)
                    },
                    ManageCommand::Delete(id) => if s.pending_delete == Some(id) {
                        (CueManagerState { pending_delete: None, ..cleared }, ManagerFocus::FocusManager)
                    } else {
                        (cleared, ManagerFocus::Unchanged)
                    },
                    ManageCommand::Activate => (
                        CueManagerState { manage_open: false, ..cleared },
                        ManagerFocus::CloseManager,
                    ),
                    ManageCommand::Reorder => (cleared, ManagerFocus::Unchanged),
                }
            }
        },
    }
}

impl CueManagerState {
    /// Nothing selected, manager closed.
    pub fn new() -> (s: Self)
        ensures
            s == (CueManagerState {
                selected_entry_id: None,
                manage_open: false,
                name_editor: None,
                pending_delete: None,
                pending_manage_command: None,
            }),
    {
        CueManagerState {
            selected_entry_id: None,
            manage_open: false,
            name_editor: None,
            pending_delete: None,
            pending_manage_command: None,
        }
    }

    pub fn dismiss_modal(&mut self) -> (r: (bool, ManagerFocus))
        ensures
            (*final(self), r.0, r.1) == spec_dismiss(*old(self)),
    {
        if !self.manage_open {
            return (false, ManagerFocus::Unchanged);
        }
        if self.pending_manage_command.is_some() {
            return (true, ManagerFocus::Unchanged);
        }
        if self.pending_delete.is_some() {
            self.pending_delete = None;
            return (true, ManagerFocus::FocusManager);
        }
        if self.name_editor.is_some() {
            self.name_editor = None;
            return (true, ManagerFocus::FocusManager);
        }
        self.manage_open = false;
        (true, ManagerFocus::CloseManager)
    }

    /// Returns whether focus goes back to the manager.
    pub fn set_snapshot(&mut self, snapshot: &AppViewState) -> (refocus: bool)
        ensures
            (*final(self), refocus) == spec_set_snapshot(*old(self), *snapshot),
    {
        let nested_was_open = self.pending_delete.is_some() || self.name_editor.is_some();
        match self.selected_entry_id {
            Some(id) => {
                if !entry_in_active_list(snapshot, id) {
                    self.selected_entry_id = None;
                }
            },
            None => {},
        }
        match self.pending_delete {
            Some(id) => {
                if !lists_contain(&snapshot.cue_lists, id) {
                    self.pending_delete = None;
                }
            },
            None => {},
        }
        match self.name_editor {
            Some(NameEditor::Rename(id)) => {
                if !lists_contain(&snapshot.cue_lists, id) {
                    self.name_editor = None;
                }
            },
            _ => {},
        }
        self.manage_open && nested_was_open && self.pending_delete.is_none()
            && self.name_editor.is_none()
    }

    pub fn command_finished(&mut self, command_id: u64, failed: bool) -> (focus: ManagerFocus)
        ensures
            (*final(self), focus) == spec_command_finished(*old(self), command_id, failed),
    {
        let (pending_id, command) = match self.pending_manage_command {
            Some(pending) => pending,
            None => {
                return ManagerFocus::Unchanged;
            },
        };
        if pending_id != command_id {
            return ManagerFocus::Unchanged;
        }
        self.pending_manage_command = None;
        if failed {
            return ManagerFocus::Unchanged;
        }
        match command {
            ManageCommand::Name(editor) => {
                if self.name_editor == Some(editor) {
                    self.name_editor = None;
                    ManagerFocus::FocusManager
                } else {
                    ManagerFocus::Unchanged
                }
            },
            ManageCommand::Delete(id) => {
                if self.pending_delete == Some(id) {
                    self.pending_delete = None;
                    ManagerFocus::FocusManager
                } else {
                    ManagerFocus::Unchanged
                }
            },
            ManageCommand::Activate => {
                self.manage_open = false;
                ManagerFocus::CloseManager
            },
            ManageCommand::Reorder => ManagerFocus::Unchanged,
        }
    }

    /// The name edit to dispatch on Enter: none while a manager command is
    /// pending or when no editor is open.
    pub fn name_submission(&self) -> (r: Option<NameEditor>)
        ensures
            r == (if self.pending_manage_command is Some {
                None
            } else {
                self.name_editor
            }),
    {
        if self.pending_manage_command.is_some() {
            None
        } else {
            self.name_editor
        }
    }

    /// Records the command that carries a manager action.
    pub fn manage_command_started(&mut self, command_id: u64, command: ManageCommand)
        ensures
            *final(self) == (CueManagerState {
                pending_manage_command: Some((command_id, command)),
                ..*old(self)
            }),
    {
        self.pending_manage_command = Some((command_id, command));
    }

    /// CUE with a selection: the selected entry is cued when it is still in the
    /// active list; otherwise the stale selection is dropped. Returns the entry
    /// to cue.
    pub fn cue_selected(&mut self, snapshot: &AppViewState) -> (r: Option<u128>)
        ensures
            match old(self).selected_entry_id {
                None => r is None && *final(self) == *old(self),
                Some(id) => *final(self) == (CueManagerState { selected_entry_id: None, ..*old(self) })
                    && r == (if in_active_list(*snapshot, id) {
                    Some(id)
                } else {
                    None
                }),
            },
    {
        let id = match self.selected_entry_id {
            Some(id) => id,
            None => {
                return None;
            },
        };
        self.selected_entry_id = None;
        if entry_in_active_list(snapshot, id) {
            Some(id)
        } else {
            None
        }
    }

    /// Cue a clicked entry: only an entry of the active list is cued, and it
    /// clears the selection. Returns whether to dispatch the cue.
    pub fn cue(&mut self, snapshot: &AppViewState, entry_id: u128) -> (dispatch: bool)
        ensures
            dispatch == in_active_list(*snapshot, entry_id),
            dispatch ==> *final(self) == (CueManagerState { selected_entry_id: None, ..*old(self) }),
            !dispatch ==> *final(self) == *old(self),
    {
        if !entry_in_active_list(snapshot, entry_id) {
            return false;
        }
        self.selected_entry_id = None;
        true
    }
}

/// While a manager command is pending, Escape never closes the manager or an
/// editor; only the command's own completion can.
pub proof fn law_pending_command_keeps_the_manager(s: CueManagerState, other_id: u64, failed: bool)
    requires
        s.pending_manage_command matches Some((id, _)) && id != other_id,
    ensures
        spec_dismiss(s).0 == s,
        spec_command_finished(s, other_id, failed).0 == s,
{
}

/// After a snapshot, the view never keeps a selection outside the active
/// list, nor a delete confirmation or rename for a list that no longer exists.
pub proof fn law_snapshot_prunes_stale_references(s: CueManagerState, snapshot: AppViewState)
    ensures
        ({
            let next = spec_set_snapshot(s, snapshot).0;
            &&& next.selected_entry_id matches Some(id) ==> in_active_list(snapshot, id)
            &&& next.pending_delete matches Some(id) ==> list_exists(snapshot, id)
            &&& next.name_editor matches Some(NameEditor::Rename(id)) ==> list_exists(snapshot, id)
            &&& next.manage_open == s.manage_open
            &&& next.pending_manage_command == s.pending_manage_command
        }),
{
}

/// Manager controls are inert while a nested editor is open or a command is pending.
pub open spec fn spec_inert(s: CueManagerState) -> bool {
    s.name_editor is Some || s.pending_delete is Some || s.pending_manage_command is Some
}

pub open spec fn list_with_id(id: u128) -> spec_fn(CueList) -> bool {
    |l: CueList| l.id == id
}

/// The name a rename starts from: the first list with the identifier, or empty.
pub open spec fn spec_list_name(lists: Seq<CueList>, id: u128) -> Seq<char> {
    match first_where(lists, list_with_id(id)) {
        Some(i) => lists[i].name@,
        None => Seq::empty(),
    }
}

fn list_name(lists: &Vec<CueList>, id: u128) -> (r: String)
    ensures
        r@ == spec_list_name(lists@, id),
{
    let mut i: usize = 0;
    while i < lists.len()
        invariant
            i <= lists@.len(),
            first_where(lists@.take(i as int), list_with_id(id)) is None,
        decreases lists@.len() - i,
    {
        proof {
            lemma_first_where_step(lists@, list_with_id(id), i as int);
        }
        if lists[i].id == id {
            proof {
                lemma_first_where_prefix(lists@, list_with_id(id), i + 1);
            }
            return lists[i].name.clone();
        }
        i = i + 1;
    }
    proof {
        lemma_first_where_prefix(lists@, list_with_id(id), i as int);
    }
    String::new()
}

/// What a click on a cue list's name in the manager does.
#[derive(Clone, Copy, Debug, PartialEq, Eq, Structural)]
pub enum ListClick {
    /// The manager is inert: nothing happens.
    Ignored,
    /// Dispatch activating the list (then record it with `manage_command_started`).
    Activate,
    /// The list is already active: the manager closes.
    Close,
}

impl CueManagerState {
    /// A click on a list's name activates it, or closes the manager when it is
    /// the active list already; while the manager is inert it does nothing.
    pub fn click_list(&mut self, snapshot: &AppViewState, list_id: u128) -> (r: ListClick)
        ensures
            spec_inert(*old(self)) ==> r == ListClick::Ignored && *final(self) == *old(self),
            !spec_inert(*old(self)) && (snapshot.active_cue_list_id matches Some(t) && t@
                == hyphenated_uuid(list_id)) ==> r == ListClick::Close && *final(self) == (
            CueManagerState { manage_open: false, ..*old(self) }),
            !spec_inert(*old(self)) && !(snapshot.active_cue_list_id matches Some(t) && t@
                == hyphenated_uuid(list_id)) ==> r == ListClick::Activate && *final(self)
                == *old(self),
    {
        if manager_controls_inert(self.name_editor, self.pending_delete, self.pending_manage_command) {
            return ListClick::Ignored;
        }
        let active = match &snapshot.active_cue_list_id {
            Some(t) => id_matches(list_id, t),
            None => false,
        };
        if active {
            self.manage_open = false;
            ListClick::Close
        } else {
            ListClick::Activate
        }
    }

    /// RENAME opens the name editor on the list, prefilled with its name, and
    /// drops a pending delete confirmation; while the manager is inert it does
    /// nothing (`None`).
    pub fn start_rename(&mut self, snapshot: &AppViewState, list_id: u128) -> (r: Option<String>)
        ensures
            spec_inert(*old(self)) ==> r is None && *final(self) == *old(self),
            !spec_inert(*old(self)) ==> (r matches Some(name) && name@ == spec_list_name(
                snapshot.cue_lists@,
                list_id,
            )) && *final(self) == (CueManagerState {
                name_editor: Some(NameEditor::Rename(list_id)),
                pending_delete: None,
                ..*old(self)
            }),
    {
        if manager_controls_inert(self.name_editor, self.pending_delete, self.pending_manage_command) {
            return None;
        }
        self.name_editor = Some(NameEditor::Rename(list_id));
        self.pending_delete = None;
        Some(list_name(&snapshot.cue_lists, list_id))
    }

    /// DELETE asks for confirmation of deleting the list and closes the name
    /// editor; while the manager is inert it does nothing (`false`).
    pub fn start_delete(&mut self, list_id: u128) -> (started: bool)
        ensures
            started == !spec_inert(*old(self)),
            !started ==> *final(self) == *old(self),
            started ==> *final(self) == (CueManagerState {
                pending_delete: Some(list_id),
                name_editor: None,
                ..*old(self)
            }),
    {
        if manager_controls_inert(self.name_editor, self.pending_delete, self.pending_manage_command) {
            return false;
        }
        self.pending_delete = Some(list_id);
        self.name_editor = None;
        true
    }

    /// NEW CUE LIST opens an empty name editor for a new list; while the manager
    /// is inert it does nothing (`false`).
    pub fn start_create(&mut self) -> (started: bool)
        ensures
            started == !spec_inert(*old(self)),
            !started ==> *final(self) == *old(self),
            started ==> *final(self) == (CueManagerState {
                name_editor: Some(NameEditor::Create),
                ..*old(self)
            }),
    {
        if manager_controls_inert(self.name_editor, self.pending_delete, self.pending_manage_command) {
            return false;
        }
        self.name_editor = Some(NameEditor::Create);
        true
    }

    /// CLOSE closes the manager unless it is inert; returns whether it closed.
    pub fn close_button(&mut self) -> (closed: bool)
        ensures
            closed == !spec_inert(*old(self)),
            !closed ==> *final(self) == *old(self),
            closed ==> *final(self) == (CueManagerState { manage_open: false, ..*old(self) }),
    {
        if manager_controls_inert(self.name_editor, self.pending_delete, self.pending_manage_command) {
            return false;
        }
        self.manage_open = false;
        true
    }
}

} // verus!
