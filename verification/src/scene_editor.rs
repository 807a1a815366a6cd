//! The interaction state of the scene editor: the duration field and its
//! pending command, the chosen link target, and the overwrite confirmation.
use vstd::prelude::*;
use crate::cues::spec_selected_scene;
use crate::scenes::{
    default_link_target, duration_step_requires_dispatch, index_linked, is_linked,
    preserve_pending_duration_draft, selected_scene, spec_default_link_target, spec_step_duration,
    stepped_duration,
};
use crate::view_state::{AppViewState, SceneSummary};

verus! {

/// A link that would replace the settings already linked to a console scene,
/// waiting for confirmation.
#[derive(Clone, Debug, PartialEq, Eq)]
pub struct PendingOverwrite {
    pub source_id: u128,
    pub target_index: i32,
    pub target_name: String,
}

/// The scene editor's state beside the projected snapshot.
pub struct SceneEditorState {
    /// The selected scene and its projected duration, as last shown.
    pub duration_identity: Option<(u128, u64)>,
    /// A duration command: its identifier, scene and requested duration.
    pub pending_duration_command: Option<(u64, u128, u64)>,
    pub selected_link_target: Option<i32>,
    pub pending_overwrite: Option<PendingOverwrite>,
    /// Bumped by each edit of the duration field.
    pub duration_edit_revision: u64,
}

pub struct SceneEditorView {
    pub duration_identity: Option<(u128, u64)>,
    pub pending_duration_command: Option<(u64, u128, u64)>,
    pub selected_link_target: Option<i32>,
    pub pending_overwrite: Option<(u128, i32, Seq<char>)>,
    pub duration_edit_revision: u64,
}

impl View for SceneEditorState {
    type V = SceneEditorView;

    open spec fn view(&self) -> SceneEditorView {
        SceneEditorView {
            duration_identity: self.duration_identity,
            pending_duration_command: self.pending_duration_command,
            selected_link_target: self.selected_link_target,
            pending_overwrite: match self.pending_overwrite {
                Some(p) => Some((p.source_id, p.target_index, p.target_name@)),
                None => None,
            },
            duration_edit_revision: self.duration_edit_revision,
        }
    }
}

/// What the view does after a snapshot: reset the duration field to a value,
/// and give focus back after the overwrite confirmation closed.
#[derive(Clone, Copy, Debug, PartialEq, Eq, Structural)]
pub struct SnapshotEffects {
    pub reset_duration_to: Option<u64>,
    pub restore_overwrite_focus: bool,
}

/// The selected scene and its duration.
pub open spec fn selected_identity(s: AppViewState) -> Option<(u128, u64)> {
    match spec_selected_scene(s) {
        Some(i) => Some((s.scene_configs@[i].internal_scene_id, s.scene_configs@[i].duration_ms)),
        None => None,
    }
}

pub open spec fn scene_of(identity: Option<(u128, u64)>) -> Option<u128> {
    match identity {
        Some((id, _)) => Some(id),
        None => None,
    }
}

/// The console lists a scene with this index.
pub open spec fn index_listed(s: AppViewState, index: Option<i32>) -> bool {
    exists|j: int| 0 <= j < s.scenes@.len() && Some(#[trigger] s.scenes@[j].index) == index
}

/// The console lists exactly this scene (index and name).
pub open spec fn exact_scene_listed(s: AppViewState, index: i32, name: Seq<char>) -> bool {
    exists|j: int|
        0 <= j < s.scenes@.len() && #[trigger] s.scenes@[j].index == index && s.scenes@[j].name@
            == name
}

/// A pending overwrite stays valid while its source is still selected and its
/// exact target scene is still listed.
pub open spec fn overwrite_still_valid(s: AppViewState, p: (u128, i32, Seq<char>)) -> bool {
    scene_of(selected_identity(s)) == Some(p.0) && exact_scene_listed(s, p.1, p.2)
}

/// A snapshot: a duration command whose result is now projected is done; the
/// field follows a changed selection or projected duration unless a newer
/// pending draft of the same scene is shown; a changed selection drops the
/// pending command and reselects the default link target, as does a link
/// target that the console no longer lists; an overwrite confirmation stays
/// only while it is still valid.
pub open spec fn spec_set_snapshot(v: SceneEditorView, s: AppViewState) -> (
    SceneEditorView,
    SnapshotEffects,
) {
    let prev_scene = scene_of(v.duration_identity);
    let next_identity = selected_identity(s);
    let next_scene = scene_of(next_identity);
    let preserve = match (v.pending_duration_command, next_identity) {
        (Some((_, ps, pt)), Some((sid, d))) => sid == ps && d != pt,
        _ => false,
    };
    let pending = match v.pending_duration_command {
        Some((c, sid, t)) => if next_identity == Some((sid, t)) || prev_scene != next_scene {
            None
        } else {
            v.pending_duration_command
        },
        None => None,
    };
    let reset = if next_identity != v.duration_identity && !preserve {
        Some(
            match next_identity {
                Some((_, d)) => d,
                None => 0,
            },
        )
    } else {
        None
    };
    let link = if prev_scene != next_scene || !index_listed(s, v.selected_link_target) {
        spec_default_link_target(s)
    } else {
        v.selected_link_target
    };
    let overwrite = match v.pending_overwrite {
        Some(p) => if overwrite_still_valid(s, p) {
            Some(p)
        } else {
            None
        },
        None => None,
    };
    (
        SceneEditorView {
            duration_identity: next_identity,
            pending_duration_command: pending,
            selected_link_target: link,
            pending_overwrite: overwrite,
            duration_edit_revision: v.duration_edit_revision,
        },
        SnapshotEffects {
            reset_duration_to: reset,
            restore_overwrite_focus: v.pending_overwrite is Some && overwrite is None,
        },
    )
}

/// What committing the typed duration does.
#[derive(Clone, Copy, Debug, PartialEq, Eq, Structural)]
pub enum DurationCommit {
    /// No scene is selected.
    NoScene,
    /// Show this duration again in the field.
    Reset(u64),
    /// Set the scene's duration, then show the new value.
    Dispatch { scene_id: u128, duration_ms: u64 },
}

/// One press of a duration step button.
#[derive(Clone, Copy, Debug, PartialEq, Eq, Structural)]
pub struct DurationStep {
    pub scene_id: u128,
    pub next_ms: u64,
    pub dispatch: bool,
}

/// What the link button does.
#[derive(Clone, Copy, Debug, PartialEq, Eq, Structural)]
pub enum LinkRequest {
    Nothing,
    /// The target already has linked settings: ask before replacing them.
    ConfirmOverwrite,
    Dispatch { source_id: u128, target_index: i32 },
}

/// A link command to dispatch.
#[derive(Clone, Copy, Debug, PartialEq, Eq, Structural)]
pub struct LinkDispatch {
    pub source_id: u128,
    pub target_index: i32,
    pub overwrite: bool,
}

fn selected_identity_of(snapshot: &AppViewState) -> (r: Option<(u128, u64)>)
    ensures
        r == selected_identity(*snapshot),
{
    match selected_scene(snapshot) {
        Some(scene) => Some((scene.internal_scene_id, scene.duration_ms)),
        None => None,
    }
}

fn index_listed_in(snapshot: &AppViewState, index: Option<i32>) -> (r: bool)
    ensures
        r == index_listed(*snapshot, index),
{
    let mut i: usize = 0;
    while i < snapshot.scenes.len()
        invariant
            i <= snapshot.scenes@.len(),
            forall|j: int| 0 <= j < i ==> Some(#[trigger] snapshot.scenes@[j].index) != index,
        decreases snapshot.scenes@.len() - i,
    {
        if Some(snapshot.scenes[i].index) == index {
            return true;
        }
        i = i + 1;
    }
    false
}

fn exact_scene_listed_in(snapshot: &AppViewState, index: i32, name: &String) -> (r: bool)
    ensures
        r == exact_scene_listed(*snapshot, index, name@),
{
    let mut i: usize = 0;
    while i < snapshot.scenes.len()
        invariant
            i <= snapshot.scenes@.len(),
            forall|j: int|
                0 <= j < i ==> !(#[trigger] snapshot.scenes@[j].index == index && snapshot.scenes@[j].name@
                    == name@),
        decreases snapshot.scenes@.len() - i,
    {
        if snapshot.scenes[i].index == index && snapshot.scenes[i].name == *name {
            return true;
        }
        i = i + 1;
    }
    false
}

fn find_listed(snapshot: &AppViewState, index: Option<i32>) -> (r: Option<&SceneSummary>)
    ensures
        match r {
            Some(scene) => Some(scene.index) == index && exists|j: int|
                0 <= j < snapshot.scenes@.len() && snapshot.scenes@[j] == *scene
                && forall|k: int| 0 <= k < j ==> Some(#[trigger] snapshot.scenes@[k].index) != index,
            None => !index_listed(*snapshot, index),
        },
{
    let mut i: usize = 0;
    while i < snapshot.scenes.len()
        invariant
            i <= snapshot.scenes@.len(),
            forall|j: int| 0 <= j < i ==> Some(#[trigger] snapshot.scenes@[j].index) != index,
        decreases snapshot.scenes@.len() - i,
    {
        if Some(snapshot.scenes[i].index) == index {
            return Some(&snapshot.scenes[i]);
        }
        i = i + 1;
    }
    None
}

/// The first listed console scene with the chosen link target's index.
pub open spec fn link_target_scene(s: AppViewState, index: Option<i32>) -> Option<int> {
    if index_listed(s, index) {
        Some(
            choose|j: int|
                0 <= j < s.scenes@.len() && Some(s.scenes@[j].index) == index && forall|k: int|
                    0 <= k < j ==> Some(#[trigger] s.scenes@[k].index) != index,
        )
    } else {
        None
    }
}

impl SceneEditorState {
    /// The editor for a snapshot: its selected scene's duration, no pending
    /// command, the default link target, no confirmation.
    pub fn new(snapshot: &AppViewState) -> (s: Self)
        ensures
            s@ == (SceneEditorView {
                duration_identity: selected_identity(*snapshot),
                pending_duration_command: None,
                selected_link_target: spec_default_link_target(*snapshot),
                pending_overwrite: None,
                duration_edit_revision: 0,
            }),
    {
        SceneEditorState {
            duration_identity: selected_identity_of(snapshot),
            pending_duration_command: None,
            selected_link_target: default_link_target(snapshot),
            pending_overwrite: None,
            duration_edit_revision: 0,
        }
    }

    /// The overwrite confirmation is the editor's modal.
    pub fn modal_open(&self) -> (r: bool)
        ensures
            r == self.pending_overwrite is Some,
    {
        self.pending_overwrite.is_some()
    }

    /// Escape closes the overwrite confirmation; returns whether one was open.
    pub fn dismiss_modal(&mut self) -> (closed: bool)
        ensures
            closed == old(self).pending_overwrite is Some,
            final(self)@ == (SceneEditorView { pending_overwrite: None, ..old(self)@ }),
    {
        let was_open = self.pending_overwrite.is_some();
        self.pending_overwrite = None;
        was_open
    }

    pub fn set_snapshot(&mut self, snapshot: &AppViewState) -> (effects: SnapshotEffects)
        ensures
            (final(self)@, effects) == spec_set_snapshot(old(self)@, *snapshot),
    {
        let previous_scene = match self.duration_identity {
            Some((id, _)) => Some(id),
            None => None,
        };
        let next_identity = selected_identity_of(snapshot);
        let next_scene = match next_identity {
            Some((id, _)) => Some(id),
            None => None,
        };
        let preserve = preserve_pending_duration_draft(
            match self.pending_duration_command {
                Some((_, scene_id, target)) => Some((scene_id, target)),
                None => None,
            },
            next_identity,
        );
        match self.pending_duration_command {
            Some((_, scene_id, target)) => {
                if next_identity == Some((scene_id, target)) {
                    self.pending_duration_command = None;
                }
            },
            None => {},
        }
        let mut reset: Option<u64> = None;
        if next_identity != self.duration_identity {
            if !preserve {
                reset = Some(
                    match next_identity {
                        Some((_, d)) => d,
                        None => 0,
                    },
                );
            }
            self.duration_identity = next_identity;
        }
        if previous_scene != next_scene {
            self.pending_duration_command = None;
        }
        if previous_scene != next_scene || !index_listed_in(snapshot, self.selected_link_target) {
            self.selected_link_target = default_link_target(snapshot);
        }
        let was_open = self.pending_overwrite.is_some();
        let keep = match &self.pending_overwrite {
            Some(p) => next_scene == Some(p.source_id) && exact_scene_listed_in(
                snapshot,
                p.target_index,
                &p.target_name,
            ),
            None => false,
        };
        if !keep {
            self.pending_overwrite = None;
        }
        SnapshotEffects {
            reset_duration_to: reset,
            restore_overwrite_focus: was_open && self.pending_overwrite.is_none(),
        }
    }

    /// Enter or blur in the duration field; `normalized` is the typed draft
    /// as milliseconds, `None` when it does not parse.
    pub fn commit_duration(&self, snapshot: &AppViewState, normalized: Option<u64>) -> (r:
        DurationCommit)
        ensures
            r == match selected_identity(*snapshot) {
                None => DurationCommit::NoScene,
                Some((scene_id, projected)) => match normalized {
                    None => DurationCommit::Reset(projected),
                    Some(d) => if d == projected && self.pending_duration_command is None {
                        DurationCommit::Reset(projected)
                    } else {
                        DurationCommit::Dispatch { scene_id, duration_ms: d }
                    },
                },
            },
    {
        let (scene_id, projected) = match selected_identity_of(snapshot) {
            Some(identity) => identity,
            None => {
                return DurationCommit::NoScene;
            },
        };
        match normalized {
            None => DurationCommit::Reset(projected),
            Some(d) => {
                if d == projected && self.pending_duration_command.is_none() {
                    DurationCommit::Reset(projected)
                } else {
                    DurationCommit::Dispatch { scene_id, duration_ms: d }
                }
            },
        }
    }

    /// Records the command that sets a scene's duration.
    pub fn duration_dispatched(&mut self, command_id: u64, scene_id: u128, duration_ms: u64)
        ensures
            final(self)@ == (SceneEditorView {
                pending_duration_command: Some((command_id, scene_id, duration_ms)),
                ..old(self)@
            }),
    {
        self.pending_duration_command = Some((command_id, scene_id, duration_ms));
    }

    /// A step button: from the typed draft (`normalized`) or the projected
    /// duration, one second up or down; it is dispatched when it changes the
    /// duration or a command is pending. Each press counts as an edit.
    pub fn step_duration(&mut self, snapshot: &AppViewState, normalized: Option<u64>, direction: i64) -> (r:
        Option<DurationStep>)
        ensures
            match selected_identity(*snapshot) {
                None => r is None && final(self)@ == old(self)@,
                Some((scene_id, projected)) => {
                    let next = spec_step_duration(
                        match normalized {
                            Some(d) => d,
                            None => projected,
                        },
                        direction,
                    );
                    &&& r == Some(
                        DurationStep {
                            scene_id,
                            next_ms: next,
                            dispatch: next != projected || old(self).pending_duration_command is Some,
                        },
                    )
                    &&& final(self)@ == (SceneEditorView {
                        duration_edit_revision: (if old(self).duration_edit_revision == u64::MAX {
                            0
                        } else {
                            old(self).duration_edit_revision + 1
                        }) as u64,
                        ..old(self)@
                    })
                },
            },
    {
        let (scene_id, projected) = match selected_identity_of(snapshot) {
            Some(identity) => identity,
            None => {
                return None;
            },
        };
        let next = stepped_duration(normalized, projected, direction);
        self.duration_edit_revision = if self.duration_edit_revision == u64::MAX {
            0
        } else {
            self.duration_edit_revision + 1
        };
        let dispatch = duration_step_requires_dispatch(
            next,
            projected,
            self.pending_duration_command.is_some(),
        );
        Some(DurationStep { scene_id, next_ms: next, dispatch })
    }

    /// The completion of the pending duration command: a failure drops it and,
    /// when its scene is still selected, returns the projected duration to show.
    pub fn command_finished(&mut self, snapshot: &AppViewState, command_id: u64, failed: bool) -> (r:
        Option<u64>)
        ensures
            match old(self).pending_duration_command {
                Some((pending_id, scene_id, _)) => if pending_id == command_id && failed {
                    &&& final(self)@ == (SceneEditorView { pending_duration_command: None, ..old(self)@ })
                    &&& r == match selected_identity(*snapshot) {
                        Some((id, d)) => if id == scene_id {
                            Some(d)
                        } else {
                            None
                        },
                        None => None,
                    }
                } else {
                    final(self)@ == old(self)@ && r is None
                },
                None => final(self)@ == old(self)@ && r is None,
            },
    {
        let (pending_id, scene_id) = match self.pending_duration_command {
            Some((pending_id, scene_id, _)) => (pending_id, scene_id),
            None => {
                return None;
            },
        };
        if pending_id != command_id || !failed {
            return None;
        }
        self.pending_duration_command = None;
        match selected_identity_of(snapshot) {
            Some((id, d)) => if id == scene_id {
                Some(d)
            } else {
                None
            },
            None => None,
        }
    }

    /// The link button: a target that already has linked settings asks for
    /// confirmation first.
    pub fn request_link(&mut self, snapshot: &AppViewState) -> (r: LinkRequest)
        ensures
            match (scene_of(selected_identity(*snapshot)), link_target_scene(*snapshot, old(self).selected_link_target)) {
                (Some(source_id), Some(j)) => {
                    let target = snapshot.scenes@[j];
                    if index_linked(snapshot.scene_configs@, target.index) {
                        &&& r == LinkRequest::ConfirmOverwrite
                        &&& final(self)@ == (SceneEditorView {
                            pending_overwrite: Some((source_id, target.index, target.name@)),
                            ..old(self)@
                        })
                    } else {
                        &&& r == (LinkRequest::Dispatch { source_id, target_index: target.index })
                        &&& final(self)@ == old(self)@
                    }
                },
                _ => r == LinkRequest::Nothing && final(self)@ == old(self)@,
            },
    {
        let source_id = match selected_identity_of(snapshot) {
            Some((id, _)) => id,
            None => {
                return LinkRequest::Nothing;
            },
        };
        let target = match find_listed(snapshot, self.selected_link_target) {
            Some(target) => target,
            None => {
                return LinkRequest::Nothing;
            },
        };
        proof {
            let j = choose|j: int|
                0 <= j < snapshot.scenes@.len() && snapshot.scenes@[j] == *target && forall|k: int|
                    0 <= k < j ==> Some(#[trigger] snapshot.scenes@[k].index) != self.selected_link_target;
            let c = link_target_scene(*snapshot, self.selected_link_target).unwrap();
            assert(c == j) by {
                if c < j {
                    assert(Some(snapshot.scenes@[c].index) != self.selected_link_target);
                } else if j < c {
                    assert(Some(snapshot.scenes@[j].index) != self.selected_link_target);
                }
            }
        }
        if is_linked(&snapshot.scene_configs, target.index) {
            self.pending_overwrite = Some(
                PendingOverwrite {
                    source_id,
                    target_index: target.index,
                    target_name: target.name.clone(),
                },
            );
            return LinkRequest::ConfirmOverwrite;
        }
        LinkRequest::Dispatch { source_id, target_index: target.index }
    }

    /// Confirming the overwrite: the link is dispatched only when its source is
    /// still selected and its exact target is still listed, replacing linked
    /// settings when there are any. Returns the link to dispatch and whether a
    /// confirmation was open (focus then returns).
    pub fn confirm_overwrite(&mut self, snapshot: &AppViewState) -> (r: (Option<LinkDispatch>, bool))
        ensures
            final(self)@ == (SceneEditorView { pending_overwrite: None, ..old(self)@ }),
            r.1 == old(self).pending_overwrite is Some,
            match old(self)@.pending_overwrite {
                None => r.0 is None,
                Some(p) => if overwrite_still_valid(*snapshot, p) {
                    r.0 == Some(
                        LinkDispatch {
                            source_id: p.0,
                            target_index: p.1,
                            overwrite: index_linked(snapshot.scene_configs@, p.1),
                        },
                    )
                } else {
                    r.0 is None
                },
            },
    {
        let mut taken: Option<PendingOverwrite> = None;
        std::mem::swap(&mut taken, &mut self.pending_overwrite);
        let pending = match taken {
            Some(p) => p,
            None => {
                return (None, false);
            },
        };
        let target_exists = exact_scene_listed_in(snapshot, pending.target_index, &pending.target_name);
        let source_exists = match selected_identity_of(snapshot) {
            Some((id, _)) => id == pending.source_id,
            None => false,
        };
        if target_exists && source_exists {
            let conflict = is_linked(&snapshot.scene_configs, pending.target_index);
            (
                Some(
                    LinkDispatch {
                        source_id: pending.source_id,
                        target_index: pending.target_index,
                        overwrite: conflict,
                    },
                ),
                true,
            )
        } else {
            (None, true)
        }
    }
}

/// A snapshot never leaves an overwrite confirmation whose source is no
/// longer selected or whose exact target is gone, and never keeps a duration
/// command across a change of the selected scene.
pub proof fn law_snapshot_drops_stale_editor_work(v: SceneEditorView, s: AppViewState)
    ensures
        ({
            let (next, effects) = spec_set_snapshot(v, s);
            &&& next.pending_overwrite matches Some(p) ==> overwrite_still_valid(s, p)
            &&& scene_of(v.duration_identity) != scene_of(selected_identity(s))
                ==> next.pending_duration_command is None
            &&& next.duration_identity == selected_identity(s)
            &&& effects.restore_overwrite_focus ==> v.pending_overwrite is Some
        }),
{
}

} // verus!
