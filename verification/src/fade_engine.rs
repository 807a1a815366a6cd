//! The fade engine's bookkeeping of active targets: which channel parameters
//! are being animated, for which scene, and whether they are to finish on the
//! next tick; the generation fence on console feedback; the events that
//! recalls, ticks, manual overrides and cancellations publish; and how a
//! recall is admitted and which path it takes. Interpolated
//! values, elapsed fade time and the post-recall readiness wait are not kept
//! here: each operation takes them as arguments (a target's time is up, a
//! report is beyond the override threshold, a readiness wait is pending).
use vstd::prelude::*;
use crate::errors::{error_message, AppCommandError};
use crate::fade::{FadeParameter, FadeSceneIdentity, FadeTargetKey};

verus! {

/// A fact that the engine publishes about a fade.
#[derive(Debug, Clone, PartialEq, Eq)]
pub enum FadeEvent {
    FadeStarted,
    ChannelCompleted { group: i32, channel: i32, parameter: FadeParameter },
    ChannelCancelled { group: i32, channel: i32, parameter: FadeParameter },
    ChannelOverride { group: i32, channel: i32, parameter: FadeParameter },
    FadeCompleted,
    FadeAborted,
    WriteFailed { reason: String },
}

/// How a recall of the scene that already owns active targets behaves.
#[derive(Debug, Clone, Copy, PartialEq, Eq, Structural)]
pub enum SameSceneRecallBehavior {
    /// Finish the scene's active targets on the next tick and install nothing.
    FinishActiveTargets,
    /// Restart the incoming targets and leave the others running.
    OverrideMatchingTargets,
}

/// Why a pending recall-readiness wait was cancelled.
#[derive(Debug, Clone, Copy, PartialEq, Eq, Structural)]
pub enum RecallReadinessCancellation {
    Aborted,
    Disconnected,
    GenerationChanged,
    ActorStopped,
    Superseded,
}

/// What an admitted recall did to the active targets.
#[derive(Debug, Clone, Copy, PartialEq, Eq, Structural)]
pub enum RecallSceneFadeOutcome {
    Started,
    Finishing { target_count: usize },
    Overriding { target_count: usize },
}

/// An active target: the parameter it animates, the scene that owns it, and
/// whether a repeated recall of that scene asked it to finish on the next tick.
#[derive(Debug, PartialEq, Eq)]
pub struct ActiveSlot {
    pub key: FadeTargetKey,
    pub scene: FadeSceneIdentity,
    pub finishing: bool,
}

pub open spec fn same_scene(a: FadeSceneIdentity, b: FadeSceneIdentity) -> bool {
    a.index == b.index && a.name@ == b.name@
}

fn copy_scene(scene: &FadeSceneIdentity) -> (r: FadeSceneIdentity)
    ensures
        r == *scene,
{
    FadeSceneIdentity { index: scene.index, name: scene.name.clone() }
}

fn scenes_equal(a: &FadeSceneIdentity, b: &FadeSceneIdentity) -> (r: bool)
    ensures
        r == same_scene(*a, *b),
{
    a.index == b.index && a.name == b.name
}

impl ActiveSlot {
    /// An equal copy.
    pub fn duplicate(&self) -> (r: Self)
        ensures
            r == *self,
    {
        ActiveSlot { key: self.key, scene: copy_scene(&self.scene), finishing: self.finishing }
    }
}

/// The targets that satisfy `keep`, in order.
pub open spec fn keep_where(s: Seq<ActiveSlot>, keep: spec_fn(FadeTargetKey) -> bool) -> Seq<
    ActiveSlot,
>
    decreases s.len(),
{
    if s.len() == 0 {
        s
    } else {
        let rest = keep_where(s.drop_last(), keep);
        if keep(s.last().key) {
            rest.push(s.last())
        } else {
            rest
        }
    }
}

/// The parameters of the targets that fail `keep`, in order.
pub open spec fn dropped_parameters(s: Seq<ActiveSlot>, keep: spec_fn(FadeTargetKey) -> bool) -> Seq<
    FadeParameter,
>
    decreases s.len(),
{
    if s.len() == 0 {
        Seq::empty()
    } else {
        let rest = dropped_parameters(s.drop_last(), keep);
        if keep(s.last().key) {
            rest
        } else {
            rest.push(s.last().key.parameter)
        }
    }
}

/// No two active targets animate the same parameter of the same channel.
pub open spec fn keys_unique(s: Seq<ActiveSlot>) -> bool {
    forall|i: int, j: int| 0 <= i < j < s.len() ==> s[i].key != s[j].key
}

pub open spec fn has_key(s: Seq<ActiveSlot>, key: FadeTargetKey) -> bool {
    exists|i: int| 0 <= i < s.len() && s[i].key == key
}

pub open spec fn not_key(key: FadeTargetKey) -> spec_fn(FadeTargetKey) -> bool {
    |k: FadeTargetKey| k != key
}

/// The targets without the one animating `key`.
pub open spec fn remove_key(s: Seq<ActiveSlot>, key: FadeTargetKey) -> Seq<ActiveSlot> {
    keep_where(s, not_key(key))
}

/// Keys removed one after the other.
pub open spec fn remove_keys(s: Seq<ActiveSlot>, keys: Seq<FadeTargetKey>) -> Seq<ActiveSlot>
    decreases keys.len(),
{
    if keys.len() == 0 {
        s
    } else {
        remove_key(remove_keys(s, keys.drop_last()), keys.last())
    }
}

proof fn lemma_keep_where_members(s: Seq<ActiveSlot>, keep: spec_fn(FadeTargetKey) -> bool)
    ensures
        keep_where(s, keep).len() <= s.len(),
        forall|j: int|
            0 <= j < keep_where(s, keep).len() ==> keep(#[trigger] keep_where(s, keep)[j].key)
                && s.contains(keep_where(s, keep)[j]),
    decreases s.len(),
{
    if s.len() > 0 {
        lemma_keep_where_members(s.drop_last(), keep);
        let rest = keep_where(s.drop_last(), keep);
        assert forall|j: int| 0 <= j < keep_where(s, keep).len() implies keep(
            #[trigger] keep_where(s, keep)[j].key,
        ) && s.contains(keep_where(s, keep)[j]) by {
            if j < rest.len() {
                assert(keep_where(s, keep)[j] == rest[j]);
                assert(keep(rest[j].key));
                assert(s.drop_last().contains(rest[j]));
                let t = choose|t: int| 0 <= t < s.drop_last().len() && s.drop_last()[t] == rest[j];
                assert(s[t] == rest[j]);
            } else {
                assert(keep_where(s, keep)[j] == s.last());
                assert(s[s.len() - 1] == s.last());
            }
        }
    }
}

proof fn lemma_keep_where_unique(s: Seq<ActiveSlot>, keep: spec_fn(FadeTargetKey) -> bool)
    requires
        keys_unique(s),
    ensures
        keys_unique(keep_where(s, keep)),
    decreases s.len(),
{
    if s.len() > 0 {
        let rest = keep_where(s.drop_last(), keep);
        assert(keys_unique(s.drop_last()));
        lemma_keep_where_unique(s.drop_last(), keep);
        lemma_keep_where_members(s.drop_last(), keep);
        if keep(s.last().key) {
            let r = rest.push(s.last());
            assert forall|i: int, j: int| 0 <= i < j < r.len() implies r[i].key != r[j].key by {
                if j == r.len() - 1 {
                    assert(r[i] == rest[i]);
                    assert(s.drop_last().contains(rest[i]));
                    let t = choose|t: int| 0 <= t < s.drop_last().len() && s.drop_last()[t] == rest[i];
                    assert(s[t] == rest[i]);
                    assert(s[s.len() - 1] == s.last());
                } else {
                    assert(r[i] == rest[i]);
                    assert(r[j] == rest[j]);
                }
            }
        }
    }
}

proof fn lemma_remove_key_absent(s: Seq<ActiveSlot>, key: FadeTargetKey)
    ensures
        !has_key(remove_key(s, key), key),
        remove_key(s, key).len() <= s.len(),
{
    lemma_keep_where_members(s, not_key(key));
    if has_key(remove_key(s, key), key) {
        let i = choose|i: int| 0 <= i < remove_key(s, key).len() && remove_key(s, key)[i].key == key;
        assert(not_key(key)(remove_key(s, key)[i].key));
    }
}

proof fn lemma_remove_key_noop(s: Seq<ActiveSlot>, key: FadeTargetKey)
    requires
        !has_key(s, key),
    ensures
        remove_key(s, key) == s,
    decreases s.len(),
{
    if s.len() > 0 {
        assert(!has_key(s.drop_last(), key)) by {
            if has_key(s.drop_last(), key) {
                let i = choose|i: int| 0 <= i < s.drop_last().len() && s.drop_last()[i].key == key;
                assert(s[i].key == key);
            }
        }
        lemma_remove_key_noop(s.drop_last(), key);
        assert(s[s.len() - 1].key != key);
        assert(s.drop_last().push(s.last()) =~= s);
    }
}

proof fn lemma_remove_keys_unique(s: Seq<ActiveSlot>, keys: Seq<FadeTargetKey>)
    requires
        keys_unique(s),
    ensures
        keys_unique(remove_keys(s, keys)),
        remove_keys(s, keys).len() <= s.len(),
    decreases keys.len(),
{
    if keys.len() > 0 {
        lemma_remove_keys_unique(s, keys.drop_last());
        lemma_keep_where_unique(remove_keys(s, keys.drop_last()), not_key(keys.last()));
        lemma_remove_key_absent(remove_keys(s, keys.drop_last()), keys.last());
    }
}

proof fn lemma_keep_where_step(s: Seq<ActiveSlot>, keep: spec_fn(FadeTargetKey) -> bool, i: int)
    requires
        0 <= i < s.len(),
    ensures
        keep_where(s.take(i + 1), keep) == if keep(s[i].key) {
            keep_where(s.take(i), keep).push(s[i])
        } else {
            keep_where(s.take(i), keep)
        },
        dropped_parameters(s.take(i + 1), keep) == if keep(s[i].key) {
            dropped_parameters(s.take(i), keep)
        } else {
            dropped_parameters(s.take(i), keep).push(s[i].key.parameter)
        },
{
    assert(s.take(i + 1).drop_last() =~= s.take(i));
    assert(s.take(i + 1).last() == s[i]);
}

/// Rebuilds `targets` keeping the targets whose key satisfies `keep_key`
/// (evaluated exactly as the spec predicate), and returns the parameters of
/// the targets that were dropped.
fn retain_keys(
    targets: &mut Vec<ActiveSlot>,
    group: i32,
    channel: i32,
    key: FadeTargetKey,
    pan_family: bool,
) -> (dropped: Vec<FadeParameter>)
    ensures
        final(targets)@ == keep_where(old(targets)@, keep_rule(group, channel, key, pan_family)),
        dropped@ == dropped_parameters(old(targets)@, keep_rule(group, channel, key, pan_family)),
{
    let ghost keep = keep_rule(group, channel, key, pan_family);
    let ghost before = targets@;
    let mut kept: Vec<ActiveSlot> = Vec::new();
    let mut dropped: Vec<FadeParameter> = Vec::new();
    let mut i: usize = 0;
    while i < targets.len()
        invariant
            targets@ == before,
            keep == keep_rule(group, channel, key, pan_family),
            i <= before.len(),
            kept@ == keep_where(before.take(i as int), keep),
            dropped@ == dropped_parameters(before.take(i as int), keep),
        decreases before.len() - i,
    {
        proof {
            lemma_keep_where_step(before, keep, i as int);
        }
        let k = targets[i].key;
        let keeps = if pan_family {
            !(k.group == group && k.channel == channel && k.parameter.is_pan_family())
        } else {
            k != key
        };
        if keeps {
            kept.push(targets[i].duplicate());
        } else {
            dropped.push(k.parameter);
        }
        i = i + 1;
    }
    assert(before.take(before.len() as int) =~= before);
    *targets = kept;
    dropped
}

/// The keep predicate of `retain_keys`: without the pan family of one channel,
/// or without one key.
pub open spec fn keep_rule(group: i32, channel: i32, key: FadeTargetKey, pan_family: bool) -> spec_fn(
    FadeTargetKey,
) -> bool {
    if pan_family {
        not_pan_family_of(group, channel)
    } else {
        not_key(key)
    }
}

pub open spec fn not_pan_family_of(group: i32, channel: i32) -> spec_fn(FadeTargetKey) -> bool {
    |k: FadeTargetKey| !(k.group == group && k.channel == channel && k.parameter.spec_is_pan_family())
}

/// The channel-completion events of `keys`, in order.
pub open spec fn completed_events(keys: Seq<FadeTargetKey>) -> Seq<FadeEvent> {
    keys.map_values(
        |k: FadeTargetKey|
            FadeEvent::ChannelCompleted { group: k.group, channel: k.channel, parameter: k.parameter },
    )
}

/// The cancellation events of `targets`, in order.
pub open spec fn cancelled_events(targets: Seq<ActiveSlot>) -> Seq<FadeEvent> {
    targets.map_values(
        |t: ActiveSlot|
            FadeEvent::ChannelCancelled {
                group: t.key.group,
                channel: t.key.channel,
                parameter: t.key.parameter,
            },
    )
}

/// The cancellation events of the given parameters of one channel, in order.
pub open spec fn cancelled_parameter_events(group: i32, channel: i32, parameters: Seq<FadeParameter>) -> Seq<
    FadeEvent,
> {
    parameters.map_values(
        |p: FadeParameter| FadeEvent::ChannelCancelled { group, channel, parameter: p },
    )
}

/// The engine's bookkeeping: the active targets, whether the tick timer runs,
/// and whether the current idle period has already published its completion.
pub struct FadesView {
    pub targets: Seq<ActiveSlot>,
    pub ticking: bool,
    pub completion_published: bool,
}

/// Console feedback and runtime facts that reach the engine, each carrying
/// the generation it belongs to.
#[derive(Debug, Clone, Copy, PartialEq, Eq, Structural)]
pub enum EngineFeedback {
    /// A fader report; `out_of_threshold` is whether the channel's fader target
    /// judges the reported level a manual move.
    Fader { generation: u64, group: i32, channel: i32, out_of_threshold: bool },
    /// A pan report; `pan_target_confirms` is whether the channel's pan target
    /// has seen enough consecutive reports beyond its threshold.
    Pan { generation: u64, group: i32, channel: i32, pan_target_confirms: bool },
    /// The console connection of a generation was lost.
    Disconnected { generation: u64 },
    /// Another generation became the active one.
    ActiveGenerationChanged { generation: u64 },
}

/// The generation fence: the engine of `engine_generation` acts on fader, pan
/// and disconnect feedback of its own generation only, and stops when a
/// different generation becomes active; anything else changes nothing and
/// publishes nothing.
pub open spec fn spec_feedback(
    v: FadesView,
    engine_generation: u64,
    feedback: EngineFeedback,
    waiting_for_readiness: bool,
) -> (FadesView, Seq<FadeEvent>) {
    match feedback {
        EngineFeedback::Fader { generation, group, channel, out_of_threshold } => if generation
            == engine_generation {
            spec_fader_report(v, group, channel, out_of_threshold)
        } else {
            (v, Seq::empty())
        },
        EngineFeedback::Pan { generation, group, channel, pan_target_confirms } => if generation
            == engine_generation {
            spec_pan_report(v, group, channel, pan_target_confirms)
        } else {
            (v, Seq::empty())
        },
        EngineFeedback::Disconnected { generation } => if generation == engine_generation {
            spec_stop(v, waiting_for_readiness)
        } else {
            (v, Seq::empty())
        },
        EngineFeedback::ActiveGenerationChanged { generation } => if generation != engine_generation {
            spec_stop(v, waiting_for_readiness)
        } else {
            (v, Seq::empty())
        },
    }
}

/// The generation a feedback fact concerns.
pub open spec fn feedback_generation(feedback: EngineFeedback) -> u64 {
    match feedback {
        EngineFeedback::Fader { generation, .. } => generation,
        EngineFeedback::Pan { generation, .. } => generation,
        EngineFeedback::Disconnected { generation } => generation,
        EngineFeedback::ActiveGenerationChanged { generation } => generation,
    }
}

/// Publishing completion happens at most once per idle period and stops the
/// tick timer.
pub open spec fn spec_complete(v: FadesView) -> (FadesView, Seq<FadeEvent>) {
    if v.completion_published {
        (v, Seq::empty())
    } else {
        (
            FadesView { targets: v.targets, ticking: false, completion_published: true },
            seq![FadeEvent::FadeCompleted],
        )
    }
}

pub open spec fn spec_maybe_complete(v: FadesView) -> (FadesView, Seq<FadeEvent>) {
    if v.targets.len() == 0 {
        spec_complete(v)
    } else {
        (v, Seq::empty())
    }
}

pub open spec fn fader_key(group: i32, channel: i32) -> FadeTargetKey {
    FadeTargetKey { group, channel, parameter: FadeParameter::FaderDb }
}

pub open spec fn pan_key(group: i32, channel: i32) -> FadeTargetKey {
    FadeTargetKey { group, channel, parameter: FadeParameter::Pan }
}

/// A fader report for a channel whose fader target reports beyond the override
/// threshold hands that one target back: override, then cancellation, then
/// completion when nothing is left.
pub open spec fn spec_fader_report(v: FadesView, group: i32, channel: i32, out_of_threshold: bool) -> (
    FadesView,
    Seq<FadeEvent>,
) {
    let key = fader_key(group, channel);
    if has_key(v.targets, key) && out_of_threshold {
        let head = seq![
            FadeEvent::ChannelOverride { group, channel, parameter: FadeParameter::FaderDb },
            FadeEvent::ChannelCancelled { group, channel, parameter: FadeParameter::FaderDb },
        ];
        let rest = remove_key(v.targets, key);
        if rest.len() == 0 {
            let done = spec_complete(
                FadesView { targets: rest, ticking: v.ticking, completion_published: false },
            );
            (done.0, head + done.1)
        } else {
            (FadesView { targets: rest, ticking: v.ticking, completion_published: v.completion_published }, head)
        }
    } else {
        (v, Seq::empty())
    }
}

pub open spec fn has_pan_family(s: Seq<ActiveSlot>, group: i32, channel: i32) -> bool {
    exists|i: int|
        0 <= i < s.len() && !(not_pan_family_of(group, channel))(#[trigger] s[i].key)
}

/// A pan report is a manual pan move when the channel's pan target confirms it
/// (consecutive out-of-threshold reports), or, without a pan target, whenever
/// balance or width targets of that channel are active. It hands back the whole
/// pan family of the channel and leaves its fader target running.
pub open spec fn spec_pan_report(v: FadesView, group: i32, channel: i32, pan_target_confirms: bool) -> (
    FadesView,
    Seq<FadeEvent>,
) {
    let pan_override = if has_key(v.targets, pan_key(group, channel)) {
        pan_target_confirms
    } else {
        has_pan_family(v.targets, group, channel)
    };
    if !pan_override {
        (v, Seq::empty())
    } else {
        let keep = not_pan_family_of(group, channel);
        let rest = keep_where(v.targets, keep);
        let head = seq![
            FadeEvent::ChannelOverride { group, channel, parameter: FadeParameter::Pan },
        ] + cancelled_parameter_events(group, channel, dropped_parameters(v.targets, keep));
        let after = FadesView { targets: rest, ticking: v.ticking, completion_published: v.completion_published };
        if rest.len() == 0 {
            let done = spec_complete(after);
            (done.0, head + done.1)
        } else {
            (after, head)
        }
    }
}

/// A disconnect of this engine's connection, or a change of the active
/// generation, aborts whatever is running or waiting for readiness.
pub open spec fn spec_stop(v: FadesView, waiting_for_readiness: bool) -> (FadesView, Seq<FadeEvent>) {
    if v.targets.len() > 0 || waiting_for_readiness {
        (
            FadesView { targets: Seq::empty(), ticking: false, completion_published: false },
            seq![FadeEvent::FadeAborted],
        )
    } else {
        (v, Seq::empty())
    }
}

/// The abort-all command always reports an abort.
pub open spec fn spec_abort_all(v: FadesView) -> (FadesView, Seq<FadeEvent>) {
    (
        FadesView { targets: Seq::empty(), ticking: false, completion_published: v.completion_published },
        seq![FadeEvent::FadeAborted],
    )
}

/// When the engine stops, running or waiting work is aborted.
pub open spec fn spec_actor_stopped(v: FadesView, waiting_for_readiness: bool) -> (
    FadesView,
    Seq<FadeEvent>,
) {
    if v.targets.len() > 0 || waiting_for_readiness {
        (
            FadesView { targets: Seq::empty(), ticking: v.ticking, completion_published: v.completion_published },
            seq![FadeEvent::FadeAborted],
        )
    } else {
        (v, Seq::empty())
    }
}

/// A tick whose write batch failed cancels every target, then aborts.
pub open spec fn spec_tick_failed(v: FadesView) -> (FadesView, Seq<FadeEvent>) {
    (
        FadesView { targets: Seq::empty(), ticking: false, completion_published: v.completion_published },
        cancelled_events(v.targets) + seq![FadeEvent::FadeAborted],
    )
}

/// After a successful tick (while the generation is current) the targets that
/// reached their exact value are removed and reported, then completion follows
/// when nothing is left.
pub open spec fn spec_tick_succeeded(v: FadesView, completed: Seq<FadeTargetKey>, current: bool) -> (
    FadesView,
    Seq<FadeEvent>,
) {
    if !current {
        (v, Seq::empty())
    } else {
        let after = FadesView {
            targets: remove_keys(v.targets, completed),
            ticking: v.ticking,
            completion_published: v.completion_published,
        };
        let done = spec_maybe_complete(after);
        (done.0, completed_events(completed) + done.1)
    }
}

/// A zero-duration recall has written every exact value in one batch: each of
/// its keys leaves the active targets and is reported complete.
pub open spec fn spec_recall_immediate(v: FadesView, keys: Seq<FadeTargetKey>) -> (
    FadesView,
    Seq<FadeEvent>,
) {
    (
        FadesView {
            targets: remove_keys(v.targets, keys),
            ticking: v.ticking,
            completion_published: v.completion_published,
        },
        completed_events(keys),
    )
}


/// The number of active targets owned by `scene`.
pub open spec fn count_scene(s: Seq<ActiveSlot>, scene: FadeSceneIdentity) -> nat
    decreases s.len(),
{
    if s.len() == 0 {
        0
    } else {
        count_scene(s.drop_last(), scene) + if same_scene(s.last().scene, scene) {
            1nat
        } else {
            0nat
        }
    }
}

/// The number of active targets whose key is among `keys`.
pub open spec fn count_keys_in(s: Seq<ActiveSlot>, keys: Seq<FadeTargetKey>) -> nat
    decreases s.len(),
{
    if s.len() == 0 {
        0
    } else {
        count_keys_in(s.drop_last(), keys) + if keys.contains(s.last().key) {
            1nat
        } else {
            0nat
        }
    }
}

/// Each incoming key, in order, replaces the active target with the same key
/// (if any) by a new target owned by `scene`, placed last.
pub open spec fn install(s: Seq<ActiveSlot>, scene: FadeSceneIdentity, keys: Seq<FadeTargetKey>) -> Seq<
    ActiveSlot,
>
    decreases keys.len(),
{
    if keys.len() == 0 {
        s
    } else {
        remove_key(install(s, scene, keys.drop_last()), keys.last()).push(
            ActiveSlot { key: keys.last(), scene, finishing: false },
        )
    }
}

/// Every target owned by `scene` is marked to finish on the next tick.
pub open spec fn mark_finishing(s: Seq<ActiveSlot>, scene: FadeSceneIdentity) -> Seq<ActiveSlot> {
    Seq::new(
        s.len(),
        |i: int|
            if same_scene(s[i].scene, scene) {
                ActiveSlot { key: s[i].key, scene: s[i].scene, finishing: true }
            } else {
                s[i]
            },
    )
}

/// The keys of the targets that a tick completes, in order: those whose time
/// is up (`time_up`, one flag per target) and those marked to finish.
pub open spec fn spec_due_keys(s: Seq<ActiveSlot>, time_up: Seq<bool>) -> Seq<FadeTargetKey>
    decreases s.len(),
{
    if s.len() == 0 {
        Seq::empty()
    } else {
        let rest = spec_due_keys(s.drop_last(), time_up.take(s.len() - 1));
        if time_up[s.len() - 1] || s.last().finishing {
            rest.push(s.last().key)
        } else {
            rest
        }
    }
}

/// The keys that a tick completes are active targets, each listed once.
pub open spec fn completed_are_active(s: Seq<ActiveSlot>, completed: Seq<FadeTargetKey>) -> bool {
    &&& forall|j: int| 0 <= j < completed.len() ==> has_key(s, #[trigger] completed[j])
    &&& forall|a: int, b: int| 0 <= a < b < completed.len() ==> completed[a] != completed[b]
}

/// An admitted recall with a duration: with `FinishActiveTargets`, a scene that
/// owns active targets has them marked to finish on the next tick and installs
/// nothing; otherwise the incoming targets are installed, and with
/// `OverrideMatchingTargets` the outcome counts the active targets it restarts.
/// Installing targets opens a new period in which completion is not yet
/// published.
pub open spec fn spec_recall(
    v: FadesView,
    scene: FadeSceneIdentity,
    keys: Seq<FadeTargetKey>,
    behavior: SameSceneRecallBehavior,
) -> (FadesView, RecallSceneFadeOutcome) {
    let owned = count_scene(v.targets, scene);
    let overriding = if behavior == SameSceneRecallBehavior::OverrideMatchingTargets && owned > 0 {
        count_keys_in(v.targets, keys)
    } else {
        0
    };
    let finishing = if behavior == SameSceneRecallBehavior::FinishActiveTargets {
        owned
    } else {
        0
    };
    if finishing > 0 {
        (
            FadesView {
                targets: mark_finishing(v.targets, scene),
                ticking: v.ticking,
                completion_published: v.completion_published,
            },
            RecallSceneFadeOutcome::Finishing { target_count: finishing as usize },
        )
    } else {
        (
            FadesView {
                targets: install(v.targets, scene, keys),
                ticking: v.ticking,
                completion_published: v.completion_published && keys.len() == 0,
            },
            if overriding > 0 {
                RecallSceneFadeOutcome::Overriding { target_count: overriding as usize }
            } else {
                RecallSceneFadeOutcome::Started
            },
        )
    }
}

/// After an admitted recall: active targets start the tick timer and a new
/// period that publishes `FadeStarted`; with none, completion is published
/// unless a readiness wait is pending.
pub open spec fn spec_after_recall(v: FadesView, waiting_for_readiness: bool) -> (
    FadesView,
    Seq<FadeEvent>,
) {
    if v.targets.len() > 0 {
        (
            FadesView { targets: v.targets, ticking: true, completion_published: false },
            seq![FadeEvent::FadeStarted],
        )
    } else {
        let stopped = FadesView { targets: v.targets, ticking: false, completion_published: v.completion_published };
        if waiting_for_readiness {
            (stopped, Seq::empty())
        } else {
            spec_complete(stopped)
        }
    }
}

proof fn lemma_count_bounds(s: Seq<ActiveSlot>, scene: FadeSceneIdentity, keys: Seq<FadeTargetKey>)
    ensures
        count_scene(s, scene) <= s.len(),
        count_keys_in(s, keys) <= s.len(),
    decreases s.len(),
{
    if s.len() > 0 {
        lemma_count_bounds(s.drop_last(), scene, keys);
    }
}

proof fn lemma_install_unique(s: Seq<ActiveSlot>, scene: FadeSceneIdentity, keys: Seq<FadeTargetKey>)
    requires
        keys_unique(s),
    ensures
        keys_unique(install(s, scene, keys)),
    decreases keys.len(),
{
    if keys.len() > 0 {
        let prev = install(s, scene, keys.drop_last());
        lemma_install_unique(s, scene, keys.drop_last());
        lemma_keep_where_unique(prev, not_key(keys.last()));
        lemma_remove_key_absent(prev, keys.last());
        let r = remove_key(prev, keys.last());
        let n = r.push(ActiveSlot { key: keys.last(), scene, finishing: false });
        assert forall|i: int, j: int| 0 <= i < j < n.len() implies n[i].key != n[j].key by {
            if j == n.len() - 1 {
                assert(n[i] == r[i]);
                if r[i].key == keys.last() {
                    assert(has_key(r, keys.last()));
                }
            } else {
                assert(n[i] == r[i]);
                assert(n[j] == r[j]);
            }
        }
    }
}


/// The fade engine's active targets and timer state.
pub struct ActiveFades {
    targets: Vec<ActiveSlot>,
    ticking: bool,
    completion_published: bool,
}

impl View for ActiveFades {
    type V = FadesView;

    closed spec fn view(&self) -> FadesView {
        FadesView {
            targets: self.targets@,
            ticking: self.ticking,
            completion_published: self.completion_published,
        }
    }
}

fn find_key(targets: &Vec<ActiveSlot>, key: FadeTargetKey) -> (r: bool)
    ensures
        r == has_key(targets@, key),
{
    let mut i: usize = 0;
    while i < targets.len()
        invariant
            i <= targets@.len(),
            forall|j: int| 0 <= j < i ==> targets@[j].key != key,
        decreases targets@.len() - i,
    {
        if targets[i].key == key {
            return true;
        }
        i = i + 1;
    }
    false
}

fn find_pan_family(targets: &Vec<ActiveSlot>, group: i32, channel: i32) -> (r: bool)
    ensures
        r == has_pan_family(targets@, group, channel),
{
    let mut i: usize = 0;
    while i < targets.len()
        invariant
            i <= targets@.len(),
            forall|j: int|
                0 <= j < i ==> (not_pan_family_of(group, channel))(#[trigger] targets@[j].key),
        decreases targets@.len() - i,
    {
        let k = targets[i].key;
        if k.group == group && k.channel == channel && k.parameter.is_pan_family() {
            assert(!(not_pan_family_of(group, channel))(targets@[i as int].key));
            return true;
        }
        i = i + 1;
    }
    false
}

fn cancelled_parameters(group: i32, channel: i32, parameters: &Vec<FadeParameter>) -> (r: Vec<
    FadeEvent,
>)
    ensures
        r@ == cancelled_parameter_events(group, channel, parameters@),
{
    let mut r: Vec<FadeEvent> = Vec::new();
    let mut i: usize = 0;
    while i < parameters.len()
        invariant
            i <= parameters@.len(),
            r@ == cancelled_parameter_events(group, channel, parameters@.take(i as int)),
        decreases parameters@.len() - i,
    {
        r.push(FadeEvent::ChannelCancelled { group, channel, parameter: parameters[i] });
        i = i + 1;
        assert(r@ =~= cancelled_parameter_events(group, channel, parameters@.take(i as int)));
    }
    assert(parameters@.take(i as int) =~= parameters@);
    r
}

impl ActiveFades {
    /// Active keys never repeat.
    pub open spec fn wf(&self) -> bool {
        &&& keys_unique(self@.targets)
        &&& self@.targets.len() > 0 ==> !self@.completion_published
    }

    /// No targets, no timer.
    pub fn new() -> (s: Self)
        ensures
            s.wf(),
            s@ == (FadesView { targets: Seq::empty(), ticking: false, completion_published: false }),
    {
        ActiveFades { targets: Vec::new(), ticking: false, completion_published: false }
    }

    pub fn is_active(&self) -> (r: bool)
        ensures
            r == (self@.targets.len() > 0),
    {
        self.targets.len() > 0
    }

    pub fn is_ticking(&self) -> (r: bool)
        ensures
            r == self@.ticking,
    {
        self.ticking
    }

    /// The active targets, in installation order.
    pub fn targets(&self) -> (r: &[ActiveSlot])
        ensures
            r@ == self@.targets,
    {
        self.targets.as_slice()
    }

    fn complete(&mut self) -> (events: Vec<FadeEvent>)
        ensures
            (final(self)@, events@) == spec_complete(old(self)@),
    {
        let mut events: Vec<FadeEvent> = Vec::new();
        if self.completion_published {
            return events;
        }
        self.completion_published = true;
        self.ticking = false;
        events.push(FadeEvent::FadeCompleted);
        events
    }

    /// A fader report of the engine's own generation (`feedback` applies the
    /// generation fence); `out_of_threshold` is whether the channel's fader
    /// target judges the reported level a manual move.
    pub fn fader_report(&mut self, group: i32, channel: i32, out_of_threshold: bool) -> (events: Vec<
        FadeEvent,
    >)
        requires
            old(self).wf(),
        ensures
            final(self).wf(),
            (final(self)@, events@) == spec_fader_report(old(self)@, group, channel, out_of_threshold),
    {
        let key = FadeTargetKey { group, channel, parameter: FadeParameter::FaderDb };
        if !(find_key(&self.targets, key) && out_of_threshold) {
            return Vec::new();
        }
        let mut events: Vec<FadeEvent> = Vec::new();
        events.push(FadeEvent::ChannelOverride { group, channel, parameter: FadeParameter::FaderDb });
        events.push(FadeEvent::ChannelCancelled { group, channel, parameter: FadeParameter::FaderDb });
        proof {
            lemma_keep_where_unique(self.targets@, not_key(key));
        }
        let _ = retain_keys(&mut self.targets, group, channel, key, false);
        if self.targets.len() == 0 {
            self.completion_published = false;
            let mut done = self.complete();
            events.append(&mut done);
        }
        events
    }

    /// A pan report of the engine's own generation (`feedback` applies the
    /// generation fence); `pan_target_confirms` is whether the channel's pan target has now seen enough consecutive reports
    /// beyond its threshold (it is ignored when the channel has no pan target).
    pub fn pan_report(&mut self, group: i32, channel: i32, pan_target_confirms: bool) -> (events: Vec<
        FadeEvent,
    >)
        requires
            old(self).wf(),
        ensures
            final(self).wf(),
            (final(self)@, events@) == spec_pan_report(old(self)@, group, channel, pan_target_confirms),
    {
        let pan = FadeTargetKey { group, channel, parameter: FadeParameter::Pan };
        let pan_override = if find_key(&self.targets, pan) {
            pan_target_confirms
        } else {
            find_pan_family(&self.targets, group, channel)
        };
        if !pan_override {
            return Vec::new();
        }
        proof {
            lemma_keep_where_unique(self.targets@, not_pan_family_of(group, channel));
        }
        let removed = retain_keys(&mut self.targets, group, channel, pan, true);
        let mut events: Vec<FadeEvent> = Vec::new();
        events.push(FadeEvent::ChannelOverride { group, channel, parameter: FadeParameter::Pan });
        let mut cancelled = cancelled_parameters(group, channel, &removed);
        events.append(&mut cancelled);
        if self.targets.len() == 0 {
            let mut done = self.complete();
            events.append(&mut done);
        }
        events
    }

    fn clear_targets(&mut self)
        ensures
            final(self)@ == (FadesView {
                targets: Seq::empty(),
                ticking: old(self)@.ticking,
                completion_published: old(self)@.completion_published,
            }),
    {
        self.targets = Vec::new();
    }

    /// A disconnect of this engine's connection or a change of the active
    /// generation; `waiting_for_readiness` is whether a readiness wait is pending.
    pub fn stop(&mut self, waiting_for_readiness: bool) -> (events: Vec<FadeEvent>)
        ensures
            final(self).wf(),
            (final(self)@, events@) == spec_stop(old(self)@, waiting_for_readiness),
    {
        let mut events: Vec<FadeEvent> = Vec::new();
        if self.targets.len() > 0 || waiting_for_readiness {
            self.clear_targets();
            self.ticking = false;
            self.completion_published = false;
            events.push(FadeEvent::FadeAborted);
        }
        events
    }

    /// Feedback reaching the engine of `engine_generation` (see `spec_feedback`).
    pub fn feedback(
        &mut self,
        engine_generation: u64,
        feedback: EngineFeedback,
        waiting_for_readiness: bool,
    ) -> (events: Vec<FadeEvent>)
        requires
            old(self).wf(),
        ensures
            final(self).wf(),
            (final(self)@, events@) == spec_feedback(
                old(self)@,
                engine_generation,
                feedback,
                waiting_for_readiness,
            ),
    {
        match feedback {
            EngineFeedback::Fader { generation, group, channel, out_of_threshold } => {
                if generation == engine_generation {
                    self.fader_report(group, channel, out_of_threshold)
                } else {
                    Vec::new()
                }
            },
            EngineFeedback::Pan { generation, group, channel, pan_target_confirms } => {
                if generation == engine_generation {
                    self.pan_report(group, channel, pan_target_confirms)
                } else {
                    Vec::new()
                }
            },
            EngineFeedback::Disconnected { generation } => {
                if generation == engine_generation {
                    self.stop(waiting_for_readiness)
                } else {
                    Vec::new()
                }
            },
            EngineFeedback::ActiveGenerationChanged { generation } => {
                if generation != engine_generation {
                    self.stop(waiting_for_readiness)
                } else {
                    Vec::new()
                }
            },
        }
    }

    /// The abort-all command.
    pub fn abort_all(&mut self) -> (events: Vec<FadeEvent>)
        ensures
            final(self).wf(),
            (final(self)@, events@) == spec_abort_all(old(self)@),
    {
        self.clear_targets();
        self.ticking = false;
        let mut events: Vec<FadeEvent> = Vec::new();
        events.push(FadeEvent::FadeAborted);
        events
    }

    /// The engine is shutting down.
    pub fn actor_stopped(&mut self, waiting_for_readiness: bool) -> (events: Vec<FadeEvent>)
        ensures
            final(self).wf(),
            (final(self)@, events@) == spec_actor_stopped(old(self)@, waiting_for_readiness),
    {
        let mut events: Vec<FadeEvent> = Vec::new();
        if self.targets.len() > 0 || waiting_for_readiness {
            self.clear_targets();
            events.push(FadeEvent::FadeAborted);
        }
        events
    }

    /// The tick's write batch (or its generation check) failed.
    pub fn tick_failed(&mut self) -> (events: Vec<FadeEvent>)
        ensures
            final(self).wf(),
            (final(self)@, events@) == spec_tick_failed(old(self)@),
    {
        let mut events: Vec<FadeEvent> = Vec::new();
        let mut i: usize = 0;
        while i < self.targets.len()
            invariant
                i <= self.targets@.len(),
                events@ == cancelled_events(self.targets@.take(i as int)),
            decreases self.targets@.len() - i,
        {
            let k = self.targets[i].key;
            events.push(FadeEvent::ChannelCancelled { group: k.group, channel: k.channel, parameter: k.parameter });
            i = i + 1;
            assert(events@ =~= cancelled_events(self.targets@.take(i as int)));
        }
        assert(self.targets@.take(i as int) =~= self.targets@);
        self.clear_targets();
        self.ticking = false;
        events.push(FadeEvent::FadeAborted);
        events
    }

    fn remove_each(&mut self, keys: &Vec<FadeTargetKey>) -> (events: Vec<FadeEvent>)
        requires
            old(self).wf(),
        ensures
            final(self).wf(),
            final(self)@ == (FadesView {
                targets: remove_keys(old(self)@.targets, keys@),
                ticking: old(self)@.ticking,
                completion_published: old(self)@.completion_published,
            }),
            events@ == completed_events(keys@),
    {
        let ghost start = self@.targets;
        let mut events: Vec<FadeEvent> = Vec::new();
        let mut i: usize = 0;
        while i < keys.len()
            invariant
                i <= keys@.len(),
                keys_unique(start),
                self@.targets == remove_keys(start, keys@.take(i as int)),
                self@.ticking == old(self)@.ticking,
                self@.completion_published == old(self)@.completion_published,
                start == old(self)@.targets,
                events@ == completed_events(keys@.take(i as int)),
            decreases keys@.len() - i,
        {
            let k = keys[i];
            proof {
                assert(keys@.take(i + 1).drop_last() =~= keys@.take(i as int));
                lemma_remove_keys_unique(start, keys@.take(i as int));
            }
            let _ = retain_keys(&mut self.targets, k.group, k.channel, k, false);
            events.push(FadeEvent::ChannelCompleted { group: k.group, channel: k.channel, parameter: k.parameter });
            i = i + 1;
            assert(events@ =~= completed_events(keys@.take(i as int)));
        }
        assert(keys@.take(i as int) =~= keys@);
        proof {
            lemma_remove_keys_unique(start, keys@);
        }
        events
    }

    /// After the tick's batch succeeded: `completed` lists the active targets
    /// that reached their exact value, in order, each once (see `due_keys`);
    /// `current` is whether the engine's generation is still the active one.
    pub fn tick_succeeded(&mut self, completed: &Vec<FadeTargetKey>, current: bool) -> (events: Vec<
        FadeEvent,
    >)
        requires
            old(self).wf(),
            completed_are_active(old(self)@.targets, completed@),
        ensures
            final(self).wf(),
            (final(self)@, events@) == spec_tick_succeeded(old(self)@, completed@, current),
    {
        if !current {
            return Vec::new();
        }
        let mut events = self.remove_each(completed);
        if self.targets.len() == 0 {
            let mut done = self.complete();
            events.append(&mut done);
        }
        events
    }

    /// A zero-duration recall whose single write batch succeeded.
    pub fn recall_immediate(&mut self, keys: &Vec<FadeTargetKey>) -> (events: Vec<FadeEvent>)
        requires
            old(self).wf(),
        ensures
            final(self).wf(),
            (final(self)@, events@) == spec_recall_immediate(old(self)@, keys@),
    {
        self.remove_each(keys)
    }

    fn mark_scene_finishing(&mut self, scene: &FadeSceneIdentity)
        requires
            old(self).wf(),
        ensures
            final(self).wf(),
            final(self)@ == (FadesView {
                targets: mark_finishing(old(self)@.targets, *scene),
                ticking: old(self)@.ticking,
                completion_published: old(self)@.completion_published,
            }),
    {
        let ghost before = self.targets@;
        let mut marked: Vec<ActiveSlot> = Vec::new();
        let mut i: usize = 0;
        while i < self.targets.len()
            invariant
                self.targets@ == before,
                i <= before.len(),
                marked@ =~= mark_finishing(before, *scene).take(i as int),
            decreases before.len() - i,
        {
            let slot = &self.targets[i];
            let finishing = slot.finishing || scenes_equal(&slot.scene, scene);
            marked.push(ActiveSlot { key: slot.key, scene: copy_scene(&slot.scene), finishing });
            i = i + 1;
            assert(marked@ =~= mark_finishing(before, *scene).take(i as int));
        }
        assert(mark_finishing(before, *scene).take(i as int) =~= mark_finishing(before, *scene));
        self.targets = marked;
        assert(keys_unique(self.targets@)) by {
            assert forall|a: int, b: int| 0 <= a < b < self.targets@.len() implies self.targets@[a].key
                != self.targets@[b].key by {
                assert(self.targets@[a].key == before[a].key);
                assert(self.targets@[b].key == before[b].key);
            }
        }
    }

    /// The keys that this tick completes (see `spec_due_keys`); `time_up` says,
    /// for each active target in order, whether its fade time has elapsed.
    pub fn due_keys(&self, time_up: &Vec<bool>) -> (r: Vec<FadeTargetKey>)
        requires
            time_up@.len() == self@.targets.len(),
        ensures
            r@ == spec_due_keys(self@.targets, time_up@),
    {
        let mut r: Vec<FadeTargetKey> = Vec::new();
        let mut i: usize = 0;
        while i < self.targets.len()
            invariant
                time_up@.len() == self.targets@.len(),
                i <= self.targets@.len(),
                r@ == spec_due_keys(self.targets@.take(i as int), time_up@.take(i as int)),
            decreases self.targets@.len() - i,
        {
            proof {
                assert(self.targets@.take(i + 1).drop_last() =~= self.targets@.take(i as int));
                assert(time_up@.take(i + 1).take(i as int) =~= time_up@.take(i as int));
                assert(self.targets@.take(i + 1).last() == self.targets@[i as int]);
            }
            if time_up[i] || self.targets[i].finishing {
                r.push(self.targets[i].key);
            }
            i = i + 1;
        }
        assert(self.targets@.take(i as int) =~= self.targets@);
        assert(time_up@.take(i as int) =~= time_up@);
        r
    }

    fn count_owned(&self, scene: &FadeSceneIdentity) -> (n: usize)
        ensures
            n == count_scene(self@.targets, *scene),
    {
        let mut n: usize = 0;
        let mut i: usize = 0;
        while i < self.targets.len()
            invariant
                i <= self.targets@.len(),
                n == count_scene(self.targets@.take(i as int), *scene),
                n <= i,
            decreases self.targets@.len() - i,
        {
            proof {
                assert(self.targets@.take(i + 1).drop_last() =~= self.targets@.take(i as int));
            }
            if scenes_equal(&self.targets[i].scene, scene) {
                n = n + 1;
            }
            i = i + 1;
        }
        assert(self.targets@.take(i as int) =~= self.targets@);
        n
    }

    fn count_incoming(&self, keys: &Vec<FadeTargetKey>) -> (n: usize)
        ensures
            n == count_keys_in(self@.targets, keys@),
    {
        let mut n: usize = 0;
        let mut i: usize = 0;
        while i < self.targets.len()
            invariant
                i <= self.targets@.len(),
                n == count_keys_in(self.targets@.take(i as int), keys@),
                n <= i,
            decreases self.targets@.len() - i,
        {
            proof {
                assert(self.targets@.take(i + 1).drop_last() =~= self.targets@.take(i as int));
            }
            let k = self.targets[i].key;
            let mut found = false;
            let mut j: usize = 0;
            while j < keys.len()
                invariant
                    j <= keys@.len(),
                    found == exists|t: int| 0 <= t < j && keys@[t] == k,
                decreases keys@.len() - j,
            {
                if keys[j] == k {
                    found = true;
                }
                j = j + 1;
            }
            if found {
                n = n + 1;
            }
            i = i + 1;
        }
        assert(self.targets@.take(i as int) =~= self.targets@);
        n
    }

    /// An admitted recall with a nonzero duration (see `spec_recall`).
    pub fn recall(
        &mut self,
        scene: &FadeSceneIdentity,
        keys: &Vec<FadeTargetKey>,
        behavior: SameSceneRecallBehavior,
    ) -> (outcome: RecallSceneFadeOutcome)
        requires
            old(self).wf(),
        ensures
            final(self).wf(),
            (final(self)@, outcome) == spec_recall(old(self)@, *scene, keys@, behavior),
    {
        proof {
            lemma_count_bounds(self@.targets, *scene, keys@);
        }
        let owned = self.count_owned(scene);
        let overriding = if behavior == SameSceneRecallBehavior::OverrideMatchingTargets && owned > 0 {
            self.count_incoming(keys)
        } else {
            0
        };
        let finishing = if behavior == SameSceneRecallBehavior::FinishActiveTargets {
            owned
        } else {
            0
        };
        if finishing > 0 {
            self.mark_scene_finishing(scene);
            return RecallSceneFadeOutcome::Finishing { target_count: finishing };
        }
        let ghost start = self@.targets;
        let mut i: usize = 0;
        while i < keys.len()
            invariant
                i <= keys@.len(),
                keys_unique(start),
                start == old(self)@.targets,
                self@.targets == install(start, *scene, keys@.take(i as int)),
                self@.ticking == old(self)@.ticking,
                self@.completion_published == old(self)@.completion_published,
            decreases keys@.len() - i,
        {
            let k = keys[i];
            proof {
                assert(keys@.take(i + 1).drop_last() =~= keys@.take(i as int));
                lemma_install_unique(start, *scene, keys@.take(i as int));
            }
            let _ = retain_keys(&mut self.targets, k.group, k.channel, k, false);
            self.targets.push(ActiveSlot { key: k, scene: copy_scene(scene), finishing: false });
            i = i + 1;
        }
        assert(keys@.take(i as int) =~= keys@);
        proof {
            lemma_install_unique(start, *scene, keys@);
        }
        if keys.len() > 0 {
            self.completion_published = false;
        }
        if overriding > 0 {
            RecallSceneFadeOutcome::Overriding { target_count: overriding }
        } else {
            RecallSceneFadeOutcome::Started
        }
    }

    /// The bookkeeping after an admitted recall (see `spec_after_recall`).
    pub fn after_recall(&mut self, waiting_for_readiness: bool) -> (events: Vec<FadeEvent>)
        requires
            old(self).wf(),
        ensures
            final(self).wf(),
            (final(self)@, events@) == spec_after_recall(old(self)@, waiting_for_readiness),
    {
        if self.targets.len() > 0 {
            self.ticking = true;
            self.completion_published = false;
            let mut events: Vec<FadeEvent> = Vec::new();
            events.push(FadeEvent::FadeStarted);
            return events;
        }
        self.ticking = false;
        if waiting_for_readiness {
            Vec::new()
        } else {
            self.complete()
        }
    }
}

/// A failed write is reported to the user unless it failed because the
/// generation is stale, and only while the engine's generation is current.
pub fn write_failure_event(error: &AppCommandError, current: bool) -> (r: Option<FadeEvent>)
    ensures
        (*error == AppCommandError::StaleGeneration || !current) ==> r is None,
        !(*error == AppCommandError::StaleGeneration || !current) ==> (r matches Some(
            FadeEvent::WriteFailed { reason },
        ) && reason@ == error_message(*error)),
{
    let stale = match error {
        AppCommandError::StaleGeneration => true,
        _ => false,
    };
    if stale || !current {
        None
    } else {
        Some(FadeEvent::WriteFailed { reason: error.message() })
    }
}

/// A failed tick cancels a pending readiness wait as a generation change when
/// the generation went stale, and as a disconnect otherwise.
pub fn tick_failure_reason(error: &AppCommandError) -> (r: RecallReadinessCancellation)
    ensures
        r == if *error == AppCommandError::StaleGeneration {
            RecallReadinessCancellation::GenerationChanged
        } else {
            RecallReadinessCancellation::Disconnected
        },
{
    match error {
        AppCommandError::StaleGeneration => RecallReadinessCancellation::GenerationChanged,
        _ => RecallReadinessCancellation::Disconnected,
    }
}


proof fn lemma_keep_where_keeps(s: Seq<ActiveSlot>, keep: spec_fn(FadeTargetKey) -> bool, i: int)
    requires
        0 <= i < s.len(),
        keep(s[i].key),
    ensures
        keep_where(s, keep).contains(s[i]),
    decreases s.len(),
{
    let rest = keep_where(s.drop_last(), keep);
    if i == s.len() - 1 {
        assert(keep_where(s, keep) == rest.push(s.last()));
        assert(keep_where(s, keep)[rest.len() as int] == s[i]);
    } else {
        assert(s.drop_last()[i] == s[i]);
        lemma_keep_where_keeps(s.drop_last(), keep, i);
        let t = choose|t: int| 0 <= t < rest.len() && rest[t] == s[i];
        if keep(s.last().key) {
            assert(keep_where(s, keep)[t] == rest[t]);
        }
    }
}

/// A manual pan move hands back only the pan family of its channel: the fader
/// target of that channel, and every target of other channels, keep running.
pub proof fn law_pan_override_keeps_level_automation(
    v: FadesView,
    group: i32,
    channel: i32,
    pan_target_confirms: bool,
)
    ensures
        forall|i: int|
            0 <= i < v.targets.len() && (v.targets[i].key.parameter == FadeParameter::FaderDb
                || v.targets[i].key.group != group || v.targets[i].key.channel != channel) ==> #[trigger] spec_pan_report(
                v,
                group,
                channel,
                pan_target_confirms,
            ).0.targets.contains(v.targets[i]),
        forall|e: FadeEvent|
            spec_pan_report(v, group, channel, pan_target_confirms).1.contains(e) ==> !(e matches FadeEvent::ChannelCancelled { parameter: FadeParameter::FaderDb, .. }),
{
    let keep = not_pan_family_of(group, channel);
    assert forall|i: int|
        0 <= i < v.targets.len() && (v.targets[i].key.parameter == FadeParameter::FaderDb
            || v.targets[i].key.group != group || v.targets[i].key.channel != channel) implies #[trigger] spec_pan_report(
            v,
            group,
            channel,
            pan_target_confirms,
        ).0.targets.contains(v.targets[i]) by {
        assert(keep(v.targets[i].key));
        lemma_keep_where_keeps(v.targets, keep, i);
        let r = spec_pan_report(v, group, channel, pan_target_confirms);
        if r.0.targets != v.targets {
            assert(r.0.targets == keep_where(v.targets, keep));
        } else {
            assert(v.targets[i] == v.targets[i]);
            assert(v.targets.contains(v.targets[i]));
        }
    }
    lemma_dropped_are_pan_family(v.targets, group, channel);
    assert forall|e: FadeEvent|
        spec_pan_report(v, group, channel, pan_target_confirms).1.contains(e) implies !(e matches FadeEvent::ChannelCancelled { parameter: FadeParameter::FaderDb, .. }) by {
        let events = spec_pan_report(v, group, channel, pan_target_confirms).1;
        let t = choose|t: int| 0 <= t < events.len() && events[t] == e;
        let dropped = dropped_parameters(v.targets, keep);
        let head = seq![
            FadeEvent::ChannelOverride { group, channel, parameter: FadeParameter::Pan },
        ] + cancelled_parameter_events(group, channel, dropped);
        if events.len() > 0 && 1 <= t < head.len() {
            assert(head[t] == cancelled_parameter_events(group, channel, dropped)[t - 1]);
            assert(dropped[t - 1].spec_is_pan_family());
        }
    }
}

proof fn lemma_dropped_are_pan_family(s: Seq<ActiveSlot>, group: i32, channel: i32)
    ensures
        forall|j: int|
            0 <= j < dropped_parameters(s, not_pan_family_of(group, channel)).len() ==> (#[trigger] dropped_parameters(
                s,
                not_pan_family_of(group, channel),
            )[j]).spec_is_pan_family(),
    decreases s.len(),
{
    if s.len() > 0 {
        lemma_dropped_are_pan_family(s.drop_last(), group, channel);
        let keep = not_pan_family_of(group, channel);
        let rest = dropped_parameters(s.drop_last(), keep);
        assert forall|j: int|
            0 <= j < dropped_parameters(s, keep).len() implies (#[trigger] dropped_parameters(
                s,
                keep,
            )[j]).spec_is_pan_family() by {
            if j < rest.len() {
                assert(dropped_parameters(s, keep)[j] == rest[j]);
            } else {
                assert(!keep(s.last().key));
            }
        }
    }
}

/// A confirmed manual fader move hands back exactly that channel's fader
/// target: it is no longer active, every other target keeps running, and the
/// override is reported before the cancellation.
pub proof fn law_fader_override_hands_back_one_target(v: FadesView, group: i32, channel: i32)
    requires
        keys_unique(v.targets),
        has_key(v.targets, fader_key(group, channel)),
    ensures
        !has_key(spec_fader_report(v, group, channel, true).0.targets, fader_key(group, channel)),
        forall|i: int|
            0 <= i < v.targets.len() && v.targets[i].key != fader_key(group, channel) ==> #[trigger] spec_fader_report(
                v,
                group,
                channel,
                true,
            ).0.targets.contains(v.targets[i]),
        spec_fader_report(v, group, channel, true).0.targets.len() == v.targets.len() - 1,
        spec_fader_report(v, group, channel, true).1[0] == (FadeEvent::ChannelOverride {
            group,
            channel,
            parameter: FadeParameter::FaderDb,
        }),
        spec_fader_report(v, group, channel, true).1[1] == (FadeEvent::ChannelCancelled {
            group,
            channel,
            parameter: FadeParameter::FaderDb,
        }),
{
    let key = fader_key(group, channel);
    lemma_remove_key_absent(v.targets, key);
    assert forall|i: int|
        0 <= i < v.targets.len() && v.targets[i].key != key implies #[trigger] spec_fader_report(
            v,
            group,
            channel,
            true,
        ).0.targets.contains(v.targets[i]) by {
        lemma_keep_where_keeps(v.targets, not_key(key), i);
    }
    let k = choose|k: int| 0 <= k < v.targets.len() && v.targets[k].key == key;
    lemma_remove_unique_len(v.targets, key, k);
}

proof fn lemma_remove_unique_len(s: Seq<ActiveSlot>, key: FadeTargetKey, k: int)
    requires
        keys_unique(s),
        0 <= k < s.len(),
        s[k].key == key,
    ensures
        remove_key(s, key).len() == s.len() - 1,
    decreases s.len(),
{
    if k == s.len() - 1 {
        assert(!has_key(s.drop_last(), key)) by {
            if has_key(s.drop_last(), key) {
                let i = choose|i: int| 0 <= i < s.drop_last().len() && s.drop_last()[i].key == key;
                assert(s[i].key == s[k].key);
            }
        }
        lemma_remove_key_noop(s.drop_last(), key);
    } else {
        assert(s.drop_last()[k] == s[k]);
        assert(keys_unique(s.drop_last()));
        lemma_remove_unique_len(s.drop_last(), key, k);
        assert(s[s.len() - 1].key != key);
    }
}

/// Completion is published at most once per idle period: once published,
/// publishing again reports nothing.
pub proof fn law_completion_is_published_once(v: FadesView)
    ensures
        spec_complete(v).1.len() <= 1,
        spec_complete(spec_complete(v).0).1.len() == 0,
        spec_maybe_complete(spec_complete(v).0).1.len() == 0,
{
}

/// A failed tick never reports completion: it cancels each target once, in
/// order, and then aborts, leaving nothing active and the timer stopped.
pub proof fn law_failed_tick_reports_no_completion(v: FadesView)
    ensures
        spec_tick_failed(v).0.targets.len() == 0,
        !spec_tick_failed(v).0.ticking,
        spec_tick_failed(v).1.len() == v.targets.len() + 1,
        forall|j: int|
            0 <= j < spec_tick_failed(v).1.len() ==> !(#[trigger] spec_tick_failed(v).1[j] is ChannelCompleted)
                && !(spec_tick_failed(v).1[j] is FadeCompleted),
        spec_tick_failed(v).1.last() == FadeEvent::FadeAborted,
{
    let events = spec_tick_failed(v).1;
    assert forall|j: int| 0 <= j < events.len() implies !(#[trigger] events[j] is ChannelCompleted) && !(
    events[j] is FadeCompleted) by {
        if j < v.targets.len() {
            assert(events[j] == cancelled_events(v.targets)[j]);
        }
    }
}

proof fn lemma_install_contains(s: Seq<ActiveSlot>, scene: FadeSceneIdentity, keys: Seq<FadeTargetKey>)
    ensures
        forall|t: int|
            0 <= t < keys.len() ==> install(s, scene, keys).contains(
                ActiveSlot { key: #[trigger] keys[t], scene, finishing: false },
            ),
        forall|i: int|
            0 <= i < s.len() && !keys.contains(s[i].key) ==> #[trigger] install(s, scene, keys).contains(s[i]),
    decreases keys.len(),
{
    if keys.len() > 0 {
        let prev = install(s, scene, keys.drop_last());
        lemma_install_contains(s, scene, keys.drop_last());
        let r = remove_key(prev, keys.last());
        let n = r.push(ActiveSlot { key: keys.last(), scene, finishing: false });
        assert(n[r.len() as int] == ActiveSlot { key: keys.last(), scene, finishing: false });
        assert forall|t: int| 0 <= t < keys.len() implies n.contains(
            ActiveSlot { key: #[trigger] keys[t], scene, finishing: false },
        ) by {
            if t < keys.len() - 1 {
                assert(keys.drop_last()[t] == keys[t]);
                if keys[t] != keys.last() {
                    assert(prev.contains(ActiveSlot { key: keys.drop_last()[t], scene, finishing: false }));
                    let p = choose|p: int| 0 <= p < prev.len() && prev[p] == ActiveSlot { key: keys[t], scene, finishing: false };
                    lemma_keep_where_keeps(prev, not_key(keys.last()), p);
                    let q = choose|q: int| 0 <= q < r.len() && r[q] == prev[p];
                    assert(n[q] == r[q]);
                }
            }
        }
        assert forall|i: int| 0 <= i < s.len() && !keys.contains(s[i].key) implies #[trigger] n.contains(
            s[i],
        ) by {
            assert(!keys.drop_last().contains(s[i].key)) by {
                if keys.drop_last().contains(s[i].key) {
                    let t = choose|t: int| 0 <= t < keys.drop_last().len() && keys.drop_last()[t] == s[i].key;
                    assert(keys[t] == s[i].key);
                }
            }
            assert(keys[keys.len() - 1] == keys.last());
            assert(s[i].key != keys.last());
            assert(install(s, scene, keys.drop_last()).contains(s[i]));
            let p = choose|p: int| 0 <= p < prev.len() && prev[p] == s[i];
            lemma_keep_where_keeps(prev, not_key(keys.last()), p);
            let q = choose|q: int| 0 <= q < r.len() && r[q] == prev[p];
            assert(n[q] == r[q]);
        }
    }
}

/// A recall that installs its targets gives every incoming key exactly one
/// active target, owned by the recalled scene, and leaves every active target
/// with another key running.
pub proof fn law_recall_replaces_only_matching_targets(
    v: FadesView,
    scene: FadeSceneIdentity,
    keys: Seq<FadeTargetKey>,
    behavior: SameSceneRecallBehavior,
)
    requires
        keys_unique(v.targets),
        !(spec_recall(v, scene, keys, behavior).1 is Finishing),
    ensures
        keys_unique(spec_recall(v, scene, keys, behavior).0.targets),
        forall|t: int|
            0 <= t < keys.len() ==> spec_recall(v, scene, keys, behavior).0.targets.contains(
                ActiveSlot { key: #[trigger] keys[t], scene, finishing: false },
            ),
        forall|i: int|
            0 <= i < v.targets.len() && !keys.contains(v.targets[i].key) ==> #[trigger] spec_recall(
                v,
                scene,
                keys,
                behavior,
            ).0.targets.contains(v.targets[i]),
{
    lemma_install_unique(v.targets, scene, keys);
    lemma_install_contains(v.targets, scene, keys);
}

/// Aborting leaves nothing active and the timer stopped, and says so once.
pub proof fn law_abort_leaves_nothing_running(v: FadesView, waiting_for_readiness: bool)
    ensures
        spec_abort_all(v).0.targets.len() == 0,
        !spec_abort_all(v).0.ticking,
        spec_abort_all(v).1 == seq![FadeEvent::FadeAborted],
        spec_stop(v, waiting_for_readiness).0.targets.len() == 0,
        !spec_stop(v, waiting_for_readiness).0.ticking || spec_stop(v, waiting_for_readiness).0 == v,
{
}

/// The first decision of a scene recall, once the connection's generation
/// check has answered.
#[derive(Debug, Clone, Copy, PartialEq, Eq, Structural)]
pub enum RecallAdmission {
    /// No targets and no completion owner: the recall has started, with nothing to do.
    NothingToDo,
    /// The recall goes on with a fresh console snapshot.
    NeedsSnapshot,
}

/// How an admitted recall proceeds, once a connected snapshot has been read.
#[derive(Debug, Clone, Copy, PartialEq, Eq, Structural)]
pub enum RecallPath {
    /// No targets: only the post-recall readiness wait starts.
    ReadinessOnly,
    /// A zero duration: the targets are written at once and complete.
    Immediate,
    /// The targets fade over the duration (see `ActiveFades::recall`).
    Fade,
}

/// A recall is refused with the generation check's own error when that check
/// fails; otherwise it needs a console snapshot unless it has neither targets
/// nor a completion owner.
pub fn recall_admission(
    generation_check: Result<(), AppCommandError>,
    has_targets: bool,
    completion_owned: bool,
) -> (r: Result<RecallAdmission, AppCommandError>)
    ensures
        generation_check matches Err(e) ==> r == Err::<RecallAdmission, AppCommandError>(e),
        generation_check is Ok ==> r == Ok::<RecallAdmission, AppCommandError>(
            if !has_targets && !completion_owned {
                RecallAdmission::NothingToDo
            } else {
                RecallAdmission::NeedsSnapshot
            },
        ),
{
    match generation_check {
        Err(e) => Err(e),
        Ok(()) => if !has_targets && !completion_owned {
            Ok(RecallAdmission::NothingToDo)
        } else {
            Ok(RecallAdmission::NeedsSnapshot)
        },
    }
}

/// A recall whose snapshot does not show the console connected fails with
/// `Lv1Unavailable`; otherwise it takes the readiness-only, immediate or fading
/// path.
pub fn recall_path(snapshot_connected: bool, has_targets: bool, duration_ms: u64) -> (r: Result<
    RecallPath,
    AppCommandError,
>)
    ensures
        !snapshot_connected ==> r == Err::<RecallPath, AppCommandError>(
            AppCommandError::Lv1Unavailable,
        ),
        snapshot_connected ==> r == Ok::<RecallPath, AppCommandError>(
            if !has_targets {
                RecallPath::ReadinessOnly
            } else if duration_ms == 0 {
                RecallPath::Immediate
            } else {
                RecallPath::Fade
            },
        ),
{
    if !snapshot_connected {
        Err(AppCommandError::Lv1Unavailable)
    } else if !has_targets {
        Ok(RecallPath::ReadinessOnly)
    } else if duration_ms == 0 {
        Ok(RecallPath::Immediate)
    } else {
        Ok(RecallPath::Fade)
    }
}

/// Where a (re)started target's start value comes from.
#[derive(Debug, Clone, Copy, PartialEq, Eq, Structural)]
pub enum StartSource {
    /// The live value in the console snapshot.
    Snapshot,
    /// The current value of the active target it replaces.
    Active,
    /// The target value itself: the fade starts where it ends.
    Target,
}

/// While a readiness wait is pending the console's live value comes first,
/// otherwise the replaced active target's value; failing both, the target.
pub fn start_value_source(waiting_for_readiness: bool, active_known: bool, snapshot_known: bool) -> (r:
    StartSource)
    ensures
        r == if waiting_for_readiness {
            if snapshot_known {
                StartSource::Snapshot
            } else if active_known {
                StartSource::Active
            } else {
                StartSource::Target
            }
        } else {
            if active_known {
                StartSource::Active
            } else if snapshot_known {
                StartSource::Snapshot
            } else {
                StartSource::Target
            }
        },
{
    if waiting_for_readiness {
        if snapshot_known {
            StartSource::Snapshot
        } else if active_known {
            StartSource::Active
        } else {
            StartSource::Target
        }
    } else if active_known {
        StartSource::Active
    } else if snapshot_known {
        StartSource::Snapshot
    } else {
        StartSource::Target
    }
}

proof fn lemma_keep_where_absent(s: Seq<ActiveSlot>, keep: spec_fn(FadeTargetKey) -> bool, key: FadeTargetKey)
    requires
        !has_key(s, key),
    ensures
        !has_key(keep_where(s, keep), key),
{
    lemma_keep_where_members(s, keep);
    if has_key(keep_where(s, keep), key) {
        let j = choose|j: int| 0 <= j < keep_where(s, keep).len() && keep_where(s, keep)[j].key == key;
        assert(s.contains(keep_where(s, keep)[j]));
        let t = choose|t: int| 0 <= t < s.len() && s[t] == keep_where(s, keep)[j];
        assert(s[t].key == key);
    }
}

proof fn lemma_remove_keys_removes(s: Seq<ActiveSlot>, keys: Seq<FadeTargetKey>)
    ensures
        forall|j: int| 0 <= j < keys.len() ==> !has_key(remove_keys(s, keys), #[trigger] keys[j]),
    decreases keys.len(),
{
    if keys.len() > 0 {
        let before = remove_keys(s, keys.drop_last());
        lemma_remove_keys_removes(s, keys.drop_last());
        lemma_remove_key_absent(before, keys.last());
        assert forall|j: int| 0 <= j < keys.len() implies !has_key(
            remove_keys(s, keys),
            #[trigger] keys[j],
        ) by {
            if j < keys.len() - 1 {
                assert(keys.drop_last()[j] == keys[j]);
                lemma_keep_where_absent(before, not_key(keys.last()), keys[j]);
            }
        }
    }
}

proof fn lemma_due_keys(s: Seq<ActiveSlot>, time_up: Seq<bool>)
    requires
        time_up.len() == s.len(),
    ensures
        forall|i: int|
            0 <= i < s.len() && (time_up[i] || s[i].finishing) ==> spec_due_keys(s, time_up).contains(
                #[trigger] s[i].key,
            ),
    decreases s.len(),
{
    if s.len() > 0 {
        let rest_up = time_up.take(s.len() - 1);
        lemma_due_keys(s.drop_last(), rest_up);
        let rest = spec_due_keys(s.drop_last(), rest_up);
        assert forall|i: int| 0 <= i < s.len() && (time_up[i] || s[i].finishing) implies spec_due_keys(
            s,
            time_up,
        ).contains(#[trigger] s[i].key) by {
            if i < s.len() - 1 {
                assert(s.drop_last()[i] == s[i]);
                assert(rest_up[i] == time_up[i]);
                assert(rest.contains(s.drop_last()[i].key));
                let t = choose|t: int| 0 <= t < rest.len() && rest[t] == s.drop_last()[i].key;
                if time_up[s.len() - 1] || s.last().finishing {
                    assert(rest.push(s.last().key)[t] == rest[t]);
                }
            } else {
                assert(s[i] == s.last());
                assert(rest.push(s.last().key)[rest.len() as int] == s.last().key);
            }
        }
    }
}

/// Feedback that carries another generation than the engine's own (a fader or
/// pan report, or a disconnect) changes nothing and publishes nothing.
pub proof fn law_other_generation_feedback_is_ignored(
    v: FadesView,
    engine_generation: u64,
    feedback: EngineFeedback,
    waiting_for_readiness: bool,
)
    requires
        feedback_generation(feedback) != engine_generation,
        !(feedback is ActiveGenerationChanged),
    ensures
        spec_feedback(v, engine_generation, feedback, waiting_for_readiness) == (
            v,
            Seq::<FadeEvent>::empty(),
        ),
{
}

/// When the active generation moves away from the engine's, everything is
/// cancelled: no target is left, and whenever something was running or waiting
/// for readiness the tick timer stops and exactly one abort is published.
pub proof fn law_revocation_cancels_everything(
    v: FadesView,
    engine_generation: u64,
    generation: u64,
    waiting_for_readiness: bool,
)
    requires
        generation != engine_generation,
    ensures
        ({
            let (after, events) = spec_feedback(
                v,
                engine_generation,
                EngineFeedback::ActiveGenerationChanged { generation },
                waiting_for_readiness,
            );
            &&& after.targets.len() == 0
            &&& (v.targets.len() > 0 || waiting_for_readiness) ==> !after.ticking && events == seq![
                FadeEvent::FadeAborted,
            ]
            &&& !(v.targets.len() > 0 || waiting_for_readiness) ==> after == v && events.len() == 0
        }),
{
}

/// A repeated recall of a scene that owns active targets, under
/// `FinishActiveTargets`, reports how many it owns and marks each of them to
/// finish; the next tick completes every one of them, whatever their time,
/// so that after a successful tick none of them remains active.
pub proof fn law_finishing_targets_complete_on_next_tick(
    v: FadesView,
    scene: FadeSceneIdentity,
    keys: Seq<FadeTargetKey>,
    time_up: Seq<bool>,
)
    requires
        count_scene(v.targets, scene) > 0,
        time_up.len() == v.targets.len(),
    ensures
        ({
            let (after, outcome) = spec_recall(
                v,
                scene,
                keys,
                SameSceneRecallBehavior::FinishActiveTargets,
            );
            let due = spec_due_keys(after.targets, time_up);
            let ticked = spec_tick_succeeded(after, due, true).0;
            &&& outcome == RecallSceneFadeOutcome::Finishing {
                target_count: count_scene(v.targets, scene) as usize,
            }
            &&& after.targets.len() == v.targets.len()
            &&& forall|i: int|
                0 <= i < v.targets.len() ==> (#[trigger] after.targets[i]).key == v.targets[i].key
                    && after.targets[i].scene == v.targets[i].scene
            &&& forall|i: int|
                0 <= i < after.targets.len() && same_scene(after.targets[i].scene, scene)
                    ==> (#[trigger] after.targets[i]).finishing && due.contains(after.targets[i].key)
                    && !has_key(ticked.targets, after.targets[i].key)
        }),
{
    let after = spec_recall(v, scene, keys, SameSceneRecallBehavior::FinishActiveTargets).0;
    let due = spec_due_keys(after.targets, time_up);
    lemma_due_keys(after.targets, time_up);
    lemma_remove_keys_removes(after.targets, due);
    assert forall|i: int|
        0 <= i < after.targets.len() && same_scene(after.targets[i].scene, scene) implies (
        #[trigger] after.targets[i]).finishing && due.contains(after.targets[i].key) && !has_key(
        spec_tick_succeeded(after, due, true).0.targets,
        after.targets[i].key,
    ) by {
        assert(due.contains(after.targets[i].key));
        let t = choose|t: int| 0 <= t < due.len() && due[t] == after.targets[i].key;
        assert(!has_key(remove_keys(after.targets, due), due[t]));
    }
}

/// Whether an admitted recall installs (or resets) the post-recall readiness
/// wait once its path has run: a targetless recall does (it exists only for
/// its completion owner), a zero-duration one exactly when its completion is
/// owned, and a fading one always. A recall with neither targets nor a
/// completion owner never gets this far (`RecallAdmission::NothingToDo`).
pub fn installs_readiness(path: RecallPath, completion_owned: bool) -> (r: bool)
    ensures
        r == match path {
            RecallPath::ReadinessOnly => true,
            RecallPath::Immediate => completion_owned,
            RecallPath::Fade => true,
        },
{
    match path {
        RecallPath::ReadinessOnly => true,
        RecallPath::Immediate => completion_owned,
        RecallPath::Fade => true,
    }
}

/// Manual-override reports only hand targets back: they never publish an
/// abort and never add a target. (A pending readiness wait is not an input of
/// these steps, so an override leaves it as it is.)
pub proof fn law_override_reports_never_abort(
    v: FadesView,
    group: i32,
    channel: i32,
    out_of_threshold: bool,
    pan_target_confirms: bool,
)
    ensures
        !spec_fader_report(v, group, channel, out_of_threshold).1.contains(FadeEvent::FadeAborted),
        !spec_pan_report(v, group, channel, pan_target_confirms).1.contains(FadeEvent::FadeAborted),
        spec_fader_report(v, group, channel, out_of_threshold).0.targets.len() <= v.targets.len(),
        spec_pan_report(v, group, channel, pan_target_confirms).0.targets.len() <= v.targets.len(),
{
    let keep = not_pan_family_of(group, channel);
    let cancelled = cancelled_parameter_events(group, channel, dropped_parameters(v.targets, keep));
    lemma_remove_key_absent(v.targets, fader_key(group, channel));
    lemma_keep_where_members(v.targets, keep);
    let fe = spec_fader_report(v, group, channel, out_of_threshold).1;
    if fe.contains(FadeEvent::FadeAborted) {
        let i = choose|i: int| 0 <= i < fe.len() && fe[i] == FadeEvent::FadeAborted;
        assert(false);
    }
    let pe = spec_pan_report(v, group, channel, pan_target_confirms).1;
    if pe.contains(FadeEvent::FadeAborted) {
        let i = choose|i: int| 0 <= i < pe.len() && pe[i] == FadeEvent::FadeAborted;
        if 1 <= i < 1 + cancelled.len() {
            assert(pe[i] == cancelled[i - 1]);
        }
        assert(false);
    }
}

proof fn lemma_count_scene_none(s: Seq<ActiveSlot>, scene: FadeSceneIdentity)
    requires
        forall|i: int| 0 <= i < s.len() ==> (#[trigger] s[i]).scene.index != scene.index,
    ensures
        count_scene(s, scene) == 0,
    decreases s.len(),
{
    if s.len() > 0 {
        assert forall|i: int| 0 <= i < s.drop_last().len() implies (#[trigger] s.drop_last()[i]).scene.index
            != scene.index by {
            assert(s.drop_last()[i] == s[i]);
        }
        lemma_count_scene_none(s.drop_last(), scene);
        assert(s[s.len() - 1].scene.index != scene.index);
    }
}

/// Scenes are told apart by console index and name together: two scenes that
/// share a name but not an index are different scenes. So a recall of a scene
/// whose index differs from that of every active target's scene owns no
/// active target: whatever the same-scene behaviour, it installs each of its
/// keys (owned by the recalled scene), keeps the other targets, and answers
/// `Started` or `Overriding`, never `Finishing`.
pub proof fn law_recall_of_another_scene_installs(
    v: FadesView,
    scene: FadeSceneIdentity,
    keys: Seq<FadeTargetKey>,
    behavior: SameSceneRecallBehavior,
    other: FadeSceneIdentity,
)
    requires
        forall|i: int| 0 <= i < v.targets.len() ==> (#[trigger] v.targets[i]).scene.index
            != scene.index,
    ensures
        other.name@ == scene.name@ && other.index != scene.index ==> !same_scene(other, scene),
        ({
            let (after, outcome) = spec_recall(v, scene, keys, behavior);
            &&& !(outcome is Finishing)
            &&& (outcome is Started || outcome is Overriding)
            &&& forall|t: int|
                0 <= t < keys.len() ==> after.targets.contains(
                    ActiveSlot { key: #[trigger] keys[t], scene, finishing: false },
                )
            &&& forall|i: int|
                0 <= i < v.targets.len() && !keys.contains(v.targets[i].key)
                    ==> #[trigger] after.targets.contains(v.targets[i])
        }),
{
    lemma_count_scene_none(v.targets, scene);
    lemma_install_contains(v.targets, scene, keys);
}

} // verus!
