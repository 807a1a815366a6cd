//! Presentation logic of the scene editor: which scene is current, cued or
//! selected, duplicate names, link targets, duration steps, channel grouping and
//! the channel scope panel.
use vstd::prelude::*;
use crate::cues::{selected_scene_config, spec_selected_scene};
use crate::ordering_text::{
    lemma_text_lt_irreflexive, lemma_text_lt_total, lemma_text_lt_transitive, text_less, text_lt,
};
use crate::text::{decimal, push_decimal, string_from_chars};
use crate::view_state::{AppViewState, ChannelRef, SceneConfig, SceneSummary};

verus! {

/// The selected scene configuration (see `cues::selected_scene_config`).
pub fn selected_scene(snapshot: &AppViewState) -> (r: Option<&SceneConfig>)
    ensures
        match spec_selected_scene(*snapshot) {
            None => r is None,
            Some(i) => r == Some(&snapshot.scene_configs@[i]),
        },
{
    selected_scene_config(snapshot)
}

/// A scene is current when the console reports exactly its index and name.
pub open spec fn spec_is_current(scene: SceneConfig, current: Option<SceneSummary>) -> bool {
    match current {
        Some(c) => scene.scene_index == Some(c.index) && c.name@ == scene.scene_name@,
        None => false,
    }
}

pub fn is_current(scene: &SceneConfig, current: Option<&SceneSummary>) -> (r: bool)
    ensures
        r == spec_is_current(
            *scene,
            match current {
                Some(c) => Some(*c),
                None => None,
            },
        ),
{
    match current {
        Some(current) => scene.scene_index == Some(current.index) && current.name
            == scene.scene_name,
        None => false,
    }
}

/// How a row of the scene list is marked.
#[derive(Clone, Copy, Debug, PartialEq, Eq, Structural)]
pub struct SceneRowState {
    pub current: bool,
    pub cued: bool,
    pub selected: bool,
    pub unlinked: bool,
}

pub fn row_state(
    scene: &SceneConfig,
    current: Option<&SceneSummary>,
    cued_id: Option<u128>,
    selected_id: Option<u128>,
) -> (s: SceneRowState)
    ensures
        s.current == spec_is_current(
            *scene,
            match current {
                Some(c) => Some(*c),
                None => None,
            },
        ),
        s.cued == (cued_id == Some(scene.internal_scene_id)),
        s.selected == (selected_id == Some(scene.internal_scene_id)),
        s.unlinked == scene.scene_index is None,
{
    SceneRowState {
        current: is_current(scene, current),
        cued: cued_id == Some(scene.internal_scene_id),
        selected: selected_id == Some(scene.internal_scene_id),
        unlinked: scene.scene_index.is_none(),
    }
}

/// The colour role of a scene row, by precedence.
#[derive(Clone, Copy, Debug, PartialEq, Eq, Structural)]
pub enum RowTone {
    Warning,
    Current,
    Cued,
    Selected,
    Secondary,
}

pub fn row_color(state: SceneRowState) -> (t: RowTone)
    ensures
        t == if state.unlinked {
            RowTone::Warning
        } else if state.current {
            RowTone::Current
        } else if state.cued {
            RowTone::Cued
        } else if state.selected {
            RowTone::Selected
        } else {
            RowTone::Secondary
        },
{
    if state.unlinked {
        RowTone::Warning
    } else if state.current {
        RowTone::Current
    } else if state.cued {
        RowTone::Cued
    } else if state.selected {
        RowTone::Selected
    } else {
        RowTone::Secondary
    }
}

/// How many scene configurations carry the name `name`.
pub open spec fn name_count(scenes: Seq<SceneConfig>, name: Seq<char>) -> nat
    decreases scenes.len(),
{
    if scenes.len() == 0 {
        0
    } else {
        name_count(scenes.drop_last(), name) + if scenes.last().scene_name@ == name {
            1nat
        } else {
            0nat
        }
    }
}

fn count_name(scenes: &Vec<SceneConfig>, name: &String) -> (c: usize)
    ensures
        c == name_count(scenes@, name@),
{
    let mut c: usize = 0;
    let mut i: usize = 0;
    while i < scenes.len()
        invariant
            i <= scenes@.len(),
            c == name_count(scenes@.take(i as int), name@),
            c <= i,
        decreases scenes@.len() - i,
    {
        assert(scenes@.take(i + 1).drop_last() =~= scenes@.take(i as int));
        if scenes[i].scene_name == *name {
            c = c + 1;
        }
        i = i + 1;
    }
    assert(scenes@.take(i as int) =~= scenes@);
    c
}

/// The texts of a list of strings.
pub open spec fn texts(v: Seq<String>) -> Seq<Seq<char>> {
    v.map_values(|s: String| s@)
}

fn contains_text(v: &Vec<String>, s: &String) -> (r: bool)
    ensures
        r == texts(v@).contains(s@),
{
    let mut i: usize = 0;
    while i < v.len()
        invariant
            i <= v@.len(),
            forall|j: int| 0 <= j < i ==> v@[j]@ != s@,
        decreases v@.len() - i,
    {
        if v[i] == *s {
            assert(texts(v@)[i as int] == s@);
            return true;
        }
        i = i + 1;
    }
    assert forall|j: int| 0 <= j < texts(v@).len() implies texts(v@)[j] != s@ by {
        assert(texts(v@)[j] == v@[j]@);
    }
    false
}

/// Scene names used more than once, each listed once, in `str` order.
pub open spec fn is_duplicate_name_list(scenes: Seq<SceneConfig>, r: Seq<Seq<char>>) -> bool {
    &&& forall|i: int, j: int| 0 <= i < j < r.len() ==> text_lt(r[i], r[j])
    &&& forall|n: Seq<char>| r.contains(n) <==> name_count(scenes, n) >= 2
}

pub fn duplicate_scene_names(scenes: &Vec<SceneConfig>) -> (r: Vec<String>)
    ensures
        is_duplicate_name_list(scenes@, texts(r@)),
{
    // Collect each duplicated name once.
    let mut dups: Vec<String> = Vec::new();
    let mut i: usize = 0;
    while i < scenes.len()
        invariant
            i <= scenes@.len(),
            forall|a: int, b: int| 0 <= a < b < dups@.len() ==> dups@[a]@ != dups@[b]@,
            forall|a: int|
                0 <= a < dups@.len() ==> name_count(scenes@, #[trigger] dups@[a]@) >= 2,
            forall|j: int|
                0 <= j < i && name_count(scenes@, #[trigger] scenes@[j].scene_name@) >= 2
                    ==> texts(dups@).contains(scenes@[j].scene_name@),
        decreases scenes@.len() - i,
    {
        let name = &scenes[i].scene_name;
        if count_name(scenes, name) >= 2 && !contains_text(&dups, name) {
            let ghost before = dups@;
            dups.push(name.clone());
            assert forall|j: int|
                0 <= j < i + 1 && name_count(scenes@, #[trigger] scenes@[j].scene_name@) >= 2
                    implies texts(dups@).contains(scenes@[j].scene_name@) by {
                if j < i {
                    let k = choose|k: int|
                        0 <= k < texts(before).len() && texts(before)[k] == scenes@[j].scene_name@;
                    assert(texts(dups@)[k] == texts(before)[k]);
                } else {
                    assert(texts(dups@)[dups@.len() - 1] == scenes@[j].scene_name@);
                }
            }
            assert forall|a: int, b: int| 0 <= a < b < dups@.len() implies dups@[a]@ != dups@[b]@ by {
                if b == dups@.len() - 1 {
                    assert(texts(before)[a] == before[a]@);
                }
            }
        }
        i = i + 1;
    }
    proof {
        assert forall|n: Seq<char>| name_count(scenes@, n) >= 2 implies texts(dups@).contains(n) by {
            lemma_name_present(scenes@, n);
            let j = choose|j: int| 0 <= j < scenes@.len() && scenes@[j].scene_name@ == n;
        }
    }
    // Selection sort of the distinct names.
    let mut sorted: Vec<String> = Vec::new();
    while dups.len() > 0
        invariant
            forall|a: int, b: int| 0 <= a < b < dups@.len() ==> dups@[a]@ != dups@[b]@,
            forall|a: int, b: int| 0 <= a < b < sorted@.len() ==> text_lt(sorted@[a]@, sorted@[b]@),
            forall|a: int, b: int|
                0 <= a < sorted@.len() && 0 <= b < dups@.len() ==> text_lt(
                    sorted@[a]@,
                    dups@[b]@,
                ),
            forall|n: Seq<char>|
                texts(sorted@).contains(n) || texts(dups@).contains(n) <==> name_count(scenes@, n)
                    >= 2,
        decreases dups@.len(),
    {
        let mut m: usize = 0;
        let mut k: usize = 1;
        while k < dups.len()
            invariant
                0 < dups@.len(),
                m < dups@.len(),
                1 <= k <= dups@.len(),
                m < k,
                forall|a: int, b: int| 0 <= a < b < dups@.len() ==> dups@[a]@ != dups@[b]@,
                forall|b: int| 0 <= b < k && b != m ==> text_lt(dups@[m as int]@, dups@[b]@),
            decreases dups@.len() - k,
        {
            if text_less(&dups[k], &dups[m]) {
                proof {
                    assert forall|b: int| 0 <= b < k + 1 && b != k implies text_lt(
                        dups@[k as int]@,
                        dups@[b]@,
                    ) by {
                        if b != m {
                            lemma_text_lt_transitive(dups@[k as int]@, dups@[m as int]@, dups@[b]@);
                        }
                    }
                }
                m = k;
            } else {
                proof {
                    lemma_text_lt_total(dups@[k as int]@, dups@[m as int]@);
                }
            }
            k = k + 1;
        }
        let ghost before_dups = dups@;
        let ghost before_sorted = sorted@;
        assert(forall|n: Seq<char>|
            texts(before_sorted).contains(n) || texts(before_dups).contains(n) <==> name_count(
                scenes@,
                n,
            ) >= 2);
        let smallest = dups.remove(m);
        sorted.push(smallest);
        proof {
            assert forall|a: int, b: int| 0 <= a < b < sorted@.len() implies text_lt(
                sorted@[a]@,
                sorted@[b]@,
            ) by {
                if b == sorted@.len() - 1 {
                    assert(sorted@[a] == before_sorted[a]);
                }
            }
            assert forall|a: int, b: int|
                0 <= a < sorted@.len() && 0 <= b < dups@.len() implies text_lt(
                sorted@[a]@,
                dups@[b]@,
            ) by {
                let ob = if b < m { b } else { b + 1 };
                assert(dups@[b] == before_dups[ob]);
                if a == sorted@.len() - 1 {
                    assert(ob != m);
                } else {
                    assert(sorted@[a] == before_sorted[a]);
                }
            }
            assert forall|a: int, b: int| 0 <= a < b < dups@.len() implies dups@[a]@ != dups@[b]@ by {
                let oa = if a < m { a } else { a + 1 };
                let ob = if b < m { b } else { b + 1 };
                assert(dups@[a] == before_dups[oa]);
                assert(dups@[b] == before_dups[ob]);
            }
            assert forall|n: Seq<char>|
                texts(sorted@).contains(n) || texts(dups@).contains(n) <==> texts(
                    before_sorted,
                ).contains(n) || texts(before_dups).contains(n) by {
                if texts(before_dups).contains(n) {
                    let j = choose|j: int| 0 <= j < texts(before_dups).len() && texts(before_dups)[j] == n;
                    if j == m {
                        assert(texts(sorted@)[sorted@.len() - 1] == n);
                    } else if j < m {
                        assert(texts(dups@)[j] == n);
                    } else {
                        assert(texts(dups@)[j - 1] == n);
                    }
                }
                if texts(before_sorted).contains(n) {
                    let j = choose|j: int| 0 <= j < texts(before_sorted).len() && texts(before_sorted)[j] == n;
                    assert(texts(sorted@)[j] == n);
                }
                if texts(sorted@).contains(n) {
                    let j = choose|j: int| 0 <= j < texts(sorted@).len() && texts(sorted@)[j] == n;
                    if j < before_sorted.len() {
                        assert(texts(before_sorted)[j] == n);
                    } else {
                        assert(texts(before_dups)[m as int] == n);
                    }
                }
                if texts(dups@).contains(n) {
                    let j = choose|j: int| 0 <= j < texts(dups@).len() && texts(dups@)[j] == n;
                    let oj = if j < m { j } else { j + 1 };
                    assert(texts(before_dups)[oj] == n);
                }
            }
            assert forall|n: Seq<char>|
                texts(sorted@).contains(n) || texts(dups@).contains(n) <==> name_count(scenes@, n)
                    >= 2 by {
                assert(texts(sorted@).contains(n) || texts(dups@).contains(n) <==> texts(
                    before_sorted,
                ).contains(n) || texts(before_dups).contains(n));
                assert(texts(before_sorted).contains(n) || texts(before_dups).contains(n) <==> name_count(
                    scenes@,
                    n,
                ) >= 2);
            }
        }
    }
    proof {
        assert forall|i: int, j: int| 0 <= i < j < texts(sorted@).len() implies text_lt(
            texts(sorted@)[i],
            texts(sorted@)[j],
        ) by {}
        assert forall|n: Seq<char>| texts(sorted@).contains(n) <==> name_count(scenes@, n) >= 2 by {
            assert(!texts(dups@).contains(n));
        }
    }
    sorted
}

proof fn lemma_name_present(scenes: Seq<SceneConfig>, n: Seq<char>)
    requires
        name_count(scenes, n) > 0,
    ensures
        exists|j: int| 0 <= j < scenes.len() && scenes[j].scene_name@ == n,
    decreases scenes.len(),
{
    if scenes.last().scene_name@ == n {
        assert(scenes[scenes.len() - 1].scene_name@ == n);
    } else {
        lemma_name_present(scenes.drop_last(), n);
        let j = choose|j: int|
            0 <= j < scenes.drop_last().len() && scenes.drop_last()[j].scene_name@ == n;
        assert(scenes[j] == scenes.drop_last()[j]);
    }
}

} // verus!

verus! {

/// Whether some scene configuration links console scene `index`.
pub open spec fn index_linked(configs: Seq<SceneConfig>, index: i32) -> bool {
    exists|j: int| 0 <= j < configs.len() && configs[j].scene_index == Some(index)
}

pub open spec fn unlinked_scene(configs: Seq<SceneConfig>) -> spec_fn(SceneSummary) -> bool {
    |s: SceneSummary| !index_linked(configs, s.index)
}

/// The default link target: the first console scene that no configuration links,
/// else the first console scene.
pub open spec fn spec_default_link_target(s: AppViewState) -> Option<i32> {
    match crate::lookup::first_where(s.scenes@, unlinked_scene(s.scene_configs@)) {
        Some(i) => Some(s.scenes@[i].index),
        None => if s.scenes@.len() > 0 {
            Some(s.scenes@[0].index)
        } else {
            None
        },
    }
}

/// Whether some configuration is linked to the console scene `index`.
pub fn is_linked(configs: &Vec<SceneConfig>, index: i32) -> (r: bool)
    ensures
        r == index_linked(configs@, index),
{
    let mut j: usize = 0;
    while j < configs.len()
        invariant
            j <= configs@.len(),
            forall|k: int| 0 <= k < j ==> configs@[k].scene_index != Some(index),
        decreases configs@.len() - j,
    {
        if configs[j].scene_index == Some(index) {
            return true;
        }
        j = j + 1;
    }
    false
}

pub fn default_link_target(snapshot: &AppViewState) -> (r: Option<i32>)
    ensures
        r == spec_default_link_target(*snapshot),
{
    let ghost p = unlinked_scene(snapshot.scene_configs@);
    let mut i: usize = 0;
    while i < snapshot.scenes.len()
        invariant
            i <= snapshot.scenes@.len(),
            p == unlinked_scene(snapshot.scene_configs@),
            crate::lookup::first_where(snapshot.scenes@.take(i as int), p) is None,
        decreases snapshot.scenes@.len() - i,
    {
        proof {
            crate::lookup::lemma_first_where_step(snapshot.scenes@, p, i as int);
        }
        if !is_linked(&snapshot.scene_configs, snapshot.scenes[i].index) {
            proof {
                crate::lookup::lemma_first_where_prefix(snapshot.scenes@, p, i + 1);
            }
            return Some(snapshot.scenes[i].index);
        }
        i = i + 1;
    }
    proof {
        crate::lookup::lemma_first_where_prefix(snapshot.scenes@, p, i as int);
    }
    if snapshot.scenes.len() > 0 {
        Some(snapshot.scenes[0].index)
    } else {
        None
    }
}

/// One step of the duration editor: one second up or down from `duration_ms`;
/// zero stays zero, anything else is held within 0.1–120 seconds.
pub open spec fn spec_step_duration(duration_ms: u64, direction: i64) -> u64 {
    let next = duration_ms + direction * 1000;
    if next <= 0 {
        0
    } else if next < 100 {
        100
    } else if next > 120_000 {
        120_000
    } else {
        next as u64
    }
}

pub fn step_duration(duration_ms: u64, direction: i64) -> (r: u64)
    ensures
        r == spec_step_duration(duration_ms, direction),
{
    let next: i128 = duration_ms as i128 + direction as i128 * 1000;
    if next <= 0 {
        0
    } else if next < 100 {
        100
    } else if next > 120_000 {
        120_000
    } else {
        next as u64
    }
}

/// A projected duration that differs from the pending target of the same scene
/// is an intermediate projection: keep the newer draft.
pub fn preserve_pending_duration_draft(
    pending: Option<(u128, u64)>,
    projected: Option<(u128, u64)>,
) -> (r: bool)
    ensures
        r == match (pending, projected) {
            (Some((ps, pt)), Some((s, d))) => s == ps && d != pt,
            _ => false,
        },
{
    match (pending, projected) {
        (Some((pending_scene, pending_target)), Some((scene, duration))) => scene == pending_scene
            && duration != pending_target,
        _ => false,
    }
}

pub fn duration_step_requires_dispatch(next: u64, projected: u64, pending: bool) -> (r: bool)
    ensures
        r == (next != projected || pending),
{
    next != projected || pending
}

/// A duration step starts from the typed draft when it parses (`normalized`),
/// else from the projected duration.
pub fn stepped_duration(normalized: Option<u64>, projected: u64, direction: i64) -> (r: u64)
    ensures
        r == spec_step_duration(
            match normalized {
                Some(d) => d,
                None => projected,
            },
            direction,
        ),
{
    let base = match normalized {
        Some(d) => d,
        None => projected,
    };
    step_duration(base, direction)
}

/// The numeric part of a duration draft: trimmed, without trailing `s`/`S`
/// units; `None` when nothing is left.
pub open spec fn strip_seconds_suffix(s: Seq<char>) -> Seq<char>
    decreases s.len(),
{
    if s.len() > 0 && (s.last() == 's' || s.last() == 'S') {
        strip_seconds_suffix(s.drop_last())
    } else {
        s
    }
}

pub fn duration_seconds_text(draft: &str) -> (r: Option<String>)
    ensures
        ({
            let t = strip_seconds_suffix(crate::text::spec_trim(draft@));
            if t.len() == 0 {
                r is None
            } else {
                r matches Some(text) && text@ == t
            }
        }),
{
    let chars = crate::text::chars_of(draft);
    let trimmed = crate::text::trim_chars(&chars);
    let mut end: usize = trimmed.len();
    assert(trimmed@.take(trimmed@.len() as int) =~= trimmed@);
    while end > 0 && (trimmed[end - 1] == 's' || trimmed[end - 1] == 'S')
        invariant
            end <= trimmed@.len(),
            strip_seconds_suffix(trimmed@) == strip_seconds_suffix(trimmed@.take(end as int)),
        decreases end,
    {
        assert(trimmed@.take(end as int).drop_last() =~= trimmed@.take(end - 1));
        end = end - 1;
    }
    if end == 0 {
        assert(trimmed@.take(0) =~= Seq::<char>::empty());
        return None;
    }
    let mut out: Vec<char> = Vec::new();
    let mut i: usize = 0;
    while i < end
        invariant
            i <= end <= trimmed@.len(),
            out@ == trimmed@.take(i as int),
        decreases end - i,
    {
        out.push(trimmed[i]);
        i = i + 1;
        assert(out@ =~= trimmed@.take(i as int));
    }
    Some(string_from_chars(out.as_slice()))
}

/// Integer decimal with a leading minus sign for negatives.
pub open spec fn signed_decimal(n: int) -> Seq<char> {
    if n < 0 {
        seq!['-'] + decimal((-n) as nat)
    } else {
        decimal(n as nat)
    }
}

/// `s` left-padded with zeros to `width` characters.
pub open spec fn zero_pad(s: Seq<char>, width: nat) -> Seq<char> {
    if s.len() >= width {
        s
    } else {
        Seq::new((width - s.len()) as nat, |i: int| '0') + s
    }
}

/// Console scene numbers are one-based and zero-padded to three places
/// (`{:03}`, the sign counting towards the width); unlinked scenes show `---`.
pub open spec fn spec_scene_number(index: Option<i32>) -> Seq<char> {
    match index {
        None => "---"@,
        Some(i) => if i + 1 < 0 {
            seq!['-'] + zero_pad(decimal((-(i + 1)) as nat), 2)
        } else {
            zero_pad(decimal((i + 1) as nat), 3)
        },
    }
}

fn push_zero_padded(out: &mut Vec<char>, n: u64, width: usize)
    ensures
        final(out)@ == old(out)@ + zero_pad(decimal(n as nat), width as nat),
{
    let mut digits: Vec<char> = Vec::new();
    push_decimal(&mut digits, n);
    assert(digits@ =~= decimal(n as nat));
    let ghost start = out@;
    if digits.len() < width {
        let mut k: usize = 0;
        let pad = width - digits.len();
        while k < pad
            invariant
                k <= pad,
                out@ == start + Seq::new(k as nat, |i: int| '0'),
            decreases pad - k,
        {
            out.push('0');
            k = k + 1;
            assert(out@ =~= start + Seq::new(k as nat, |i: int| '0'));
        }
    }
    let ghost mid = out@;
    let mut j: usize = 0;
    while j < digits.len()
        invariant
            j <= digits@.len(),
            out@ == mid + digits@.take(j as int),
        decreases digits@.len() - j,
    {
        out.push(digits[j]);
        j = j + 1;
        assert(out@ =~= mid + digits@.take(j as int));
    }
    assert(digits@.take(j as int) =~= digits@);
    assert(out@ =~= start + zero_pad(decimal(n as nat), width as nat));
}

pub fn format_scene_number(index: Option<i32>) -> (s: String)
    requires
        index matches Some(i) ==> i < i32::MAX,
    ensures
        s@ == spec_scene_number(index),
{
    match index {
        None => String::from_str("---"),
        Some(i) => {
            let n: i64 = i as i64 + 1;
            let mut out: Vec<char> = Vec::new();
            if n < 0 {
                out.push('-');
                push_zero_padded(&mut out, (-n) as u64, 2);
            } else {
                push_zero_padded(&mut out, n as u64, 3);
            }
            assert(out@ =~= spec_scene_number(index));
            string_from_chars(out.as_slice())
        },
    }
}

/// The mixer section a channel group belongs to, by position in the display order
/// Inputs, Groups, Aux, Masters, Matrix, Link/DCAs, Unknown.
pub open spec fn group_class(group: i32) -> int {
    if group == 0 {
        0
    } else if group == 1 {
        1
    } else if group == 2 {
        2
    } else if group == 6 {
        4
    } else if group == 12 {
        5
    } else if group == 3 || group == 4 || group == 5 || group == 7 || group == 8 {
        3
    } else {
        6
    }
}

fn class_of(group: i32) -> (c: usize)
    ensures
        c == group_class(group),
{
    if group == 0 {
        0
    } else if group == 1 {
        1
    } else if group == 2 {
        2
    } else if group == 6 {
        4
    } else if group == 12 {
        5
    } else if group == 3 || group == 4 || group == 5 || group == 7 || group == 8 {
        3
    } else {
        6
    }
}

/// The display names of the mixer sections, in display order.
pub open spec fn class_label(c: int) -> Seq<char> {
    if c == 0 {
        "Inputs"@
    } else if c == 1 {
        "Groups"@
    } else if c == 2 {
        "Aux"@
    } else if c == 3 {
        "Masters"@
    } else if c == 4 {
        "Matrix"@
    } else if c == 5 {
        "Link/DCAs"@
    } else {
        "Unknown"@
    }
}

fn label_of(c: usize) -> (s: &'static str)
    ensures
        s@ == class_label(c as int),
{
    if c == 0 {
        "Inputs"
    } else if c == 1 {
        "Groups"
    } else if c == 2 {
        "Aux"
    } else if c == 3 {
        "Masters"
    } else if c == 4 {
        "Matrix"
    } else if c == 5 {
        "Link/DCAs"
    } else {
        "Unknown"
    }
}

/// The section name of a channel group.
pub fn channel_group(group: i32) -> (s: &'static str)
    ensures
        s@ == class_label(group_class(group)),
{
    label_of(class_of(group))
}

/// Channel `a` sorts before channel `b`: by group, then channel, then position.
pub open spec fn channel_before(channels: Seq<ChannelRef>, a: int, b: int) -> bool {
    let x = channels[a];
    let y = channels[b];
    x.group < y.group || (x.group == y.group && (x.channel < y.channel || (x.channel == y.channel
        && a < b)))
}

pub open spec fn has_class(channels: Seq<ChannelRef>, c: int) -> bool {
    exists|i: int| 0 <= i < channels.len() && group_class(channels[i].group) == c
}

/// The sections that have channels, among the first `upto`, in display order.
pub open spec fn nonempty_classes(channels: Seq<ChannelRef>, upto: int) -> Seq<int>
    decreases upto,
{
    if upto <= 0 {
        Seq::empty()
    } else {
        nonempty_classes(channels, upto - 1) + if has_class(channels, upto - 1) {
            seq![upto - 1]
        } else {
            Seq::<int>::empty()
        }
    }
}

/// `members` lists exactly the channels of section `c`, in channel order.
pub open spec fn is_sorted_section(channels: Seq<ChannelRef>, c: int, members: Seq<usize>) -> bool {
    &&& forall|k: int| 0 <= k < members.len() ==> #[trigger] members[k] < channels.len()
    &&& forall|k: int| 0 <= k < members.len() ==> group_class(channels[#[trigger] members[k] as int].group) == c
    &&& forall|i: int|
        0 <= i < channels.len() && group_class(channels[i].group) == c ==> exists|k: int|
            0 <= k < members.len() && #[trigger] members[k] == i
    &&& forall|a: int, b: int|
        0 <= a < b < members.len() ==> channel_before(channels, members[a] as int, members[b] as int)
}

fn sort_members(channels: &Vec<ChannelRef>, members: Vec<usize>) -> (r: Vec<usize>)
    requires
        forall|k: int| 0 <= k < members@.len() ==> #[trigger] members@[k] < channels@.len(),
        forall|a: int, b: int| 0 <= a < b < members@.len() ==> members@[a] != members@[b],
    ensures
        forall|k: int| 0 <= k < r@.len() ==> #[trigger] members@.contains(r@[k]),
        forall|k: int| 0 <= k < members@.len() ==> #[trigger] r@.contains(members@[k]),
        forall|a: int, b: int|
            0 <= a < b < r@.len() ==> channel_before(channels@, r@[a] as int, r@[b] as int),
{
    let ghost all = members@;
    let mut rest = members;
    let mut sorted: Vec<usize> = Vec::new();
    while rest.len() > 0
        invariant
            forall|k: int| 0 <= k < rest@.len() ==> #[trigger] rest@[k] < channels@.len(),
            forall|a: int, b: int| 0 <= a < b < rest@.len() ==> rest@[a] != rest@[b],
            forall|k: int| 0 <= k < sorted@.len() ==> #[trigger] all.contains(sorted@[k]),
            forall|k: int| 0 <= k < rest@.len() ==> #[trigger] all.contains(rest@[k]),
            forall|k: int|
                0 <= k < all.len() ==> #[trigger] sorted@.contains(all[k]) || rest@.contains(all[k]),
            forall|a: int, b: int|
                0 <= a < b < sorted@.len() ==> channel_before(
                    channels@,
                    sorted@[a] as int,
                    sorted@[b] as int,
                ),
            forall|a: int, b: int|
                0 <= a < sorted@.len() && 0 <= b < rest@.len() ==> channel_before(
                    channels@,
                    sorted@[a] as int,
                    rest@[b] as int,
                ),
        decreases rest@.len(),
    {
        let mut m: usize = 0;
        let mut k: usize = 1;
        while k < rest.len()
            invariant
                0 < rest@.len(),
                m < k <= rest@.len(),
                forall|j: int| 0 <= j < rest@.len() ==> #[trigger] rest@[j] < channels@.len(),
                forall|a: int, b: int| 0 <= a < b < rest@.len() ==> rest@[a] != rest@[b],
                forall|b: int|
                    0 <= b < k && b != m ==> channel_before(
                        channels@,
                        rest@[m as int] as int,
                        rest@[b] as int,
                    ),
            decreases rest@.len() - k,
        {
            let x = channels[rest[k]];
            let y = channels[rest[m]];
            if x.group < y.group || (x.group == y.group && (x.channel < y.channel || (x.channel
                == y.channel && rest[k] < rest[m]))) {
                m = k;
            }
            k = k + 1;
        }
        let ghost before_rest = rest@;
        let ghost before_sorted = sorted@;
        let smallest = rest.remove(m);
        sorted.push(smallest);
        proof {
            assert forall|a: int, b: int| 0 <= a < b < sorted@.len() implies channel_before(
                channels@,
                sorted@[a] as int,
                sorted@[b] as int,
            ) by {
                if b == sorted@.len() - 1 {
                    assert(sorted@[a] == before_sorted[a]);
                }
            }
            assert forall|a: int, b: int|
                0 <= a < sorted@.len() && 0 <= b < rest@.len() implies channel_before(
                channels@,
                sorted@[a] as int,
                rest@[b] as int,
            ) by {
                let ob = if b < m { b } else { b + 1 };
                assert(rest@[b] == before_rest[ob]);
                if a < sorted@.len() - 1 {
                    assert(sorted@[a] == before_sorted[a]);
                }
            }
            assert forall|a: int, b: int| 0 <= a < b < rest@.len() implies rest@[a] != rest@[b] by {
                let oa = if a < m { a } else { a + 1 };
                let ob = if b < m { b } else { b + 1 };
                assert(rest@[a] == before_rest[oa]);
                assert(rest@[b] == before_rest[ob]);
            }
            assert forall|j: int| 0 <= j < rest@.len() implies #[trigger] rest@[j] < channels@.len()
                && all.contains(rest@[j]) by {
                let oj = if j < m { j } else { j + 1 };
                assert(rest@[j] == before_rest[oj]);
            }
            assert forall|j: int| 0 <= j < sorted@.len() implies #[trigger] all.contains(sorted@[j]) by {
                if j < sorted@.len() - 1 {
                    assert(sorted@[j] == before_sorted[j]);
                }
            }
            assert forall|j: int| 0 <= j < all.len() implies #[trigger] sorted@.contains(all[j])
                || rest@.contains(all[j]) by {
                if before_sorted.contains(all[j]) {
                    let t = choose|t: int| 0 <= t < before_sorted.len() && before_sorted[t] == all[j];
                    assert(sorted@[t] == all[j]);
                } else {
                    let t = choose|t: int| 0 <= t < before_rest.len() && before_rest[t] == all[j];
                    if t == m {
                        assert(sorted@[sorted@.len() - 1] == all[j]);
                    } else if t < m {
                        assert(rest@[t] == all[j]);
                    } else {
                        assert(rest@[t - 1] == all[j]);
                    }
                }
            }
        }
    }
    sorted
}

/// Channels grouped by mixer section in display order, sections without channels
/// omitted, each section's channels (by position) sorted by group then channel.
pub fn grouped_channels(channels: &Vec<ChannelRef>) -> (r: Vec<(&'static str, Vec<usize>)>)
    ensures
        r@.len() == nonempty_classes(channels@, 7).len(),
        forall|k: int|
            0 <= k < r@.len() ==> {
                let c = #[trigger] nonempty_classes(channels@, 7)[k];
                &&& r@[k].0@ == class_label(c)
                &&& is_sorted_section(channels@, c, r@[k].1@)
            },
{
    let mut r: Vec<(&'static str, Vec<usize>)> = Vec::new();
    let mut c: usize = 0;
    while c < 7
        invariant
            c <= 7,
            r@.len() == nonempty_classes(channels@, c as int).len(),
            forall|k: int|
                0 <= k < r@.len() ==> {
                    let cl = #[trigger] nonempty_classes(channels@, c as int)[k];
                    &&& r@[k].0@ == class_label(cl)
                    &&& is_sorted_section(channels@, cl, r@[k].1@)
                },
        decreases 7 - c,
    {
        let mut members: Vec<usize> = Vec::new();
        let mut i: usize = 0;
        while i < channels.len()
            invariant
                i <= channels@.len(),
                forall|k: int| 0 <= k < members@.len() ==> #[trigger] members@[k] < i,
                forall|k: int|
                    0 <= k < members@.len() ==> group_class(channels@[#[trigger] members@[k] as int].group)
                        == c,
                forall|j: int|
                    0 <= j < i && group_class(channels@[j].group) == c ==> #[trigger] members@.contains(
                        j as usize,
                    ),
                forall|a: int, b: int| 0 <= a < b < members@.len() ==> members@[a] < members@[b],
            decreases channels@.len() - i,
        {
            if class_of(channels[i].group) == c {
                let ghost before = members@;
                members.push(i);
                assert forall|j: int|
                    0 <= j < i + 1 && group_class(channels@[j].group) == c implies #[trigger] members@.contains(
                    j as usize,
                ) by {
                    if j < i {
                        assert(before.contains(j as usize));
                        let t = choose|t: int| 0 <= t < before.len() && before[t] == j as usize;
                        assert(members@[t] == j as usize);
                    } else {
                        assert(members@[members@.len() - 1] == j as usize);
                    }
                }
            }
            i = i + 1;
        }
        let ghost prev = nonempty_classes(channels@, c as int);
        assert(nonempty_classes(channels@, c + 1) == prev + if has_class(channels@, c as int) {
            seq![c as int]
        } else {
            Seq::<int>::empty()
        });
        if members.len() > 0 {
            let ghost mem = members@;
            proof {
                assert(has_class(channels@, c as int)) by {
                    assert(group_class(channels@[mem[0] as int].group) == c);
                }
            }
            let sorted = sort_members(channels, members);
            proof {
                assert forall|k: int| 0 <= k < sorted@.len() implies group_class(
                    channels@[#[trigger] sorted@[k] as int].group,
                ) == c && sorted@[k] < channels@.len() by {
                    assert(mem.contains(sorted@[k]));
                    let t = choose|t: int| 0 <= t < mem.len() && mem[t] == sorted@[k];
                    assert(mem[t] < channels@.len());
                    assert(group_class(channels@[mem[t] as int].group) == c);
                }
                assert forall|j: int|
                    0 <= j < channels@.len() && group_class(channels@[j].group) == c implies exists|
                    k: int,
                | 0 <= k < sorted@.len() && #[trigger] sorted@[k] == j by {
                    assert(mem.contains(j as usize));
                    let t = choose|t: int| 0 <= t < mem.len() && mem[t] == j as usize;
                    assert(sorted@.contains(mem[t]));
                }
                assert(is_sorted_section(channels@, c as int, sorted@));
            }
            let ghost before = r@;
            r.push((label_of(c), sorted));
            proof {
                assert forall|k: int| 0 <= k < r@.len() implies {
                    let cl = #[trigger] nonempty_classes(channels@, c + 1)[k];
                    &&& r@[k].0@ == class_label(cl)
                    &&& is_sorted_section(channels@, cl, r@[k].1@)
                } by {
                    if k < before.len() {
                        assert(nonempty_classes(channels@, c + 1)[k] == prev[k]);
                        assert(r@[k] == before[k]);
                    } else {
                        assert(nonempty_classes(channels@, c + 1)[k] == c as int);
                    }
                }
            }
        } else {
            proof {
                assert(!has_class(channels@, c as int)) by {
                    if has_class(channels@, c as int) {
                        let i = choose|i: int|
                            0 <= i < channels@.len() && group_class(channels@[i].group) == c;
                        assert(members@.contains(i as usize));
                    }
                }
                assert(nonempty_classes(channels@, c + 1) =~= prev);
            }
        }
        c = c + 1;
    }
    r
}

/// The short label of a channel strip.
pub open spec fn spec_channel_label(group: i32, channel: i32) -> Seq<char> {
    if group == 3 {
        "LR"@
    } else if group == 4 {
        "C"@
    } else if group == 5 {
        "M"@
    } else if group == 7 {
        "Cue"@
    } else if group == 8 {
        "TB"@
    } else {
        signed_decimal(channel + 1)
    }
}

pub fn channel_label(group: i32, channel: i32) -> (s: String)
    requires
        !(group == 3 || group == 4 || group == 5 || group == 7 || group == 8) ==> channel
            < i32::MAX,
    ensures
        s@ == spec_channel_label(group, channel),
{
    if group == 3 {
        String::from_str("LR")
    } else if group == 4 {
        String::from_str("C")
    } else if group == 5 {
        String::from_str("M")
    } else if group == 7 {
        String::from_str("Cue")
    } else if group == 8 {
        String::from_str("TB")
    } else {
        let n: i64 = channel as i64 + 1;
        let mut out: Vec<char> = Vec::new();
        if n < 0 {
            out.push('-');
            push_decimal(&mut out, (-n) as u64);
        } else {
            push_decimal(&mut out, n as u64);
        }
        assert(out@ =~= spec_channel_label(group, channel));
        string_from_chars(out.as_slice())
    }
}

/// Whether `(group, channel)` is among the scoped channels.
pub open spec fn is_scoped(scoped: Seq<ChannelRef>, group: i32, channel: i32) -> bool {
    exists|i: int| 0 <= i < scoped.len() && scoped[i].group == group && scoped[i].channel == channel
}

/// Whether a channel of the scene is in its scope (its button shows selected).
pub fn channel_scoped(scene: &SceneConfig, group: i32, channel: i32) -> (r: bool)
    ensures
        r == is_scoped(scene.scoped_channels@, group, channel),
{
    let mut i: usize = 0;
    while i < scene.scoped_channels.len()
        invariant
            i <= scene.scoped_channels@.len(),
            forall|j: int|
                0 <= j < i ==> !(scene.scoped_channels@[j].group == group
                    && scene.scoped_channels@[j].channel == channel),
        decreases scene.scoped_channels@.len() - i,
    {
        let c = scene.scoped_channels[i];
        if c.group == group && c.channel == channel {
            return true;
        }
        i = i + 1;
    }
    false
}

/// Every stored channel of the scene is scoped.
pub open spec fn spec_all_scoped(scene: SceneConfig) -> bool {
    forall|j: int|
        0 <= j < scene.channel_configs@.len() ==> is_scoped(
            scene.scoped_channels@,
            #[trigger] scene.channel_configs@[j].group,
            scene.channel_configs@[j].channel,
        )
}

/// What the scope panel of a selected scene shows.
#[derive(Clone, Copy, Debug, PartialEq, Eq, Structural)]
pub enum ScopePanel {
    /// The scene has no stored channel state: the panel asks to store it first.
    Unstored,
    /// The scope editor, with the state of its family toggles and of its
    /// All and None buttons.
    Editor { faders: bool, pan: bool, all_scoped: bool, none_scoped: bool },
}

pub fn scope_panel(scene: &SceneConfig) -> (r: ScopePanel)
    ensures
        scene.channel_configs@.len() == 0 ==> r == ScopePanel::Unstored,
        scene.channel_configs@.len() > 0 ==> r == (ScopePanel::Editor {
            faders: scene.scope_toggles.faders,
            pan: scene.scope_toggles.pan,
            all_scoped: spec_all_scoped(*scene),
            none_scoped: scene.scoped_channels@.len() == 0,
        }),
{
    if scene.channel_configs.len() == 0 {
        return ScopePanel::Unstored;
    }
    let mut all = true;
    let mut j: usize = 0;
    while j < scene.channel_configs.len()
        invariant
            j <= scene.channel_configs@.len(),
            all == forall|k: int|
                0 <= k < j ==> is_scoped(
                    scene.scoped_channels@,
                    #[trigger] scene.channel_configs@[k].group,
                    scene.channel_configs@[k].channel,
                ),
        decreases scene.channel_configs@.len() - j,
    {
        let c = scene.channel_configs[j];
        let scoped = channel_scoped(scene, c.group, c.channel);
        all = all && scoped;
        j = j + 1;
    }
    ScopePanel::Editor {
        faders: scene.scope_toggles.faders,
        pan: scene.scope_toggles.pan,
        all_scoped: all,
        none_scoped: scene.scoped_channels.len() == 0,
    }
}

/// The text of an unstored scene's scope panel.
pub fn unstored_scope_message() -> (s: &'static str)
    ensures
        s@ == "Store this scene from the current LV1 state before selecting channel scope."@,
{
    "Store this scene from the current LV1 state before selecting channel scope."
}

/// A control of the scope panel.
#[derive(Clone, Copy, Debug, PartialEq, Eq, Structural)]
pub enum ScopeControl {
    Faders,
    Pan,
    All,
    NoChannels,
    Channel { group: i32, channel: i32 },
}

/// The command a click on a scope control sends for the scene.
#[derive(Clone, Copy, Debug, PartialEq, Eq, Structural)]
pub enum ScopeCommand {
    SetFadersEnabled(bool),
    SetPanEnabled(bool),
    SetAllChannelsScoped(bool),
    SetChannelScoped { group: i32, channel: i32, scoped: bool },
}

/// The family toggles and a channel button flip their current state; All and
/// None scope every stored channel or none.
pub fn scope_command(scene: &SceneConfig, control: ScopeControl) -> (r: ScopeCommand)
    ensures
        r == match control {
            ScopeControl::Faders => ScopeCommand::SetFadersEnabled(!scene.scope_toggles.faders),
            ScopeControl::Pan => ScopeCommand::SetPanEnabled(!scene.scope_toggles.pan),
            ScopeControl::All => ScopeCommand::SetAllChannelsScoped(true),
            ScopeControl::NoChannels => ScopeCommand::SetAllChannelsScoped(false),
            ScopeControl::Channel { group, channel } => ScopeCommand::SetChannelScoped {
                group,
                channel,
                scoped: !is_scoped(scene.scoped_channels@, group, channel),
            },
        },
{
    match control {
        ScopeControl::Faders => ScopeCommand::SetFadersEnabled(!scene.scope_toggles.faders),
        ScopeControl::Pan => ScopeCommand::SetPanEnabled(!scene.scope_toggles.pan),
        ScopeControl::All => ScopeCommand::SetAllChannelsScoped(true),
        ScopeControl::NoChannels => ScopeCommand::SetAllChannelsScoped(false),
        ScopeControl::Channel { group, channel } => ScopeCommand::SetChannelScoped {
            group,
            channel,
            scoped: !channel_scoped(scene, group, channel),
        },
    }
}

/// The mixer section names over every channel group: groups 0, 1 and 2 are
/// Inputs, Groups and Aux; 3, 4, 5, 7 and 8 are Masters; 6 is Matrix; 12 is
/// Link/DCAs; and exactly the groups outside 0–8 and 12 are Unknown. The
/// sections are listed in that order, with Link/DCAs right after Matrix.
pub proof fn law_channel_sections(group: i32)
    ensures
        group == 0 ==> class_label(group_class(group)) == "Inputs"@,
        group == 1 ==> class_label(group_class(group)) == "Groups"@,
        group == 2 ==> class_label(group_class(group)) == "Aux"@,
        (group == 3 || group == 4 || group == 5 || group == 7 || group == 8) ==> class_label(
            group_class(group),
        ) == "Masters"@,
        group == 6 ==> class_label(group_class(group)) == "Matrix"@,
        group == 12 ==> class_label(group_class(group)) == "Link/DCAs"@,
        (class_label(group_class(group)) == "Unknown"@) <==> !((0 <= group <= 8) || group == 12),
        group_class(6) + 1 == group_class(12),
        group_class(12) < group_class(group) <==> !((0 <= group <= 8) || group == 12),
{
    reveal_strlit("Inputs");
    reveal_strlit("Groups");
    reveal_strlit("Aux");
    reveal_strlit("Masters");
    reveal_strlit("Matrix");
    reveal_strlit("Link/DCAs");
    reveal_strlit("Unknown");
    if (0 <= group <= 8) || group == 12 {
        let l = class_label(group_class(group));
        assert(l.len() != 7 || l[0] != 'U');
        assert(l != "Unknown"@) by {
            if l == "Unknown"@ {
                assert(l[0] == "Unknown"@[0]);
            }
        }
    }
}

/// Stepping a duration moves it by whole seconds: the result is 0 exactly when
/// the step reaches zero or below, and otherwise lies within 0.1–120 s; a step
/// that lands inside that range is taken exactly; and stepping further up never
/// gives a shorter duration.
pub proof fn law_duration_step(duration_ms: u64, direction: i64, further: i64)
    ensures
        spec_step_duration(duration_ms, direction) == 0 <==> duration_ms + direction * 1000 <= 0,
        spec_step_duration(duration_ms, direction) != 0 ==> 100 <= spec_step_duration(
            duration_ms,
            direction,
        ) <= 120_000,
        100 <= duration_ms + direction * 1000 <= 120_000 ==> spec_step_duration(
            duration_ms,
            direction,
        ) == duration_ms + direction * 1000,
        direction <= further ==> spec_step_duration(duration_ms, direction) <= spec_step_duration(
            duration_ms,
            further,
        ),
{
    assert(direction <= further ==> direction * 1000 <= further * 1000) by (nonlinear_arith);
}

/// The default link target over every snapshot: there is one exactly when the
/// console has scenes; when some console scene is linked by no configuration,
/// it is the first such scene (every scene before it is linked); when all are
/// linked, it is the first console scene.
pub proof fn law_default_link_target(s: AppViewState)
    ensures
        spec_default_link_target(s) is None <==> s.scenes@.len() == 0,
        (exists|i: int| 0 <= i < s.scenes@.len() && !index_linked(s.scene_configs@, #[trigger] s.scenes@[i].index))
            ==> (exists|i: int|
            0 <= i < s.scenes@.len() && !index_linked(s.scene_configs@, s.scenes@[i].index)
                && spec_default_link_target(s) == Some(s.scenes@[i].index) && forall|j: int|
                0 <= j < i ==> index_linked(s.scene_configs@, #[trigger] s.scenes@[j].index)),
        (forall|i: int| 0 <= i < s.scenes@.len() ==> index_linked(s.scene_configs@, #[trigger] s.scenes@[i].index))
            && s.scenes@.len() > 0 ==> spec_default_link_target(s) == Some(s.scenes@[0].index),
{
    let p = unlinked_scene(s.scene_configs@);
    crate::lookup::lemma_first_where(s.scenes@, p);
    match crate::lookup::first_where(s.scenes@, p) {
        Some(i) => {
            assert forall|j: int| 0 <= j < i implies index_linked(s.scene_configs@, #[trigger] s.scenes@[j].index) by {
                assert(!p(s.scenes@[j]));
            }
        },
        None => {
            if exists|i: int| 0 <= i < s.scenes@.len() && !index_linked(s.scene_configs@, #[trigger] s.scenes@[i].index) {
                let i = choose|i: int| 0 <= i < s.scenes@.len() && !index_linked(s.scene_configs@, #[trigger] s.scenes@[i].index);
                assert(!p(s.scenes@[i]));
            }
        },
    }
    if forall|i: int| 0 <= i < s.scenes@.len() ==> index_linked(s.scene_configs@, #[trigger] s.scenes@[i].index) {
        if let Some(i) = crate::lookup::first_where(s.scenes@, p) {
            assert(p(s.scenes@[i]));
        }
    }
}

} // verus!
