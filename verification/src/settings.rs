//! Settings editing: the settings view's draft of the application settings,
//! typed numeric drafts with units and clamping, stepping, and the shortcut
//! conflicts that a new GO or CUE shortcut must avoid.
use vstd::prelude::*;
use crate::keyboard::{
    keys_equal, same_shortcut, shortcuts_equal, KeyboardShortcut, KeyboardShortcutModifiers,
    KeyboardShortcuts,
};
use crate::lookup::{first_where, lemma_first_where};
use crate::text::{
    ascii_lowercase, ascii_lowercase_chars, chars_of, decimal, push_decimal, push_str, spec_trim,
    string_from_chars, string_of, trim_chars,
};

verus! {

/// The shortcut being edited.
#[derive(Clone, Copy, Debug, Eq, PartialEq, Structural)]
pub enum ShortcutAction {
    Go,
    Cue,
}

pub open spec fn is_ascii_digit(c: char) -> bool {
    '0' <= c <= '9'
}

pub open spec fn all_ascii_digits(s: Seq<char>) -> bool {
    forall|i: int| 0 <= i < s.len() ==> is_ascii_digit(#[trigger] s[i])
}

/// The value of a numeral of ASCII digits.
pub open spec fn digits_value(s: Seq<char>) -> nat
    decreases s.len(),
{
    if s.len() == 0 {
        0
    } else {
        digits_value(s.drop_last()) * 10 + ((s.last() as u32) - ('0' as u32)) as nat
    }
}

pub open spec fn clamp_int(v: int, lo: int, hi: int) -> int {
    if v < lo {
        lo
    } else if v > hi {
        hi
    } else {
        v
    }
}

/// A trimmed, non-empty run of ASCII digits, clamped to `[min, max]`.
pub open spec fn spec_parse_clamped(draft: Seq<char>, min: int, max: int) -> Option<int> {
    let t = spec_trim(draft);
    if t.len() == 0 || !all_ascii_digits(t) {
        None
    } else {
        Some(clamp_int(digits_value(t) as int, min, max))
    }
}

proof fn lemma_digits_step(s: Seq<char>, i: int)
    requires
        0 <= i < s.len(),
    ensures
        digits_value(s.take(i + 1)) == digits_value(s.take(i)) * 10 + ((s[i] as u32) - ('0' as u32)) as nat,
{
    assert(s.take(i + 1).drop_last() =~= s.take(i));
}

/// Parses a numeric settings draft; `None` when it is not a plain unsigned
/// numeral. Values beyond `u64` saturate before clamping.
pub fn parse_clamped_unsigned(draft: &str, min: u64, max: u64) -> (r: Option<u64>)
    requires
        min <= max,
    ensures
        r == (match spec_parse_clamped(draft@, min as int, max as int) {
            Some(v) => Some(v as u64),
            None => None::<u64>,
        }),
{
    let chars = chars_of(draft);
    let value = trim_chars(&chars);
    if value.len() == 0 {
        return None;
    }
    let mut k: usize = 0;
    while k < value.len()
        invariant
            value@ == spec_trim(draft@),
            k <= value@.len(),
            forall|j: int| 0 <= j < k ==> is_ascii_digit(#[trigger] value@[j]),
        decreases value@.len() - k,
    {
        if !('0' <= value[k] && value[k] <= '9') {
            assert(!is_ascii_digit(value@[k as int]));
            return None;
        }
        k = k + 1;
    }
    let mut parsed: u64 = 0;
    let mut i: usize = 0;
    assert(value@.take(0) =~= Seq::<char>::empty());
    while i < value.len()
        invariant
            value@ == spec_trim(draft@),
            i <= value@.len(),
            all_ascii_digits(value@),
            parsed as int == (if digits_value(value@.take(i as int)) >= u64::MAX {
                u64::MAX as int
            } else {
                digits_value(value@.take(i as int)) as int
            }),
        decreases value@.len() - i,
    {
        let d = (value[i] as u32 - '0' as u32) as u64;
        assert(is_ascii_digit(value@[i as int]));
        proof {
            lemma_digits_step(value@, i as int);
        }
        let ghost prev = digits_value(value@.take(i as int));
        let ghost next = digits_value(value@.take(i + 1));
        assert(next == prev * 10 + d);
        parsed = match parsed.checked_mul(10) {
            Some(v) => v.saturating_add(d),
            None => u64::MAX,
        };
        assert(prev >= u64::MAX ==> next >= u64::MAX) by (nonlinear_arith)
            requires
                next == prev * 10 + d,
                d >= 0,
        ;
        i = i + 1;
    }
    assert(value@.take(value@.len() as int) =~= value@);
    if parsed < min {
        Some(min)
    } else if parsed > max {
        Some(max)
    } else {
        Some(parsed)
    }
}

pub open spec fn spec_normalize_sensitivity(draft: Seq<char>) -> Option<int> {
    spec_parse_clamped(draft, 1, 10)
}

/// The fader-override sensitivity typed in `draft`, from 1 to 10.
pub fn normalize_sensitivity(draft: &str) -> (r: Option<u8>)
    ensures
        r == (match spec_normalize_sensitivity(draft@) {
            Some(v) => Some(v as u8),
            None => None::<u8>,
        }),
{
    match parse_clamped_unsigned(draft, 1, 10) {
        Some(v) => Some(v as u8),
        None => None,
    }
}

/// `s` without one trailing `ms`, if it has one.
pub open spec fn strip_ms(s: Seq<char>) -> Seq<char> {
    if s.len() >= 2 && s[s.len() - 2] == 'm' && s[s.len() - 1] == 's' {
        s.take(s.len() - 2)
    } else {
        s
    }
}

pub open spec fn spec_normalize_threshold_ms(draft: Seq<char>) -> Option<int> {
    spec_parse_clamped(strip_ms(ascii_lowercase(spec_trim(draft))), 0, 5000)
}

/// The same-scene recall threshold typed in `draft`, in milliseconds, with an
/// optional `ms` unit in any case, from 0 to 5000.
pub fn normalize_threshold_ms(draft: &str) -> (r: Option<u64>)
    ensures
        r == (match spec_normalize_threshold_ms(draft@) {
            Some(v) => Some(v as u64),
            None => None::<u64>,
        }),
{
    let chars = chars_of(draft);
    let trimmed = trim_chars(&chars);
    let lowercase = ascii_lowercase_chars(&trimmed);
    let n = lowercase.len();
    let end: usize = if n >= 2 && lowercase[n - 2] == 'm' && lowercase[n - 1] == 's' {
        n - 2
    } else {
        n
    };
    let mut value: Vec<char> = Vec::new();
    let mut i: usize = 0;
    while i < end
        invariant
            end <= lowercase@.len(),
            i <= end,
            value@ == lowercase@.take(i as int),
        decreases end - i,
    {
        value.push(lowercase[i]);
        i = i + 1;
        assert(value@ =~= lowercase@.take(i as int));
    }
    assert(value@ =~= strip_ms(lowercase@));
    let text = string_from_chars(value.as_slice());
    parse_clamped_unsigned(text.as_str(), 0, 5000)
}

pub open spec fn spec_stepped_sensitivity(draft: Seq<char>, current: u8, direction: i64) -> int {
    let value = match spec_normalize_sensitivity(draft) {
        Some(v) => v,
        None => current as int,
    };
    if direction > 0 {
        if value + 1 > 10 {
            10
        } else {
            value + 1
        }
    } else {
        if value <= 1 {
            1
        } else {
            value - 1
        }
    }
}

/// One step of the sensitivity control from the typed draft, or from the
/// current value when the draft is not a number; kept within 1 to 10.
pub fn stepped_sensitivity(draft: &str, current: u8, direction: i64) -> (r: u8)
    ensures
        r as int == spec_stepped_sensitivity(draft@, current, direction),
{
    let value = match normalize_sensitivity(draft) {
        Some(v) => v,
        None => current,
    };
    if direction > 0 {
        let up = value.saturating_add(1);
        if up > 10 {
            10
        } else {
            up
        }
    } else {
        let down = value.saturating_sub(1);
        if down < 1 {
            1
        } else {
            down
        }
    }
}

pub open spec fn spec_stepped_threshold_ms(draft: Seq<char>, current: u64, direction: i64) -> int {
    let value = match spec_normalize_threshold_ms(draft) {
        Some(v) => v,
        None => current as int,
    };
    if direction > 0 {
        if value + 100 > 5000 {
            5000
        } else {
            value + 100
        }
    } else {
        if value < 100 {
            0
        } else {
            value - 100
        }
    }
}

/// One 100 ms step of the threshold control from the typed draft, or from the
/// current value when the draft is not a number; at most 5000 and at least 0.
pub fn stepped_threshold_ms(draft: &str, current: u64, direction: i64) -> (r: u64)
    ensures
        r as int == spec_stepped_threshold_ms(draft@, current, direction),
{
    let value = match normalize_threshold_ms(draft) {
        Some(v) => v,
        None => current,
    };
    if direction > 0 {
        let up = value.saturating_add(100);
        if up > 5000 {
            5000
        } else {
            up
        }
    } else {
        value.saturating_sub(100)
    }
}

/// The threshold as shown in its field, such as `1200 ms`.
pub fn format_threshold_ms(value: u64) -> (s: String)
    ensures
        s@ == decimal(value as nat) + " ms"@,
{
    let mut out: Vec<char> = Vec::new();
    push_decimal(&mut out, value);
    push_str(&mut out, " ms");
    string_from_chars(out.as_slice())
}

/// The modifiers of the platform's primary-modifier file shortcuts.
pub open spec fn file_modifiers(shift: bool, macos: bool) -> KeyboardShortcutModifiers {
    KeyboardShortcutModifiers { shift, control: !macos, alt: false, meta: macos }
}

/// A file-menu shortcut: the primary modifier (Command on macOS, Control
/// elsewhere) with `key`, optionally with Shift.
pub fn fixed_file_shortcut(key: &str, shift: bool, macos: bool) -> (s: KeyboardShortcut)
    ensures
        s.key@ == key@,
        s.modifiers == file_modifiers(shift, macos),
{
    KeyboardShortcut {
        key: string_of(key),
        modifiers: KeyboardShortcutModifiers { shift, control: !macos, alt: false, meta: macos },
    }
}

pub open spec fn quit_key(macos: bool) -> Seq<char> {
    if macos {
        "Q"@
    } else {
        "F4"@
    }
}

pub open spec fn quit_modifiers(macos: bool) -> KeyboardShortcutModifiers {
    KeyboardShortcutModifiers { shift: false, control: false, alt: !macos, meta: macos }
}

/// The platform's quit shortcut: Command-Q on macOS, Alt-F4 elsewhere.
pub fn fixed_quit_shortcut(macos: bool) -> (s: KeyboardShortcut)
    ensures
        s.key@ == quit_key(macos),
        s.modifiers == quit_modifiers(macos),
{
    KeyboardShortcut {
        key: if macos {
            string_of("Q")
        } else {
            string_of("F4")
        },
        modifiers: KeyboardShortcutModifiers { shift: false, control: false, alt: !macos, meta: macos },
    }
}

pub open spec fn macos_modifiers(alt: bool) -> KeyboardShortcutModifiers {
    KeyboardShortcutModifiers { shift: false, control: false, alt, meta: true }
}

/// A macOS application-menu shortcut: Command with `key`, optionally with Option.
pub fn fixed_macos_shortcut(key: &str, alt: bool) -> (s: KeyboardShortcut)
    ensures
        s.key@ == key@,
        s.modifiers == macos_modifiers(alt),
{
    KeyboardShortcut {
        key: string_of(key),
        modifiers: KeyboardShortcutModifiers { shift: false, control: false, alt, meta: true },
    }
}

/// The reserved menu shortcuts, each with the name of its menu item, in the
/// order in which they are checked.
pub open spec fn fixed_conflicts(macos: bool) -> Seq<(Seq<char>, Seq<char>, KeyboardShortcutModifiers)> {
    let common = seq![
        ("New Session"@, "N"@, file_modifiers(false, macos)),
        ("Open Session"@, "O"@, file_modifiers(false, macos)),
        ("Save Session"@, "S"@, file_modifiers(false, macos)),
        ("Save As"@, "S"@, file_modifiers(true, macos)),
        ("Quit Advanced Show Control"@, quit_key(macos), quit_modifiers(macos)),
    ];
    if macos {
        common + seq![
            ("Hide Advanced Show Control"@, "H"@, macos_modifiers(false)),
            ("Hide Others"@, "H"@, macos_modifiers(true)),
        ]
    } else {
        common
    }
}

/// The shortcut and the reserved entry denote the same key combination.
pub open spec fn matches_reserved(
    shortcut: KeyboardShortcut,
    entry: (Seq<char>, Seq<char>, KeyboardShortcutModifiers),
) -> bool {
    keys_equal(shortcut.key@, entry.1) && shortcut.modifiers == entry.2
}

pub fn fixed_shortcut_conflicts(macos: bool) -> (r: Vec<(&'static str, KeyboardShortcut)>)
    ensures
        r@.len() == fixed_conflicts(macos).len(),
        forall|i: int|
            0 <= i < r@.len() ==> {
                let e = #[trigger] fixed_conflicts(macos)[i];
                &&& r@[i].0@ == e.0
                &&& r@[i].1.key@ == e.1
                &&& r@[i].1.modifiers == e.2
            },
{
    let mut r: Vec<(&'static str, KeyboardShortcut)> = Vec::new();
    r.push(("New Session", fixed_file_shortcut("N", false, macos)));
    r.push(("Open Session", fixed_file_shortcut("O", false, macos)));
    r.push(("Save Session", fixed_file_shortcut("S", false, macos)));
    r.push(("Save As", fixed_file_shortcut("S", true, macos)));
    r.push(("Quit Advanced Show Control", fixed_quit_shortcut(macos)));
    if macos {
        r.push(("Hide Advanced Show Control", fixed_macos_shortcut("H", false)));
        r.push(("Hide Others", fixed_macos_shortcut("H", true)));
    }
    r
}

/// The other action's shortcut and the name under which it is shown.
pub open spec fn other_shortcut(action: ShortcutAction, shortcuts: KeyboardShortcuts) -> (
    KeyboardShortcut,
    Seq<char>,
) {
    match action {
        ShortcutAction::Go => (shortcuts.cue, "Cue"@),
        ShortcutAction::Cue => (shortcuts.go, "GO"@),
    }
}

/// What a proposed shortcut for `action` collides with: the other action
/// first, then the first reserved menu shortcut with the same key combination.
pub open spec fn spec_conflict_label(
    action: ShortcutAction,
    shortcut: KeyboardShortcut,
    shortcuts: KeyboardShortcuts,
    macos: bool,
) -> Option<Seq<char>> {
    let other = other_shortcut(action, shortcuts);
    if same_shortcut(shortcut, other.0) {
        Some(other.1)
    } else {
        let fixed = fixed_conflicts(macos);
        match first_where(fixed, |e: (Seq<char>, Seq<char>, KeyboardShortcutModifiers)| matches_reserved(shortcut, e)) {
            Some(i) => Some(fixed[i].0),
            None => None,
        }
    }
}

pub fn shortcut_conflict_label(
    action: ShortcutAction,
    shortcut: &KeyboardShortcut,
    shortcuts: &KeyboardShortcuts,
    macos: bool,
) -> (r: Option<&'static str>)
    ensures
        match spec_conflict_label(action, *shortcut, *shortcuts, macos) {
            Some(label) => r matches Some(s) && s@ == label,
            None => r is None,
        },
{
    let (other, label) = match action {
        ShortcutAction::Go => (&shortcuts.cue, "Cue"),
        ShortcutAction::Cue => (&shortcuts.go, "GO"),
    };
    if shortcuts_equal(shortcut, other) {
        return Some(label);
    }
    let fixed = fixed_shortcut_conflicts(macos);
    let ghost spec_fixed = fixed_conflicts(macos);
    let ghost p = |e: (Seq<char>, Seq<char>, KeyboardShortcutModifiers)| matches_reserved(*shortcut, e);
    proof {
        lemma_first_where(spec_fixed, p);
    }
    let mut i: usize = 0;
    while i < fixed.len()
        invariant
            !same_shortcut(*shortcut, other_shortcut(action, *shortcuts).0),
            spec_fixed == fixed_conflicts(macos),
            fixed@.len() == spec_fixed.len(),
            forall|j: int|
                0 <= j < fixed@.len() ==> {
                    let e = #[trigger] fixed_conflicts(macos)[j];
                    &&& fixed@[j].0@ == e.0
                    &&& fixed@[j].1.key@ == e.1
                    &&& fixed@[j].1.modifiers == e.2
                },
            i <= fixed@.len(),
            forall|j: int| 0 <= j < i ==> !p(#[trigger] spec_fixed[j]),
            p == (|e: (Seq<char>, Seq<char>, KeyboardShortcutModifiers)| matches_reserved(*shortcut, e)),
            first_where(spec_fixed, p) matches Some(k) ==> 0 <= k < spec_fixed.len() && p(spec_fixed[k])
                && forall|j: int| 0 <= j < k ==> !p(#[trigger] spec_fixed[j]),
            first_where(spec_fixed, p) is None ==> forall|j: int|
                0 <= j < spec_fixed.len() ==> !p(#[trigger] spec_fixed[j]),
        decreases fixed@.len() - i,
    {
        if shortcuts_equal(shortcut, &fixed[i].1) {
            assert(p(spec_fixed[i as int]));
            let ghost k = first_where(spec_fixed, p);
            assert(k == Some(i as int)) by {
                if let Some(kk) = k {
                    if kk < i {
                        assert(!p(spec_fixed[kk]));
                    } else if kk > i {
                        assert(!p(spec_fixed[i as int]));
                    }
                }
            }
            assert(fixed@[i as int].0@ == fixed_conflicts(macos)[i as int].0);
            return Some(fixed[i].0);
        }
        assert(!p(spec_fixed[i as int]));
        i = i + 1;
    }
    None
}

pub open spec fn spec_format_shortcut(shortcut: KeyboardShortcut, macos: bool) -> Seq<char> {
    (if shortcut.modifiers.control {
        "Ctrl+"@
    } else {
        Seq::empty()
    }) + (if shortcut.modifiers.alt {
        "Alt+"@
    } else {
        Seq::empty()
    }) + (if shortcut.modifiers.shift {
        "Shift+"@
    } else {
        Seq::empty()
    }) + (if shortcut.modifiers.meta {
        if macos {
            "⌘"@
        } else {
            "Meta+"@
        }
    } else {
        Seq::empty()
    }) + shortcut.key@
}

/// The shortcut as shown in settings, such as `Ctrl+Alt+Shift+Enter`; the
/// Command modifier shows as `⌘` on macOS.
pub fn format_shortcut(shortcut: &KeyboardShortcut, macos: bool) -> (s: String)
    ensures
        s@ == spec_format_shortcut(*shortcut, macos),
{
    let mut out: Vec<char> = Vec::new();
    if shortcut.modifiers.control {
        push_str(&mut out, "Ctrl+");
    }
    if shortcut.modifiers.alt {
        push_str(&mut out, "Alt+");
    }
    if shortcut.modifiers.shift {
        push_str(&mut out, "Shift+");
    }
    if shortcut.modifiers.meta {
        if macos {
            push_str(&mut out, "⌘");
        } else {
            push_str(&mut out, "Meta+");
        }
    }
    push_str(&mut out, shortcut.key.as_str());
    assert(out@ =~= spec_format_shortcut(*shortcut, macos));
    string_from_chars(out.as_slice())
}

/// The key binding of a file-menu command, with the platform's primary
/// modifier.
pub fn menu_new_shortcut(macos: bool) -> (s: &'static str)
    ensures
        s@ == (if macos { "cmd-n"@ } else { "ctrl-n"@ }),
{
    if macos {
        "cmd-n"
    } else {
        "ctrl-n"
    }
}

pub fn menu_open_shortcut(macos: bool) -> (s: &'static str)
    ensures
        s@ == (if macos { "cmd-o"@ } else { "ctrl-o"@ }),
{
    if macos {
        "cmd-o"
    } else {
        "ctrl-o"
    }
}

pub fn menu_save_shortcut(macos: bool) -> (s: &'static str)
    ensures
        s@ == (if macos { "cmd-s"@ } else { "ctrl-s"@ }),
{
    if macos {
        "cmd-s"
    } else {
        "ctrl-s"
    }
}

pub fn menu_save_as_shortcut(macos: bool) -> (s: &'static str)
    ensures
        s@ == (if macos { "cmd-shift-s"@ } else { "ctrl-shift-s"@ }),
{
    if macos {
        "cmd-shift-s"
    } else {
        "ctrl-shift-s"
    }
}

/// A numeric setting of the settings view.
#[derive(Clone, Copy, Debug, Eq, PartialEq, Structural)]
pub enum NumericSetting {
    Sensitivity,
    SameSceneThreshold,
}

/// The two numeric settings.
#[derive(Clone, Copy, Debug, Eq, PartialEq, Structural)]
pub struct NumericValues {
    pub sensitivity: u8,
    pub threshold_ms: u64,
}

/// The outcome of editing a numeric field: the text the field shows, the
/// values to keep, and whether they differ from the current ones (and must
/// be saved).
#[derive(Clone, Debug, Eq, PartialEq)]
pub struct NumericEdit {
    pub text: String,
    pub values: NumericValues,
    pub changed: bool,
}

/// The field text of a setting's value.
pub open spec fn spec_numeric_text(setting: NumericSetting, values: NumericValues) -> Seq<char> {
    match setting {
        NumericSetting::Sensitivity => decimal(values.sensitivity as nat),
        NumericSetting::SameSceneThreshold => decimal(values.threshold_ms as nat) + " ms"@,
    }
}

pub fn numeric_text(setting: NumericSetting, values: NumericValues) -> (s: String)
    ensures
        s@ == spec_numeric_text(setting, values),
{
    match setting {
        NumericSetting::Sensitivity => {
            let mut out: Vec<char> = Vec::new();
            push_decimal(&mut out, values.sensitivity as u64);
            string_from_chars(out.as_slice())
        },
        NumericSetting::SameSceneThreshold => format_threshold_ms(values.threshold_ms),
    }
}

pub open spec fn with_value(setting: NumericSetting, values: NumericValues, value: int) -> NumericValues {
    match setting {
        NumericSetting::Sensitivity => NumericValues { sensitivity: value as u8, ..values },
        NumericSetting::SameSceneThreshold => NumericValues { threshold_ms: value as u64, ..values },
    }
}

pub open spec fn spec_edit(setting: NumericSetting, current: NumericValues, next: NumericValues) -> (
    Seq<char>,
    NumericValues,
    bool,
) {
    (spec_numeric_text(setting, next), next, next != current)
}

/// Enter or blur in a numeric field: a draft that parses sets the value (and
/// the field shows it normalized); any other draft is discarded and the field
/// shows the current value.
pub open spec fn spec_commit_numeric(setting: NumericSetting, draft: Seq<char>, current: NumericValues) -> (
    Seq<char>,
    NumericValues,
    bool,
) {
    let parsed = match setting {
        NumericSetting::Sensitivity => spec_normalize_sensitivity(draft),
        NumericSetting::SameSceneThreshold => spec_normalize_threshold_ms(draft),
    };
    match parsed {
        Some(v) => spec_edit(setting, current, with_value(setting, current, v)),
        None => spec_edit(setting, current, current),
    }
}

fn edit(setting: NumericSetting, current: NumericValues, next: NumericValues) -> (r: NumericEdit)
    ensures
        (r.text@, r.values, r.changed) == spec_edit(setting, current, next),
{
    NumericEdit { text: numeric_text(setting, next), values: next, changed: next != current }
}

pub fn commit_numeric(setting: NumericSetting, draft: &str, current: NumericValues) -> (r: NumericEdit)
    ensures
        (r.text@, r.values, r.changed) == spec_commit_numeric(setting, draft@, current),
{
    match setting {
        NumericSetting::Sensitivity => match normalize_sensitivity(draft) {
            Some(v) => edit(setting, current, NumericValues { sensitivity: v, ..current }),
            None => edit(setting, current, current),
        },
        NumericSetting::SameSceneThreshold => match normalize_threshold_ms(draft) {
            Some(v) => edit(setting, current, NumericValues { threshold_ms: v, ..current }),
            None => edit(setting, current, current),
        },
    }
}

/// A step button of a numeric field (see `stepped_sensitivity` and
/// `stepped_threshold_ms`).
pub fn step_numeric(setting: NumericSetting, draft: &str, current: NumericValues, direction: i64) -> (r:
    NumericEdit)
    ensures
        (r.text@, r.values, r.changed) == spec_edit(
            setting,
            current,
            match setting {
                NumericSetting::Sensitivity => with_value(
                    setting,
                    current,
                    spec_stepped_sensitivity(draft@, current.sensitivity, direction),
                ),
                NumericSetting::SameSceneThreshold => with_value(
                    setting,
                    current,
                    spec_stepped_threshold_ms(draft@, current.threshold_ms, direction),
                ),
            },
        ),
{
    match setting {
        NumericSetting::Sensitivity => {
            let v = stepped_sensitivity(draft, current.sensitivity, direction);
            edit(setting, current, NumericValues { sensitivity: v, ..current })
        },
        NumericSetting::SameSceneThreshold => {
            let v = stepped_threshold_ms(draft, current.threshold_ms, direction);
            edit(setting, current, NumericValues { threshold_ms: v, ..current })
        },
    }
}

/// The message shown when a captured shortcut is already taken.
pub open spec fn conflict_message(label: Seq<char>) -> Seq<char> {
    "Already assigned to "@ + label
}

/// Assigning a captured shortcut to GO or CUE: refused with a message when it
/// collides with the other action or a reserved menu shortcut; otherwise the
/// shortcuts with the new assignment.
pub fn assign_shortcut(
    action: ShortcutAction,
    shortcut: KeyboardShortcut,
    shortcuts: &KeyboardShortcuts,
    macos: bool,
) -> (r: Result<KeyboardShortcuts, String>)
    ensures
        match spec_conflict_label(action, shortcut, *shortcuts, macos) {
            Some(label) => r matches Err(message) && message@ == conflict_message(label),
            None => r matches Ok(updated) && match action {
                ShortcutAction::Go => updated.go == shortcut && updated.cue == shortcuts.cue,
                ShortcutAction::Cue => updated.cue == shortcut && updated.go == shortcuts.go,
            },
        },
{
    match shortcut_conflict_label(action, &shortcut, shortcuts, macos) {
        Some(label) => {
            let mut out: Vec<char> = Vec::new();
            push_str(&mut out, "Already assigned to ");
            push_str(&mut out, label);
            Err(string_from_chars(out.as_slice()))
        },
        None => match action {
            ShortcutAction::Go => Ok(KeyboardShortcuts { go: shortcut, cue: shortcuts.cue.duplicate() }),
            ShortcutAction::Cue => Ok(KeyboardShortcuts { go: shortcuts.go.duplicate(), cue: shortcut }),
        },
    }
}

/// The value a numeric setting's step buttons start from: the draft when it
/// normalizes, otherwise the current value.
pub open spec fn spec_step_base(setting: NumericSetting, draft: Seq<char>, current: NumericValues) -> int {
    match setting {
        NumericSetting::Sensitivity => match spec_normalize_sensitivity(draft) {
            Some(v) => v as int,
            None => current.sensitivity as int,
        },
        NumericSetting::SameSceneThreshold => match spec_normalize_threshold_ms(draft) {
            Some(v) => v as int,
            None => current.threshold_ms as int,
        },
    }
}

/// Which step buttons of a numeric setting can be pressed.
#[derive(Clone, Copy, Debug, Eq, PartialEq, Structural)]
pub struct StepButtons {
    pub decrement: bool,
    pub increment: bool,
}

/// Sensitivity steps down above 1 and up below 10; the same-scene threshold
/// steps down above 0 ms and up below 5000 ms, both from the step base.
pub fn step_buttons(setting: NumericSetting, draft: &str, current: NumericValues) -> (r: StepButtons)
    ensures
        r.decrement == match setting {
            NumericSetting::Sensitivity => spec_step_base(setting, draft@, current) > 1,
            NumericSetting::SameSceneThreshold => spec_step_base(setting, draft@, current) > 0,
        },
        r.increment == match setting {
            NumericSetting::Sensitivity => spec_step_base(setting, draft@, current) < 10,
            NumericSetting::SameSceneThreshold => spec_step_base(setting, draft@, current) < 5000,
        },
{
    match setting {
        NumericSetting::Sensitivity => {
            let base = match normalize_sensitivity(draft) {
                Some(v) => v,
                None => current.sensitivity,
            };
            StepButtons { decrement: base > 1, increment: base < 10 }
        },
        NumericSetting::SameSceneThreshold => {
            let base = match normalize_threshold_ms(draft) {
                Some(v) => v,
                None => current.threshold_ms,
            };
            StepButtons { decrement: base > 0, increment: base < 5000 }
        },
    }
}

/// How clock times are shown.
#[derive(Clone, Copy, Debug, Eq, PartialEq, Structural)]
pub enum TimeDisplayFormat {
    TwelveHour,
    TwentyFourHour,
}

/// The persisted application settings that the settings view edits.
#[derive(Clone, Debug, Eq, PartialEq)]
pub struct AppSettings {
    pub auto_load_last_show_file: bool,
    pub auto_save_sessions: bool,
    pub time_display: TimeDisplayFormat,
    pub fader_override_sensitivity: u8,
    pub same_scene_recall_enabled: bool,
    pub same_scene_recall_threshold_ms: u64,
    pub enable_extensive_diagnostics: bool,
    pub keyboard_shortcuts: KeyboardShortcuts,
}

impl AppSettings {
    /// An equal copy.
    pub fn duplicate(&self) -> (r: Self)
        ensures
            r == *self,
    {
        AppSettings {
            auto_load_last_show_file: self.auto_load_last_show_file,
            auto_save_sessions: self.auto_save_sessions,
            time_display: self.time_display,
            fader_override_sensitivity: self.fader_override_sensitivity,
            same_scene_recall_enabled: self.same_scene_recall_enabled,
            same_scene_recall_threshold_ms: self.same_scene_recall_threshold_ms,
            enable_extensive_diagnostics: self.enable_extensive_diagnostics,
            keyboard_shortcuts: KeyboardShortcuts {
                go: self.keyboard_shortcuts.go.duplicate(),
                cue: self.keyboard_shortcuts.cue.duplicate(),
            },
        }
    }

    /// The two numeric settings.
    pub fn numeric_values(&self) -> (v: NumericValues)
        ensures
            v == (NumericValues {
                sensitivity: self.fader_override_sensitivity,
                threshold_ms: self.same_scene_recall_threshold_ms,
            }),
    {
        NumericValues {
            sensitivity: self.fader_override_sensitivity,
            threshold_ms: self.same_scene_recall_threshold_ms,
        }
    }
}

/// One change made in the settings view.
#[derive(Clone, Debug, Eq, PartialEq)]
pub enum SettingsChange {
    AutoLoadLastShowFile(bool),
    AutoSaveSessions(bool),
    TimeDisplay(TimeDisplayFormat),
    SameSceneRecallEnabled(bool),
    ExtensiveDiagnostics(bool),
    Numeric(NumericValues),
    Shortcut(ShortcutAction, KeyboardShortcut),
}

/// The settings with one change applied; everything else is kept.
pub open spec fn spec_apply_change(s: AppSettings, change: SettingsChange) -> AppSettings {
    match change {
        SettingsChange::AutoLoadLastShowFile(v) => AppSettings { auto_load_last_show_file: v, ..s },
        SettingsChange::AutoSaveSessions(v) => AppSettings { auto_save_sessions: v, ..s },
        SettingsChange::TimeDisplay(v) => AppSettings { time_display: v, ..s },
        SettingsChange::SameSceneRecallEnabled(v) => AppSettings { same_scene_recall_enabled: v, ..s },
        SettingsChange::ExtensiveDiagnostics(v) => AppSettings { enable_extensive_diagnostics: v, ..s },
        SettingsChange::Numeric(v) => AppSettings {
            fader_override_sensitivity: v.sensitivity,
            same_scene_recall_threshold_ms: v.threshold_ms,
            ..s
        },
        SettingsChange::Shortcut(ShortcutAction::Go, shortcut) => AppSettings {
            keyboard_shortcuts: KeyboardShortcuts { go: shortcut, cue: s.keyboard_shortcuts.cue },
            ..s
        },
        SettingsChange::Shortcut(ShortcutAction::Cue, shortcut) => AppSettings {
            keyboard_shortcuts: KeyboardShortcuts { go: s.keyboard_shortcuts.go, cue: shortcut },
            ..s
        },
    }
}

/// The settings view's unsaved copy: the settings it shows while a replace
/// command is in flight, and that command.
pub struct SettingsDraft {
    pub draft: Option<AppSettings>,
    pub pending_command_id: Option<u64>,
}

pub open spec fn spec_shown(draft: Option<AppSettings>, saved: AppSettings) -> AppSettings {
    match draft {
        Some(d) => d,
        None => saved,
    }
}

impl SettingsDraft {
    pub fn new() -> (d: Self)
        ensures
            d.draft is None,
            d.pending_command_id is None,
    {
        SettingsDraft { draft: None, pending_command_id: None }
    }

    /// The settings the view shows: the draft while there is one, otherwise
    /// the saved settings of the snapshot.
    pub fn shown<'a>(&'a self, saved: &'a AppSettings) -> (r: &'a AppSettings)
        ensures
            *r == spec_shown(self.draft, *saved),
    {
        match &self.draft {
            Some(d) => d,
            None => saved,
        }
    }

    /// A change makes a new draft from the shown settings; the returned copy is
    /// what the replace command sends.
    pub fn change(&mut self, saved: &AppSettings, change: SettingsChange) -> (sent: AppSettings)
        ensures
            sent == spec_apply_change(spec_shown(old(self).draft, *saved), change),
            final(self).draft == Some(sent),
            final(self).pending_command_id == old(self).pending_command_id,
    {
        let mut next = self.shown(saved).duplicate();
        match change {
            SettingsChange::AutoLoadLastShowFile(v) => next.auto_load_last_show_file = v,
            SettingsChange::AutoSaveSessions(v) => next.auto_save_sessions = v,
            SettingsChange::TimeDisplay(v) => next.time_display = v,
            SettingsChange::SameSceneRecallEnabled(v) => next.same_scene_recall_enabled = v,
            SettingsChange::ExtensiveDiagnostics(v) => next.enable_extensive_diagnostics = v,
            SettingsChange::Numeric(v) => {
                next.fader_override_sensitivity = v.sensitivity;
                next.same_scene_recall_threshold_ms = v.threshold_ms;
            },
            SettingsChange::Shortcut(ShortcutAction::Go, shortcut) => next.keyboard_shortcuts.go = shortcut,
            SettingsChange::Shortcut(ShortcutAction::Cue, shortcut) => next.keyboard_shortcuts.cue = shortcut,
        }
        self.draft = Some(next.duplicate());
        next
    }

    /// Records the replace command that carries the draft.
    pub fn replace_started(&mut self, command_id: u64)
        ensures
            final(self).draft == old(self).draft,
            final(self).pending_command_id == Some(command_id),
    {
        self.pending_command_id = Some(command_id);
    }

    /// Only a failure of the pending replace command drops the draft, so the
    /// view falls back to the saved settings; returns whether it did (the
    /// numeric fields then show the saved values again).
    pub fn command_finished(&mut self, command_id: u64, failed: bool) -> (reverted: bool)
        ensures
            reverted == (failed && old(self).pending_command_id == Some(command_id)),
            reverted ==> final(self).draft is None && final(self).pending_command_id is None,
            !reverted ==> final(self).draft == old(self).draft && final(self).pending_command_id
                == old(self).pending_command_id,
    {
        if failed && self.pending_command_id == Some(command_id) {
            self.draft = None;
            self.pending_command_id = None;
            true
        } else {
            false
        }
    }
}

} // verus!
