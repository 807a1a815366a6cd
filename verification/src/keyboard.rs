//! Keyboard shortcuts: the persisted key labels, exact modifier matching, the
//! capture of a new shortcut, and the routing of GO and CUE.
use vstd::prelude::*;
use crate::text::{ascii_uppercase, is_ascii_text, text_eq, to_uppercase, unicode_uppercase};

verus! {

/// The four persisted modifier flags of a shortcut.
#[derive(Clone, Copy, Debug, PartialEq, Eq, Structural)]
pub struct KeyboardShortcutModifiers {
    pub shift: bool,
    pub control: bool,
    pub alt: bool,
    pub meta: bool,
}

impl Default for KeyboardShortcutModifiers {
    fn default() -> (m: Self)
        ensures
            !m.shift && !m.control && !m.alt && !m.meta,
    {
        KeyboardShortcutModifiers { shift: false, control: false, alt: false, meta: false }
    }
}

/// A persisted shortcut: a physical key label and its modifiers.
#[derive(Clone, Debug, PartialEq, Eq)]
pub struct KeyboardShortcut {
    pub key: String,
    pub modifiers: KeyboardShortcutModifiers,
}

impl KeyboardShortcut {
    /// An equal copy.
    pub fn duplicate(&self) -> (r: Self)
        ensures
            r == *self,
    {
        KeyboardShortcut { key: self.key.clone(), modifiers: self.modifiers }
    }
}

/// The GO and CUE shortcuts.
#[derive(Clone, Debug, PartialEq, Eq)]
pub struct KeyboardShortcuts {
    pub go: KeyboardShortcut,
    pub cue: KeyboardShortcut,
}

impl Default for KeyboardShortcuts {
    /// GO is Space and CUE is C, both without modifiers.
    fn default() -> (s: Self)
        ensures
            s.go.key@ == "Space"@,
            s.cue.key@ == "C"@,
            s.go.modifiers == (KeyboardShortcutModifiers { shift: false, control: false, alt: false, meta: false }),
            s.cue.modifiers == (KeyboardShortcutModifiers { shift: false, control: false, alt: false, meta: false }),
    {
        KeyboardShortcuts {
            go: KeyboardShortcut {
                key: String::from_str("Space"),
                modifiers: KeyboardShortcutModifiers::default(),
            },
            cue: KeyboardShortcut {
                key: String::from_str("C"),
                modifiers: KeyboardShortcutModifiers::default(),
            },
        }
    }
}

/// Whether a modal or an editable control owns keyboard input.
#[derive(Clone, Copy, Debug, Default, Eq, PartialEq, Structural)]
pub struct InteractionState {
    pub modal_open: bool,
    pub editable_focused: bool,
}

impl InteractionState {
    pub fn suppresses_actions(self) -> (r: bool)
        ensures
            r == (self.modal_open || self.editable_focused),
    {
        self.modal_open || self.editable_focused
    }
}

/// The stable label for a layout-independent key name.
pub open spec fn key_label(key: Seq<char>) -> Seq<char> {
    if key == "space"@ || key == " "@ {
        "Space"@
    } else if key == "enter"@ || key == "return"@ {
        "Enter"@
    } else if key == "escape"@ || key == "esc"@ {
        "Escape"@
    } else if key == "tab"@ {
        "Tab"@
    } else if key == "backspace"@ {
        "Backspace"@
    } else if key == "delete"@ {
        "Delete"@
    } else if key == "home"@ {
        "Home"@
    } else if key == "end"@ {
        "End"@
    } else if key == "pageup"@ {
        "PageUp"@
    } else if key == "pagedown"@ {
        "PageDown"@
    } else if key == "up"@ || key == "arrowup"@ {
        "ArrowUp"@
    } else if key == "down"@ || key == "arrowdown"@ {
        "ArrowDown"@
    } else if key == "left"@ || key == "arrowleft"@ {
        "ArrowLeft"@
    } else if key == "right"@ || key == "arrowright"@ {
        "ArrowRight"@
    } else {
        key
    }
}

/// The persisted label of a key: the stable name, uppercased when it is a single
/// character.
pub open spec fn normalized_key(key: Seq<char>) -> Seq<char> {
    let label = key_label(key);
    if label.len() == 1 {
        unicode_uppercase(label)
    } else {
        label
    }
}

fn label_for<'a>(key: &'a str) -> (r: &'a str)
    ensures
        r@ == key_label(key@),
{
    if text_eq(key, "space") || text_eq(key, " ") {
        "Space"
    } else if text_eq(key, "enter") || text_eq(key, "return") {
        "Enter"
    } else if text_eq(key, "escape") || text_eq(key, "esc") {
        "Escape"
    } else if text_eq(key, "tab") {
        "Tab"
    } else if text_eq(key, "backspace") {
        "Backspace"
    } else if text_eq(key, "delete") {
        "Delete"
    } else if text_eq(key, "home") {
        "Home"
    } else if text_eq(key, "end") {
        "End"
    } else if text_eq(key, "pageup") {
        "PageUp"
    } else if text_eq(key, "pagedown") {
        "PageDown"
    } else if text_eq(key, "up") || text_eq(key, "arrowup") {
        "ArrowUp"
    } else if text_eq(key, "down") || text_eq(key, "arrowdown") {
        "ArrowDown"
    } else if text_eq(key, "left") || text_eq(key, "arrowleft") {
        "ArrowLeft"
    } else if text_eq(key, "right") || text_eq(key, "arrowright") {
        "ArrowRight"
    } else {
        key
    }
}

/// Converts a layout-independent key name into the persisted shortcut label.
pub fn normalized_physical_key(key: &str) -> (r: String)
    ensures
        r@ == normalized_key(key@),
        key_label(key@).len() == 1 && is_ascii_text(key_label(key@)) ==> r@ == ascii_uppercase(
            key_label(key@),
        ),
{
    let label = label_for(key);
    if label.unicode_len() == 1 {
        to_uppercase(label)
    } else {
        String::from_str(label)
    }
}

/// Shortcut keys compare after Unicode uppercasing.
pub open spec fn keys_equal(left: Seq<char>, right: Seq<char>) -> bool {
    unicode_uppercase(left) == unicode_uppercase(right)
}

pub fn shortcut_keys_equal(left: &str, right: &str) -> (r: bool)
    ensures
        r == keys_equal(left@, right@),
        is_ascii_text(left@) && is_ascii_text(right@) ==> r == (ascii_uppercase(left@)
            == ascii_uppercase(right@)),
{
    to_uppercase(left) == to_uppercase(right)
}

/// Two shortcuts are the same when their keys agree up to case and all four
/// modifiers are equal.
pub open spec fn same_shortcut(left: KeyboardShortcut, right: KeyboardShortcut) -> bool {
    keys_equal(left.key@, right.key@) && left.modifiers == right.modifiers
}

pub fn shortcuts_equal(left: &KeyboardShortcut, right: &KeyboardShortcut) -> (r: bool)
    ensures
        r == same_shortcut(*left, *right),
        is_ascii_text(left.key@) && is_ascii_text(right.key@) ==> r == (ascii_uppercase(left.key@)
            == ascii_uppercase(right.key@) && left.modifiers == right.modifiers),
{
    shortcut_keys_equal(left.key.as_str(), right.key.as_str()) && left.modifiers
        == right.modifiers
}

/// The shortcut that a key press produces.
pub open spec fn event_shortcut_key(key: Seq<char>) -> Seq<char> {
    normalized_key(key)
}

/// A key press (its physical key name and modifiers) matches a shortcut when the
/// normalized key agrees up to case and the modifiers are exactly equal.
pub open spec fn spec_shortcut_matches(
    shortcut: KeyboardShortcut,
    key: Seq<char>,
    modifiers: KeyboardShortcutModifiers,
) -> bool {
    keys_equal(shortcut.key@, normalized_key(key)) && shortcut.modifiers == modifiers
}

pub fn shortcut_matches(
    shortcut: &KeyboardShortcut,
    key: &str,
    modifiers: KeyboardShortcutModifiers,
) -> (r: bool)
    ensures
        r == spec_shortcut_matches(*shortcut, key@, modifiers),
{
    let physical = normalized_physical_key(key);
    shortcut_keys_equal(shortcut.key.as_str(), physical.as_str()) && shortcut.modifiers
        == modifiers
}

/// The shortcut recorded from a key press.
pub fn shortcut_from_event(key: &str, modifiers: KeyboardShortcutModifiers) -> (s:
    KeyboardShortcut)
    ensures
        s.key@ == normalized_key(key@),
        s.modifiers == modifiers,
{
    KeyboardShortcut { key: normalized_physical_key(key), modifiers }
}

/// Key names of the modifier keys themselves.
pub open spec fn spec_is_modifier_only(key: Seq<char>) -> bool {
    key == "shift"@ || key == "control"@ || key == "ctrl"@ || key == "alt"@ || key == "meta"@
        || key == "cmd"@ || key == "command"@ || key == "super"@
}

pub fn is_modifier_only(key: &str) -> (r: bool)
    ensures
        r == spec_is_modifier_only(key@),
{
    text_eq(key, "shift") || text_eq(key, "control") || text_eq(key, "ctrl") || text_eq(
        key,
        "alt",
    ) || text_eq(key, "meta") || text_eq(key, "cmd") || text_eq(key, "command") || text_eq(
        key,
        "super",
    )
}

/// The outcome of offering a key press to shortcut capture.
#[derive(Clone, Debug, Eq, PartialEq)]
pub enum CaptureResult {
    Inactive,
    Pending,
    Cancelled,
    Captured(KeyboardShortcut),
}

/// Which shortcut, if any, is being recorded.
#[derive(Clone, Debug, Eq, PartialEq)]
pub struct ShortcutCapture {
    active_id: Option<String>,
}

impl Default for ShortcutCapture {
    fn default() -> (c: Self)
        ensures
            c.active() is None,
    {
        ShortcutCapture { active_id: None }
    }
}

impl ShortcutCapture {
    /// The identifier of the shortcut being recorded.
    pub closed spec fn active(&self) -> Option<Seq<char>> {
        match self.active_id {
            Some(id) => Some(id@),
            None => None,
        }
    }

    pub fn active_id(&self) -> (r: Option<&str>)
        ensures
            match r {
                Some(id) => self.active() == Some(id@),
                None => self.active() is None,
            },
    {
        match &self.active_id {
            Some(id) => Some(id.as_str()),
            None => None,
        }
    }

    pub fn start(&mut self, id: String)
        ensures
            final(self).active() == Some(id@),
    {
        self.active_id = Some(id);
    }

    /// Capture is evaluated before GO/CUE routing: Escape cancels, a lone
    /// modifier keeps waiting, and any other key completes the shortcut.
    pub fn route(&mut self, key: &str, modifiers: KeyboardShortcutModifiers) -> (r: CaptureResult)
        ensures
            old(self).active() is None ==> r == CaptureResult::Inactive,
            old(self).active() is None ==> final(self).active() is None,
            old(self).active() is Some && normalized_key(key@) == "Escape"@ ==> r
                == CaptureResult::Cancelled,
            old(self).active() is Some && normalized_key(key@) == "Escape"@ ==> final(self).active() is None,
            old(self).active() is Some && normalized_key(key@) != "Escape"@ && spec_is_modifier_only(key@)
                ==> r == CaptureResult::Pending,
            old(self).active() is Some && normalized_key(key@) != "Escape"@ && spec_is_modifier_only(key@)
                ==> final(self).active() == old(self).active(),
            old(self).active() is Some && normalized_key(key@) != "Escape"@ && !spec_is_modifier_only(key@)
                ==> final(self).active() is None,
            old(self).active() is Some && normalized_key(key@) != "Escape"@ && !spec_is_modifier_only(key@)
                ==> r is Captured && r->Captured_0.key@ == normalized_key(key@)
                && r->Captured_0.modifiers == modifiers,
    {
        if self.active_id.is_none() {
            return CaptureResult::Inactive;
        }
        let normalized = normalized_physical_key(key);
        if text_eq(normalized.as_str(), "Escape") {
            self.active_id = None;
            return CaptureResult::Cancelled;
        }
        if is_modifier_only(key) {
            return CaptureResult::Pending;
        }
        self.active_id = None;
        CaptureResult::Captured(shortcut_from_event(key, modifiers))
    }
}

/// A global action bound to a shortcut.
#[derive(Clone, Copy, Debug, Eq, PartialEq, Structural)]
pub enum RoutedAction {
    Go,
    Cue,
}

/// GO wins over CUE; nothing routes while capture, a modal or an editable control
/// owns the key.
pub open spec fn spec_route_action(
    key: Seq<char>,
    modifiers: KeyboardShortcutModifiers,
    capture_active: bool,
    interaction: InteractionState,
    go: KeyboardShortcut,
    cue: KeyboardShortcut,
) -> Option<RoutedAction> {
    if capture_active || interaction.modal_open || interaction.editable_focused {
        None
    } else if spec_shortcut_matches(go, key, modifiers) {
        Some(RoutedAction::Go)
    } else if spec_shortcut_matches(cue, key, modifiers) {
        Some(RoutedAction::Cue)
    } else {
        None
    }
}

/// Returns an action only when capture, modal, and editable contexts permit global routing.
pub fn route_action(
    key: &str,
    modifiers: KeyboardShortcutModifiers,
    capture_active: bool,
    interaction: InteractionState,
    go: &KeyboardShortcut,
    cue: &KeyboardShortcut,
) -> (r: Option<RoutedAction>)
    ensures
        r == spec_route_action(key@, modifiers, capture_active, interaction, *go, *cue),
{
    if capture_active || interaction.suppresses_actions() {
        return None;
    }
    if shortcut_matches(go, key, modifiers) {
        Some(RoutedAction::Go)
    } else if shortcut_matches(cue, key, modifiers) {
        Some(RoutedAction::Cue)
    } else {
        None
    }
}

/// On an active capture, each of the eight modifier key names alone keeps the
/// capture waiting: the name is modifier-only and is not Escape (it is its own
/// label), so `route` answers `Pending` and the capture stays active.
pub proof fn law_modifier_keys_keep_capture_waiting(key: Seq<char>)
    requires
        key == "shift"@ || key == "control"@ || key == "ctrl"@ || key == "alt"@ || key == "meta"@
            || key == "cmd"@ || key == "command"@ || key == "super"@,
    ensures
        spec_is_modifier_only(key),
        normalized_key(key) == key,
        normalized_key(key) != "Escape"@,
{
    reveal_strlit("shift");
    reveal_strlit("control");
    reveal_strlit("ctrl");
    reveal_strlit("alt");
    reveal_strlit("meta");
    reveal_strlit("cmd");
    reveal_strlit("command");
    reveal_strlit("super");
    reveal_strlit("space");
    reveal_strlit(" ");
    reveal_strlit("enter");
    reveal_strlit("return");
    reveal_strlit("escape");
    reveal_strlit("esc");
    reveal_strlit("tab");
    reveal_strlit("backspace");
    reveal_strlit("delete");
    reveal_strlit("home");
    reveal_strlit("end");
    reveal_strlit("pageup");
    reveal_strlit("pagedown");
    reveal_strlit("up");
    reveal_strlit("arrowup");
    reveal_strlit("down");
    reveal_strlit("arrowdown");
    reveal_strlit("left");
    reveal_strlit("arrowleft");
    reveal_strlit("right");
    reveal_strlit("arrowright");
    reveal_strlit("Escape");
    assert(key.len() >= 3);
    let words = seq![
        "space"@, "escape"@, "esc"@, "enter"@, "return"@, "tab"@, "backspace"@, "delete"@,
        "home"@, "end"@, "pageup"@, "pagedown"@, "up"@, "arrowup"@, "down"@, "arrowdown"@,
        "left"@, "arrowleft"@, "right"@, "arrowright"@, " "@
    ];
    assert("space"@[1] == 'p' && "escape"@[0] == 'e' && "esc"@[0] == 'e' && "enter"@[0] == 'e'
        && "return"@[0] == 'r' && "tab"@[0] == 't' && "backspace"@[0] == 'b' && "delete"@[0] == 'd'
        && "home"@[0] == 'h' && "end"@[0] == 'e' && "pageup"@[0] == 'p' && "pagedown"@[0] == 'p'
        && "up"@[0] == 'u' && "arrowup"@[0] == 'a' && "down"@[0] == 'd' && "arrowdown"@[0] == 'a'
        && "left"@[0] == 'l' && "arrowleft"@[0] == 'a' && "right"@[0] == 'r' && "arrowright"@[0]
        == 'a' && " "@[0] == ' ' && "space"@[0] == 's');
    assert(key[0] == 's' ==> key[1] != 'p') by {
        if key == "shift"@ {
            assert(key[1] == 'h');
        }
        if key == "super"@ {
            assert(key[1] == 'u');
        }
    }
    assert(key[0] == 's' || key[0] == 'c' || key[0] == 'a' || key[0] == 'm');
    assert(key == "alt"@ ==> key[1] == 'l' && key.len() == 3);
    assert(forall|w: int| 0 <= w < words.len() ==> key != #[trigger] words[w]) by {
        assert forall|w: int| 0 <= w < words.len() implies key != #[trigger] words[w] by {
            if key == words[w] {
                assert(key[0] == words[w][0]);
                assert(key[1] == words[w][1]);
            }
        }
    }
    assert(key != words[0] && key != words[1] && key != words[2] && key != words[3] && key
        != words[4] && key != words[5] && key != words[6] && key != words[7] && key != words[8]
        && key != words[9] && key != words[10] && key != words[11] && key != words[12] && key
        != words[13] && key != words[14] && key != words[15] && key != words[16] && key
        != words[17] && key != words[18] && key != words[19] && key != words[20]);
    assert(key_label(key) == key);
    assert(normalized_key(key) == key);
    assert(key[0] != "Escape"@[0]);
}

/// A shortcut recorded from a key press matches that same press again (its
/// key is the press's normalized key), and never a press of the same key
/// with different modifiers.
pub proof fn law_recorded_shortcut_matches_its_press(
    shortcut: KeyboardShortcut,
    key: Seq<char>,
    modifiers: KeyboardShortcutModifiers,
    other: KeyboardShortcutModifiers,
)
    requires
        shortcut.key@ == normalized_key(key),
        shortcut.modifiers == modifiers,
    ensures
        spec_shortcut_matches(shortcut, key, modifiers),
        other != modifiers ==> !spec_shortcut_matches(shortcut, key, other),
{
}

/// Global routing: nothing routes while a capture, a modal or an editable
/// control owns the key; otherwise a press that matches GO routes to GO (even
/// when it also matches CUE), one that matches only CUE routes to CUE, and any
/// other press routes nowhere.
pub proof fn law_routing_prefers_go(
    key: Seq<char>,
    modifiers: KeyboardShortcutModifiers,
    capture_active: bool,
    interaction: InteractionState,
    go: KeyboardShortcut,
    cue: KeyboardShortcut,
)
    ensures
        (capture_active || interaction.modal_open || interaction.editable_focused) ==> spec_route_action(
            key,
            modifiers,
            capture_active,
            interaction,
            go,
            cue,
        ) is None,
        !(capture_active || interaction.modal_open || interaction.editable_focused) ==> (
        spec_route_action(key, modifiers, capture_active, interaction, go, cue) == if keys_equal(
            go.key@,
            normalized_key(key),
        ) && go.modifiers == modifiers {
            Some(RoutedAction::Go)
        } else if keys_equal(cue.key@, normalized_key(key)) && cue.modifiers == modifiers {
            Some(RoutedAction::Cue)
        } else {
            None
        }),
{
}

/// Both names of the Escape key normalize to `Escape`, so either one cancels
/// an active capture.
pub proof fn law_escape_names_cancel_capture(key: Seq<char>)
    requires
        key == "escape"@ || key == "esc"@,
    ensures
        normalized_key(key) == "Escape"@,
        !spec_is_modifier_only(key),
{
    reveal_strlit("escape");
    reveal_strlit("esc");
    reveal_strlit("space");
    reveal_strlit(" ");
    reveal_strlit("enter");
    reveal_strlit("return");
    reveal_strlit("Escape");
    reveal_strlit("shift");
    reveal_strlit("control");
    reveal_strlit("ctrl");
    reveal_strlit("alt");
    reveal_strlit("meta");
    reveal_strlit("cmd");
    reveal_strlit("command");
    reveal_strlit("super");
    assert(key[0] == 'e');
    assert(key != "space"@ && key != " "@) by {
        assert("space"@[0] == 's');
        assert(" "@[0] == ' ');
    }
    assert(key != "enter"@ && key != "return"@) by {
        assert("enter"@[1] == 'n');
        assert("return"@[0] == 'r');
        assert(key[1] == 's');
    }
    assert(key_label(key) == "Escape"@);
    assert(!spec_is_modifier_only(key)) by {
        assert("shift"@[0] == 's' && "control"@[0] == 'c' && "ctrl"@[0] == 'c' && "alt"@[0] == 'a'
            && "meta"@[0] == 'm' && "cmd"@[0] == 'c' && "command"@[0] == 'c' && "super"@[0] == 's');
    }
}

} // verus!
