//! Session-file rules of the application window: the `.ascs` extension, the
//! suggested file name, the staleness of a session-state answer, and the
//! About text.
use std::path::PathBuf;
use vstd::prelude::*;
use vstd::string::*;
use crate::text::{ascii_lowercase, ascii_lowercase_chars, chars_of, push_str, string_from_chars, text_eq};
use crate::view_state::AppViewState;

verus! {

/// The session state reported by the show owner.
#[derive(Debug, PartialEq, Eq)]
pub struct ShowSessionState {
    pub show_file_path: Option<PathBuf>,
    pub show_file_dirty: bool,
    pub persisted_session_revision: u64,
}

/// A session-state answer is stale when edits were submitted after the query
/// was issued, or when the owner's persisted revision has moved on.
pub open spec fn spec_session_query_is_stale(
    query_edit_epoch: u64,
    current_edit_epoch: u64,
    result: Result<ShowSessionState, String>,
    current_persisted_revision: u64,
) -> bool {
    query_edit_epoch != current_edit_epoch || (result matches Ok(state)
        && state.persisted_session_revision != current_persisted_revision)
}

pub fn session_query_is_stale(
    query_edit_epoch: u64,
    current_edit_epoch: u64,
    result: &Result<ShowSessionState, String>,
    current_persisted_revision: u64,
) -> (r: bool)
    ensures
        r == spec_session_query_is_stale(
            query_edit_epoch,
            current_edit_epoch,
            *result,
            current_persisted_revision,
        ),
{
    if query_edit_epoch != current_edit_epoch {
        return true;
    }
    match result {
        Ok(state) => state.persisted_session_revision != current_persisted_revision,
        Err(_) => false,
    }
}

/// The count of persisted edits submitted from the window. It wraps on
/// overflow, as the shared atomic counter does.
pub struct EditEpoch {
    pub value: u64,
}

/// The epoch after `edits` more persisted edits.
pub open spec fn epoch_after(epoch: u64, edits: nat) -> u64 {
    ((epoch + edits) % 0x1_0000_0000_0000_0000) as u64
}

impl EditEpoch {
    pub fn new() -> (e: Self)
        ensures
            e.value == 0,
    {
        EditEpoch { value: 0 }
    }

    /// A persisted edit is counted before it is queued, so a query submitted
    /// earlier captured an older epoch.
    pub fn record_persisted_edit(&mut self)
        ensures
            final(self).value == epoch_after(old(self).value, 1),
    {
        self.value = self.value.wrapping_add(1);
    }
}

/// Any persisted edit submitted after a query (fewer than 2^64 of them, after
/// which the wrapping counter comes back) makes that query's answer stale,
/// whatever it says.
pub proof fn law_later_edits_make_a_query_stale(
    query_epoch: u64,
    edits: nat,
    result: Result<ShowSessionState, String>,
    current_persisted_revision: u64,
)
    requires
        1 <= edits < 0x1_0000_0000_0000_0000,
    ensures
        spec_session_query_is_stale(
            query_epoch,
            epoch_after(query_epoch, edits),
            result,
            current_persisted_revision,
        ),
{
}

/// A close request waits while a native prompt, a native dialog or an in-window
/// modal is showing.
pub fn modal_surface_active(native_prompt: bool, native_dialog: bool, custom_modal: bool) -> (r:
    bool)
    ensures
        r == (native_prompt || native_dialog || custom_modal),
{
    native_prompt || native_dialog || custom_modal
}

/// A cue recall result belongs to the session that is shown.
pub fn cue_completion_matches_session(session_revision: u64, snapshot: &AppViewState) -> (r: bool)
    ensures
        r == (session_revision == snapshot.session_revision),
{
    session_revision == snapshot.session_revision
}

pub open spec fn spec_about_detail(version: Seq<char>) -> Seq<char> {
    "Version "@ + version + "\n\nGPUI Kit desktop control for Waves eMotion LV1 scene fades."@
        + "\n\nGPL-3.0-or-later"@ + "\nhttps://mitchel.me/advanced-show-control/"@
}

/// The About panel text for the given application version.
pub fn about_detail(version: &str) -> (s: String)
    ensures
        s@ == spec_about_detail(version@),
{
    let mut out: Vec<char> = Vec::new();
    push_str(&mut out, "Version ");
    push_str(&mut out, version);
    push_str(&mut out, "\n\nGPUI Kit desktop control for Waves eMotion LV1 scene fades.");
    push_str(&mut out, "\n\nGPL-3.0-or-later");
    push_str(&mut out, "\nhttps://mitchel.me/advanced-show-control/");
    assert(out@ =~= spec_about_detail(version@));
    string_from_chars(out.as_slice())
}

/// The extension of a session file, compared without regard to ASCII case.
pub open spec fn spec_is_show_file_extension(extension: Option<Seq<char>>) -> bool {
    extension matches Some(e) && ascii_lowercase(e) == "ascs"@
}

pub fn is_show_file_extension(extension: Option<&str>) -> (r: bool)
    ensures
        r == spec_is_show_file_extension(
            match extension {
                Some(e) => Some(e@),
                None => None,
            },
        ),
{
    match extension {
        Some(e) => {
            let chars = chars_of(e);
            let lower = ascii_lowercase_chars(&chars);
            let text = string_from_chars(lower.as_slice());
            text_eq(text.as_str(), "ascs")
        },
        None => false,
    }
}

/// The text of a path when it is valid UTF-8, as `Path::to_str` gives it.
pub uninterp spec fn path_text(path: PathBuf) -> Option<Seq<char>>;

pub open spec fn opt_text(o: Option<String>) -> Option<Seq<char>> {
    match o {
        Some(s) => Some(s@),
        None => None,
    }
}

/// A non-empty single file name on every platform: no `/`, `\` or `:` (so no
/// directory part and no drive prefix), and not `.` or `..`. Such a path has
/// the whole text as its file name.
pub open spec fn plain_file_name(t: Seq<char>) -> bool {
    &&& t.len() > 0
    &&& t != "."@
    &&& t != ".."@
    &&& forall|i: int| 0 <= i < t.len() ==> #[trigger] t[i] != '/' && t[i] != '\\' && t[i] != ':'
}

/// The position of the last `/` in `t`.
pub open spec fn last_slash(t: Seq<char>) -> Option<int>
    decreases t.len(),
{
    if t.len() == 0 {
        None
    } else if t.last() == '/' {
        Some(t.len() - 1)
    } else {
        last_slash(t.drop_last())
    }
}

/// The directory part of a path's text: everything up to and including its
/// last `/` (empty when it has none).
pub open spec fn dir_part(t: Seq<char>) -> Seq<char> {
    match last_slash(t) {
        Some(i) => t.take(i + 1),
        None => Seq::empty(),
    }
}

/// The last component of a path's text: everything after its last `/`.
pub open spec fn name_part(t: Seq<char>) -> Seq<char> {
    match last_slash(t) {
        Some(i) => t.skip(i + 1),
        None => t,
    }
}

/// A path text that every platform reads alike: `/` separates its components
/// (on Unix and on Windows), it holds no `\` and no `:` (so no Windows drive,
/// device or verbatim prefix), it does not begin with `//` (a Windows network
/// share), and its last component is a plain file name. Its file name is then
/// that last component.
pub open spec fn portable_path_text(t: Seq<char>) -> bool {
    &&& plain_file_name(name_part(t))
    &&& forall|i: int| 0 <= i < t.len() ==> #[trigger] t[i] != '\\' && t[i] != ':'
    &&& !(t.len() >= 2 && t[0] == '/' && t[1] == '/')
}

/// The path is valid UTF-8 and its text is portable (see `portable_path_text`).
pub open spec fn portable_path(path: PathBuf) -> bool {
    match path_text(path) {
        Some(t) => portable_path_text(t),
        None => false,
    }
}

/// The path's text (empty when it is not UTF-8).
pub open spec fn text_of(path: PathBuf) -> Seq<char> {
    match path_text(path) {
        Some(t) => t,
        None => Seq::empty(),
    }
}

/// The position of the last `.` in `t`.
pub open spec fn last_dot(t: Seq<char>) -> Option<int>
    decreases t.len(),
{
    if t.len() == 0 {
        None
    } else if t.last() == '.' {
        Some(t.len() - 1)
    } else {
        last_dot(t.drop_last())
    }
}

/// The extension of a file name (`Path::extension`): the text after the last
/// `.`, unless there is no `.` or the only `.` it has is the first character.
pub open spec fn file_extension(t: Seq<char>) -> Option<Seq<char>> {
    match last_dot(t) {
        Some(i) => if i > 0 {
            Some(t.subrange(i + 1, t.len() as int))
        } else {
            None
        },
        None => None,
    }
}

/// The file name without its extension (`Path::file_stem`).
pub open spec fn file_stem(t: Seq<char>) -> Seq<char> {
    match last_dot(t) {
        Some(i) => if i > 0 {
            t.take(i)
        } else {
            t
        },
        None => t,
    }
}

/// `Path::extension` as UTF-8 text; `None` when the path has no extension or
/// it is not valid UTF-8. For a portable path (see `portable_path_text`) it is
/// the extension of the last component, as std documents; for other paths it
/// follows the platform's path syntax and is not stated.
#[verifier::external_body]
fn path_extension(path: &PathBuf) -> (r: Option<String>)
    ensures
        portable_path(*path) ==> opt_text(r) == file_extension(name_part(text_of(*path))),
{
    path.extension().and_then(|extension| extension.to_str()).map(|extension| extension.to_string())
}

/// `PathBuf::set_extension` with a non-empty extension that holds no path
/// separator (std refuses one): a portable path keeps its directory part and
/// its last component becomes that component's stem, a `.` and the extension.
/// For other paths the result follows the platform's path syntax and is not
/// stated.
#[verifier::external_body]
fn replace_extension(path: &mut PathBuf, extension: &str)
    requires
        extension@.len() > 0,
        forall|i: int| 0 <= i < extension@.len() ==> #[trigger] extension@[i] != '/' && extension@[i] != '\\',
    ensures
        portable_path(*old(path)) ==> path_text(*final(path)) == Some(
            dir_part(text_of(*old(path))) + file_stem(name_part(text_of(*old(path)))) + "."@
                + extension@,
        ),
{
    path.set_extension(extension);
}

/// Whether a path names a session file: its extension is `ascs` in any ASCII
/// case. For a portable path this is decided on the text of its last
/// component; for other paths the extension is the platform's.
pub fn is_show_file_path(path: &PathBuf) -> (r: bool)
    ensures
        portable_path(*path) ==> r == spec_is_show_file_extension(
            file_extension(name_part(text_of(*path))),
        ),
{
    match path_extension(path) {
        Some(extension) => is_show_file_extension(Some(extension.as_str())),
        None => is_show_file_extension(None),
    }
}

/// A save destination with the session extension: kept as it is when it
/// already names a session file, otherwise given the `ascs` extension in place
/// of any other.
pub fn ensure_show_file_extension(path: PathBuf) -> (r: PathBuf)
    ensures
        portable_path(path) && spec_is_show_file_extension(file_extension(name_part(text_of(path))))
            ==> r == path,
        portable_path(path) && !spec_is_show_file_extension(
            file_extension(name_part(text_of(path))),
        ) ==> path_text(r) == Some(
            dir_part(text_of(path)) + file_stem(name_part(text_of(path))) + ".ascs"@,
        ),
{
    let mut path = path;
    if !is_show_file_path(&path) {
        proof {
            reveal_strlit("ascs");
            reveal_strlit(".");
            reveal_strlit(".ascs");
            assert("."@ + "ascs"@ =~= ".ascs"@);
        }
        let ghost before = path;
        replace_extension(&mut path, "ascs");
        assert(portable_path(before) ==> path_text(path) == Some(
            dir_part(text_of(before)) + file_stem(name_part(text_of(before))) + ".ascs"@,
        )) by {
            if portable_path(before) {
                let head = dir_part(text_of(before)) + file_stem(name_part(text_of(before)));
                assert(head + "."@ + "ascs"@ =~= head + ".ascs"@);
            }
        }
    }
    path
}

pub open spec fn ends_with_show_extension(name: Seq<char>) -> bool {
    name.len() >= 5 && name.subrange(name.len() - 5, name.len() as int) == ".ascs"@
}

pub open spec fn spec_suggested_save_file_name(name: Seq<char>, save_as: bool) -> Seq<char> {
    if !save_as {
        "Untitled Session.ascs"@
    } else if ends_with_show_extension(name) {
        name
    } else {
        name + ".ascs"@
    }
}

/// The file name offered by the save panel: an untitled name for a plain
/// save, the session's own name (with the extension) for Save As.
pub fn suggested_save_file_name(snapshot: &AppViewState, save_as: bool) -> (s: String)
    ensures
        s@ == spec_suggested_save_file_name(snapshot.show_file_name@, save_as),
{
    if !save_as {
        let mut out: Vec<char> = Vec::new();
        push_str(&mut out, "Untitled Session.ascs");
        return string_from_chars(out.as_slice());
    }
    let name = chars_of(snapshot.show_file_name.as_str());
    let suffix = chars_of(".ascs");
    proof {
        reveal_strlit(".ascs");
    }
    let n = name.len();
    let mut ends = n >= 5;
    if ends {
        let mut k: usize = 0;
        while k < 5
            invariant
                n == name@.len(),
                n >= 5,
                suffix@ == ".ascs"@,
                suffix@.len() == 5,
                k <= 5,
                ends == forall|j: int| 0 <= j < k ==> name@[n - 5 + j] == suffix@[j],
            decreases 5 - k,
        {
            if name[n - 5 + k] != suffix[k] {
                ends = false;
            }
            k = k + 1;
        }
        assert(ends == (name@.subrange(n - 5, n as int) =~= ".ascs"@));
    }
    let mut out: Vec<char> = Vec::new();
    push_str(&mut out, snapshot.show_file_name.as_str());
    if !ends {
        push_str(&mut out, ".ascs");
    }
    string_from_chars(out.as_slice())
}

/// A show-file operation that asks the user for a path first.
#[derive(Clone, Copy, Debug, PartialEq, Eq, Structural)]
pub enum PickedFileOperation {
    Open,
    NewFromTemplate,
    SaveAs,
}

/// The command a show-file operation sends to the show owner.
#[derive(Debug, PartialEq, Eq)]
pub enum ShowFileCommand {
    LoadFromPath(PathBuf),
    NewFromTemplate(PathBuf),
    SaveTo(PathBuf),
}

/// A cancelled picker (no path) is not an error: no command is sent and the
/// session is left as it is. A picked path goes to the operation's command.
pub fn picked_file_command(operation: PickedFileOperation, path: Option<PathBuf>) -> (r: Option<
    ShowFileCommand,
>)
    ensures
        path is None ==> r is None,
        path matches Some(p) ==> r == Some(
            match operation {
                PickedFileOperation::Open => ShowFileCommand::LoadFromPath(p),
                PickedFileOperation::NewFromTemplate => ShowFileCommand::NewFromTemplate(p),
                PickedFileOperation::SaveAs => ShowFileCommand::SaveTo(p),
            },
        ),
{
    match path {
        None => None,
        Some(p) => Some(
            match operation {
                PickedFileOperation::Open => ShowFileCommand::LoadFromPath(p),
                PickedFileOperation::NewFromTemplate => ShowFileCommand::NewFromTemplate(p),
                PickedFileOperation::SaveAs => ShowFileCommand::SaveTo(p),
            },
        ),
    }
}

/// Save goes to the session's own path when it has one, otherwise to the
/// path picked as a fallback; with neither, the picker was cancelled and no
/// save is sent (`None`).
pub fn save_destination(current: Option<PathBuf>, fallback: Option<PathBuf>) -> (r: Option<
    ShowFileCommand,
>)
    ensures
        current matches Some(p) ==> r == Some(ShowFileCommand::SaveTo(p)),
        current is None ==> (fallback matches Some(p) ==> r == Some(ShowFileCommand::SaveTo(p))),
        current is None && fallback is None ==> r is None,
{
    match current {
        Some(p) => Some(ShowFileCommand::SaveTo(p)),
        None => match fallback {
            Some(p) => Some(ShowFileCommand::SaveTo(p)),
            None => None,
        },
    }
}

} // verus!
