//! Decisions and texts of the editor's user interface.

use vstd::prelude::*;
use vstd::string::*;
use crate::timecode::{decimal, push_decimal};

verus! {

/// Whether two strings hold the same characters.
pub fn same_text(a: &str, b: &str) -> (r: bool)
    ensures
        r == (a@ == b@),
{
    let n = a.unicode_len();
    if n != b.unicode_len() {
        return false;
    }
    let mut i: usize = 0;
    while i < n
        invariant
            n == a@.len(),
            n == b@.len(),
            i <= n,
            forall|j: int| 0 <= j < i ==> a@[j] == b@[j],
        decreases n - i,
    {
        if a.get_char(i) != b.get_char(i) {
            return false;
        }
        i = i + 1;
    }
    assert(a@ =~= b@);
    true
}

/// Whether a key pressed on the focused drop zone opens the file dialog:
/// Enter and Space do.
pub fn opens_file_dialog(key: &str) -> (r: bool)
    ensures
        r == (key@ == "Enter"@ || key@ == " "@),
{
    same_text(key, "Enter") || same_text(key, " ")
}

/// `p` is a prefix of `s`.
pub open spec fn has_prefix(s: Seq<char>, p: Seq<char>) -> bool {
    p.len() <= s.len() && s.subrange(0, p.len() as int) == p
}

/// `p` is a suffix of `s`.
pub open spec fn has_suffix(s: Seq<char>, p: Seq<char>) -> bool {
    p.len() <= s.len() && s.subrange(s.len() - p.len(), s.len() as int) == p
}

/// Whether `s` starts with `p`.
pub fn starts_with_text(s: &str, p: &str) -> (r: bool)
    ensures
        r == has_prefix(s@, p@),
{
    let n = s.unicode_len();
    let k = p.unicode_len();
    if k > n {
        return false;
    }
    let mut i: usize = 0;
    while i < k
        invariant
            n == s@.len(),
            k == p@.len(),
            k <= n,
            i <= k,
            forall|j: int| 0 <= j < i ==> s@[j] == p@[j],
        decreases k - i,
    {
        if s.get_char(i) != p.get_char(i) {
            assert(s@.subrange(0, k as int)[i as int] != p@[i as int]);
            return false;
        }
        i = i + 1;
    }
    assert(s@.subrange(0, k as int) =~= p@);
    true
}

/// Whether `s` ends with `p`.
pub fn ends_with_text(s: &str, p: &str) -> (r: bool)
    ensures
        r == has_suffix(s@, p@),
{
    let n = s.unicode_len();
    let k = p.unicode_len();
    if k > n {
        return false;
    }
    let start = n - k;
    let mut i: usize = 0;
    while i < k
        invariant
            n == s@.len(),
            k == p@.len(),
            k <= n,
            start == n - k,
            i <= k,
            forall|j: int| 0 <= j < i ==> s@[start + j] == p@[j],
        decreases k - i,
    {
        if s.get_char(start + i) != p.get_char(i) {
            assert(s@.subrange(start as int, n as int)[i as int] != p@[i as int]);
            return false;
        }
        i = i + 1;
    }
    assert(s@.subrange(start as int, n as int) =~= p@);
    true
}

/// A file can be loaded when its MIME type is a video type or its name
/// ends in `.mp4`, `.webm` or `.mov`.
pub open spec fn is_supported_video(mime: Seq<char>, name: Seq<char>) -> bool {
    ||| has_prefix(mime, "video/"@)
    ||| has_suffix(name, ".mp4"@)
    ||| has_suffix(name, ".webm"@)
    ||| has_suffix(name, ".mov"@)
}

/// Checks a file before it is loaded: `Ok` for a video (by its MIME type
/// or its name), else the error the editor shows.
pub fn check_video_file(mime: &str, name: &str) -> (r: Result<(), String>)
    ensures
        is_supported_video(mime@, name@) ==> r is Ok,
        !is_supported_video(mime@, name@) ==> (r matches Err(m) && m@
            == "Nur Video-Dateien unterstützt: MP4, WebM, MOV"@),
{
    if starts_with_text(mime, "video/") || ends_with_text(name, ".mp4") || ends_with_text(name, ".webm")
        || ends_with_text(name, ".mov") {
        Ok(())
    } else {
        Err(String::from_str("Nur Video-Dateien unterstützt: MP4, WebM, MOV"))
    }
}

/// Why an export cannot start.
#[derive(Clone, Copy, Debug, PartialEq, Eq, Structural)]
pub enum ExportRefusal {
    NoFile,
    EmptyRange,
}

/// Checks an export request: there must be a file, and the cut range must
/// end after it starts (the file is checked first).
pub fn check_export_request(has_file: bool, range_ends_after_start: bool) -> (r: Result<(), ExportRefusal>)
    ensures
        !has_file ==> r == Err::<(), ExportRefusal>(ExportRefusal::NoFile),
        has_file && !range_ends_after_start ==> r == Err::<(), ExportRefusal>(ExportRefusal::EmptyRange),
        has_file && range_ends_after_start ==> r is Ok,
{
    if !has_file {
        Err(ExportRefusal::NoFile)
    } else if !range_ends_after_start {
        Err(ExportRefusal::EmptyRange)
    } else {
        Ok(())
    }
}

/// The message a refused export is shown with.
pub fn export_refusal_message(r: ExportRefusal) -> (m: String)
    ensures
        r == ExportRefusal::NoFile ==> m@ == "No file selected"@,
        r == ExportRefusal::EmptyRange ==> m@ == "Trim range must be positive"@,
{
    match r {
        ExportRefusal::NoFile => String::from_str("No file selected"),
        ExportRefusal::EmptyRange => String::from_str("Trim range must be positive"),
    }
}

/// CSS class of the editor layout, with the theater modifier when theater
/// mode is on.
pub fn layout_class(theater_mode: bool) -> (c: String)
    ensures
        c@ == (if theater_mode { "editor-layout theater-mode"@ } else { "editor-layout"@ }),
{
    if theater_mode {
        String::from_str("editor-layout theater-mode")
    } else {
        String::from_str("editor-layout")
    }
}

/// Label of the theater toggle.
pub fn theater_button_label(theater_mode: bool) -> (l: String)
    ensures
        l@ == (if theater_mode { "Exit Theater"@ } else { "Theater"@ }),
{
    if theater_mode {
        String::from_str("Exit Theater")
    } else {
        String::from_str("Theater")
    }
}

/// The session line of the session panel: the session id, or nothing when
/// there is no session.
pub fn session_label(session_id: &Option<String>) -> (l: String)
    ensures
        l@ == "Session: "@ + match session_id {
            Some(id) => id@,
            None => Seq::<char>::empty(),
        },
{
    let mut l = String::from_str("Session: ");
    match session_id {
        Some(id) => l.append(id.as_str()),
        None => {},
    }
    l
}

/// The participants line of the session panel.
pub fn participants_label(count: usize) -> (l: String)
    ensures
        l@ == "Participants: "@ + decimal(count as nat),
{
    let mut l = String::from_str("Participants: ");
    push_decimal(&mut l, count as u64);
    l
}

/// A file is accepted exactly when its MIME type begins with the six
/// characters `video/` or its name ends in `.mp4`, `.webm` or `.mov`; any
/// other file (an `audio/` type with an `.mp3` name, say) is refused.
pub proof fn law_only_videos_are_accepted(mime: Seq<char>, name: Seq<char>)
    ensures
        is_supported_video(mime, name) <==> {
            ||| (mime.len() >= 6 && mime.subrange(0, 6) == seq!['v', 'i', 'd', 'e', 'o', '/'])
            ||| (name.len() >= 4 && name.subrange(name.len() - 4, name.len() as int) == seq![
                '.',
                'm',
                'p',
                '4',
            ])
            ||| (name.len() >= 5 && name.subrange(name.len() - 5, name.len() as int) == seq![
                '.',
                'w',
                'e',
                'b',
                'm',
            ])
            ||| (name.len() >= 4 && name.subrange(name.len() - 4, name.len() as int) == seq![
                '.',
                'm',
                'o',
                'v',
            ])
        },
{
    reveal_strlit("video/");
    reveal_strlit(".mp4");
    reveal_strlit(".webm");
    reveal_strlit(".mov");
    assert("video/"@ =~= seq!['v', 'i', 'd', 'e', 'o', '/']);
    assert(".mp4"@ =~= seq!['.', 'm', 'p', '4']);
    assert(".webm"@ =~= seq!['.', 'w', 'e', 'b', 'm']);
    assert(".mov"@ =~= seq!['.', 'm', 'o', 'v']);
}

} // verus!
