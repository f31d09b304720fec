//! The window locator's decision core: which window of one enumeration pass
//! a search token selects. Matching is case-insensitive substring
//! containment over window titles; empty and over-long titles are skipped;
//! the first match in enumeration order wins.

use vstd::prelude::*;
use vstd::string::StrSliceExecFns;
use crate::strings::{contains_str, lower_of, lowercase, seq_contains};

verus! {

/// One top-level window seen during an enumeration pass: an opaque window
/// handle, the window's title text, and the owning process id (captured but
/// not used for matching). The record lives only within one locate call.
#[derive(Clone, Debug)]
pub struct WindowInfo {
    pub hwnd: usize,
    pub title: String,
    pub process_id: u32,
}

/// Longest title, in characters, that the locator still considers. Windows
/// with longer titles are skipped outright, not truncated and kept.
pub const MAX_TITLE_LENGTH: usize = 1024;

/// A window the locator considers at all: its title is neither empty nor
/// longer than the cap.
pub open spec fn window_is_candidate(w: WindowInfo) -> bool {
    0 < w.title@.len() <= MAX_TITLE_LENGTH
}

/// Whether a search token matches a window: the window is a candidate and
/// its lowercased title contains the lowercased token as a substring.
pub open spec fn window_matches(w: WindowInfo, token: Seq<char>) -> bool {
    window_is_candidate(w) && seq_contains(lower_of(w.title@), lower_of(token))
}

/// The position of the first matching window in enumeration order, if any.
pub open spec fn first_match_index(ws: Seq<WindowInfo>, token: Seq<char>) -> Option<int>
    decreases ws.len(),
{
    if ws.len() == 0 {
        None
    } else if window_matches(ws[0], token) {
        Some(0)
    } else {
        match first_match_index(ws.drop_first(), token) {
            Some(i) => Some(i + 1),
            None => None,
        }
    }
}

/// The handle of the first matching window, if any.
pub open spec fn first_match_hwnd(ws: Seq<WindowInfo>, token: Seq<char>) -> Option<usize> {
    match first_match_index(ws, token) {
        Some(i) => Some(ws[i].hwnd),
        None => None,
    }
}

/// When several windows' titles contain the token, the earliest one in
/// enumeration order is the one selected: the index the locator settles on
/// is a match, and nothing before it is.
pub proof fn lemma_first_match_is_first(ws: Seq<WindowInfo>, token: Seq<char>)
    ensures
        match first_match_index(ws, token) {
            Some(i) => 0 <= i < ws.len() && window_matches(ws[i], token) && forall|j: int|
                0 <= j < i ==> !window_matches(ws[j], token),
            None => forall|j: int| 0 <= j < ws.len() ==> !window_matches(ws[j], token),
        },
    decreases ws.len(),
{
    if ws.len() == 0 {
    } else if window_matches(ws[0], token) {
    } else {
        let rest = ws.drop_first();
        lemma_first_match_is_first(rest, token);
        match first_match_index(rest, token) {
            Some(i) => {
                assert(ws[i + 1] == rest[i]);
                assert forall|j: int| 0 <= j < i + 1 implies !window_matches(
                    ws[j],
                    token,
                ) by {
                    if j > 0 {
                        assert(rest[j - 1] == ws[j]);
                    }
                }
            },
            None => {
                assert forall|j: int| 0 <= j < ws.len() implies !window_matches(
                    ws[j],
                    token,
                ) by {
                    if j > 0 {
                        assert(rest[j - 1] == ws[j]);
                    }
                }
            },
        }
    }
}

/// A window with an empty title is never a match, whatever the search
/// token, so the locator can never return one.
pub proof fn lemma_empty_title_never_matches(w: WindowInfo, token: Seq<char>)
    requires
        w.title@.len() == 0,
    ensures
        !window_matches(w, token),
{
}

/// A known match with nothing matching before it is exactly where the
/// locator stops.
proof fn lemma_first_match_index_at(ws: Seq<WindowInfo>, token: Seq<char>, i: int)
    requires
        0 <= i < ws.len(),
        window_matches(ws[i], token),
        forall|j: int| 0 <= j < i ==> !window_matches(ws[j], token),
    ensures
        first_match_index(ws, token) == Some(i),
    decreases i,
{
    if i == 0 {
    } else {
        assert(forall|j: int| 0 <= j < ws.len() - 1 ==> ws.drop_first()[j] == ws[j + 1]);
        lemma_first_match_index_at(ws.drop_first(), token, i - 1);
    }
}

/// When nothing matches, the locator reports nothing.
proof fn lemma_first_match_index_none(ws: Seq<WindowInfo>, token: Seq<char>)
    requires
        forall|j: int| 0 <= j < ws.len() ==> !window_matches(ws[j], token),
    ensures
        first_match_index(ws, token) is None,
    decreases ws.len(),
{
    if ws.len() == 0 {
    } else {
        assert(forall|j: int| 0 <= j < ws.len() - 1 ==> ws.drop_first()[j] == ws[j + 1]);
        lemma_first_match_index_none(ws.drop_first(), token);
    }
}

/// Searches one enumeration pass for a window whose title contains
/// `partial_title`, case-insensitively. Windows with empty titles and
/// windows whose titles exceed the cap are skipped entirely; the first
/// remaining match in enumeration order wins and its handle is returned.
/// "Not found" is a normal outcome: the target application may simply not
/// have produced its window yet.
pub fn find_window_by_title(windows: &Vec<WindowInfo>, partial_title: &str) -> (r: Option<
    usize,
>)
    ensures
        r == first_match_hwnd(windows@, partial_title@),
{
    let token = lowercase(partial_title);
    let n = windows.len();
    let mut i: usize = 0;
    while i < n
        invariant
            n == windows@.len(),
            i <= n,
            token@ == lower_of(partial_title@),
            forall|j: int| 0 <= j < i ==> !window_matches(windows@[j], partial_title@),
        decreases n - i,
    {
        let w = &windows[i];
        let title_len = w.title.as_str().unicode_len();
        if 0 < title_len && title_len <= MAX_TITLE_LENGTH {
            let lowered = lowercase(w.title.as_str());
            if contains_str(lowered.as_str(), token.as_str()) {
                proof {
                    lemma_first_match_index_at(windows@, partial_title@, i as int);
                }
                return Some(w.hwnd);
            }
        }
        proof {
            assert(!window_matches(windows@[i as int], partial_title@));
        }
        i += 1;
    }
    proof {
        lemma_first_match_index_none(windows@, partial_title@);
    }
    None
}

} // verus!
