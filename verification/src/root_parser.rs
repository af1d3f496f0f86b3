//! Reading a migration root from what the user pastes: a raw folder ID or a Drive folder URL.

use vstd::prelude::*;
use crate::text::{
    chars_eq_ignore_ascii_case, chars_of, eq_ignore_ascii_case, is_ascii_alnum, str_eq, string_of, trim,
    trim_chars,
};
use crate::text::{ascii_alnum, ascii_lower, is_white_space, trim_start};
use crate::urls::{
    path_segments, segments_of, url_host, url_host_of, url_is_valid, url_parses, url_path, url_path_of,
    url_query_pairs, url_query_pairs_of,
};

verus! {

/// Why an input names no usable root folder.
#[derive(Clone, Copy, Debug, PartialEq, Eq, Structural)]
pub enum RootParseError {
    EmptyInput,
    InvalidUrl,
    UnsupportedHost,
    MissingFolderId,
    InvalidFolderId,
    RootContainerNotAllowed,
}

impl RootParseError {
    pub open spec fn message(self) -> Seq<char> {
        match self {
            RootParseError::EmptyInput => "input cannot be empty"@,
            RootParseError::InvalidUrl => "invalid Google Drive URL"@,
            RootParseError::UnsupportedHost => "URL host must be drive.google.com"@,
            RootParseError::MissingFolderId => "no folder ID found in URL"@,
            RootParseError::InvalidFolderId => "folder ID must be 15-64 alphanumeric characters, underscores, or dashes"@,
            RootParseError::RootContainerNotAllowed => "'root' (My Drive container) cannot be selected as a migration root"@,
        }
    }

    /// The message shown for this error.
    pub fn to_string(&self) -> (r: String)
        ensures r@ == self.message(),
    {
        match self {
            RootParseError::EmptyInput => String::from_str("input cannot be empty"),
            RootParseError::InvalidUrl => String::from_str("invalid Google Drive URL"),
            RootParseError::UnsupportedHost => String::from_str("URL host must be drive.google.com"),
            RootParseError::MissingFolderId => String::from_str("no folder ID found in URL"),
            RootParseError::InvalidFolderId => String::from_str("folder ID must be 15-64 alphanumeric characters, underscores, or dashes"),
            RootParseError::RootContainerNotAllowed => String::from_str("'root' (My Drive container) cannot be selected as a migration root"),
        }
    }
}

/// Characters a folder ID is made of.
pub open spec fn is_folder_id_char(c: char) -> bool {
    is_ascii_alnum(c) || c == '_' || c == '-'
}

/// 15 to 64 ASCII letters, digits, underscores or dashes.
pub open spec fn valid_folder_id(id: Seq<char>) -> bool {
    15 <= id.len() <= 64 && forall|i: int| 0 <= i < id.len() ==> is_folder_id_char(#[trigger] id[i])
}

/// Whether `id` has the shape of a Drive folder ID.
pub fn is_valid_folder_id(id: &Vec<char>) -> (r: bool)
    ensures r == valid_folder_id(id@),
{
    if id.len() < 15 || id.len() > 64 {
        return false;
    }
    let mut i: usize = 0;
    while i < id.len()
        invariant
            i <= id.len(),
            forall|k: int| 0 <= k < i ==> is_folder_id_char(#[trigger] id@[k]),
        decreases id.len() - i,
    {
        if !(ascii_alnum(id[i]) || id[i] == '_' || id[i] == '-') {
            assert(!is_folder_id_char(id@[i as int]));
            return false;
        }
        i += 1;
    }
    true
}

/// The value of the first `id` query pair.
pub open spec fn id_query_value(pairs: Seq<(Seq<char>, Seq<char>)>) -> Option<Seq<char>>
    decreases pairs.len(),
{
    if pairs.len() == 0 {
        None
    } else if pairs[0].0 == "id"@ {
        Some(pairs[0].1)
    } else {
        id_query_value(pairs.subrange(1, pairs.len() as int))
    }
}

/// The non-empty path segments, in order.
pub open spec fn non_empty_segments(segments: Seq<Seq<char>>) -> Seq<Seq<char>>
    decreases segments.len(),
{
    if segments.len() == 0 {
        Seq::empty()
    } else {
        let rest = non_empty_segments(segments.drop_last());
        if segments.last().len() > 0 { rest.push(segments.last()) } else { rest }
    }
}

/// The segment after the first `folders` segment.
pub open spec fn folder_after_folders(segments: Seq<Seq<char>>) -> Option<Seq<char>>
    decreases segments.len(),
{
    if segments.len() == 0 {
        None
    } else if segments[0] == "folders"@ {
        if segments.len() > 1 { Some(segments[1]) } else { None }
    } else {
        folder_after_folders(segments.subrange(1, segments.len() as int))
    }
}

/// The folder ID named by the parts of a parsed URL: only `drive.google.com` is read; an
/// `id` query value wins, else the segment after `folders` in the path.
pub open spec fn parts_folder_id(
    host: Option<Seq<char>>,
    pairs: Seq<(Seq<char>, Seq<char>)>,
    path: Seq<char>,
) -> Result<Seq<char>, RootParseError> {
    if !(host == Some("drive.google.com"@)) {
        Err(RootParseError::UnsupportedHost)
    } else {
        match id_query_value(pairs) {
            Some(id) => Ok(id),
            None => {
                let segments = match segments_of(path) { Some(s) => non_empty_segments(s), None => Seq::empty() };
                match folder_after_folders(segments) {
                    Some(id) => Ok(id),
                    None => Err(RootParseError::MissingFolderId),
                }
            },
        }
    }
}

/// The folder ID a Drive URL names.
pub open spec fn url_folder_id(url: Seq<char>) -> Result<Seq<char>, RootParseError> {
    if !url_parses(url) {
        Err(RootParseError::InvalidUrl)
    } else {
        parts_folder_id(url_host(url), url_query_pairs(url), url_path(url))
    }
}

/// The text of each query pair.
pub open spec fn pair_views(pairs: Seq<(String, String)>) -> Seq<(Seq<char>, Seq<char>)> {
    pairs.map_values(|p: (String, String)| (p.0@, p.1@))
}

/// The text of an optional host.
pub open spec fn host_view(host: Option<String>) -> Option<Seq<char>> {
    match host { Some(h) => Some(h@), None => None }
}

/// `s` starts with `prefix`.
pub open spec fn starts_with(s: Seq<char>, prefix: Seq<char>) -> bool {
    prefix.len() <= s.len() && s.subrange(0, prefix.len() as int) == prefix
}

/// What a pasted root reads as: the trimmed input is a URL when it starts with `http://` or
/// `https://` and a raw ID otherwise; `root` is refused in any case, and the ID must have
/// the shape of a folder ID.
pub open spec fn root_input(input: Seq<char>) -> Result<Seq<char>, RootParseError> {
    let t = trim(input);
    if t.len() == 0 {
        Err(RootParseError::EmptyInput)
    } else {
        let id = if starts_with(t, "http://"@) || starts_with(t, "https://"@) { url_folder_id(t) } else { Ok(t) };
        match id {
            Err(e) => Err(e),
            Ok(id) => if eq_ignore_ascii_case(id, "root"@) {
                Err(RootParseError::RootContainerNotAllowed)
            } else if !valid_folder_id(id) {
                Err(RootParseError::InvalidFolderId)
            } else {
                Ok(id)
            },
        }
    }
}

fn chars_start_with(s: &Vec<char>, prefix: &str) -> (r: bool)
    ensures r == starts_with(s@, prefix@),
{
    let p = chars_of(prefix);
    if p.len() > s.len() {
        return false;
    }
    let mut i: usize = 0;
    while i < p.len()
        invariant
            i <= p.len() <= s.len(),
            p@ == prefix@,
            forall|k: int| 0 <= k < i ==> #[trigger] s@[k] == p@[k],
        decreases p.len() - i,
    {
        if s[i] != p[i] {
            assert(s@.subrange(0, p@.len() as int)[i as int] != p@[i as int]);
            return false;
        }
        i += 1;
    }
    assert(s@.subrange(0, p@.len() as int) =~= p@);
    true
}

fn find_id_query(pairs: &Vec<(String, String)>, ghost_pairs: Ghost<Seq<(Seq<char>, Seq<char>)>>) -> (r: Option<String>)
    requires
        pairs@.len() == ghost_pairs@.len(),
        forall|i: int| 0 <= i < pairs@.len() ==> (#[trigger] pairs@[i]).0@ == ghost_pairs@[i].0 && pairs@[i].1@ == ghost_pairs@[i].1,
    ensures
        match (r, id_query_value(ghost_pairs@)) {
            (Some(a), Some(b)) => a@ == b,
            (None, None) => true,
            _ => false,
        },
{
    let ghost gp = ghost_pairs@;
    assert(gp.subrange(0, gp.len() as int) =~= gp);
    let mut i: usize = 0;
    while i < pairs.len()
        invariant
            i <= pairs.len(),
            gp == ghost_pairs@,
            pairs@.len() == gp.len(),
            forall|k: int| 0 <= k < pairs@.len() ==> (#[trigger] pairs@[k]).0@ == gp[k].0 && pairs@[k].1@ == gp[k].1,
            id_query_value(gp) == id_query_value(gp.subrange(i as int, gp.len() as int)),
        decreases pairs.len() - i,
    {
        let ghost rest = gp.subrange(i as int, gp.len() as int);
        assert(rest[0] == gp[i as int]);
        assert(rest.subrange(1, rest.len() as int) =~= gp.subrange(i + 1, gp.len() as int));
        let is_id = str_eq(pairs[i].0.as_str(), "id");
        assert(pairs@[i as int].0@ == gp[i as int].0);
        if is_id {
            assert(id_query_value(rest) == Some(rest[0].1));
            return Some(pairs[i].1.clone());
        }
        assert(id_query_value(rest) == id_query_value(gp.subrange(i + 1, gp.len() as int)));
        i += 1;
    }
    assert(gp.subrange(i as int, gp.len() as int).len() == 0);
    None
}

fn non_empty(segments: &Vec<String>) -> (r: Vec<String>)
    ensures
        r@.len() == non_empty_segments(segments@.map_values(|s: String| s@)).len(),
        forall|i: int| 0 <= i < r@.len() ==> (#[trigger] r@[i])@ == non_empty_segments(segments@.map_values(|s: String| s@))[i],
{
    let ghost all = segments@.map_values(|s: String| s@);
    let mut out: Vec<String> = Vec::new();
    let mut i: usize = 0;
    while i < segments.len()
        invariant
            i <= segments.len(),
            all == segments@.map_values(|s: String| s@),
            out@.map_values(|s: String| s@) == non_empty_segments(all.take(i as int)),
        decreases segments.len() - i,
    {
        assert(all.take(i + 1).drop_last() =~= all.take(i as int));
        assert(all.take(i + 1).last() == segments@[i as int]@);
        if !segments[i].as_str().is_empty() {
            out.push(segments[i].clone());
            assert(out@.map_values(|s: String| s@) =~= non_empty_segments(all.take(i as int)).push(segments@[i as int]@));
        }
        i += 1;
    }
    assert(all.take(segments.len() as int) =~= all);
    assert forall|k: int| 0 <= k < out@.len() implies (#[trigger] out@[k])@ == non_empty_segments(all)[k] by {
        assert(out@.map_values(|s: String| s@)[k] == out@[k]@);
    }
    out
}

fn folder_segment(segments: &Vec<String>, ghost_segments: Ghost<Seq<Seq<char>>>) -> (r: Option<String>)
    requires
        segments@.len() == ghost_segments@.len(),
        forall|i: int| 0 <= i < segments@.len() ==> (#[trigger] segments@[i])@ == ghost_segments@[i],
    ensures
        match (r, folder_after_folders(ghost_segments@)) {
            (Some(a), Some(b)) => a@ == b,
            (None, None) => true,
            _ => false,
        },
{
    let ghost gs = ghost_segments@;
    assert(gs.subrange(0, gs.len() as int) =~= gs);
    let mut i: usize = 0;
    while i < segments.len()
        invariant
            i <= segments.len(),
            gs == ghost_segments@,
            segments@.len() == gs.len(),
            forall|k: int| 0 <= k < segments@.len() ==> (#[trigger] segments@[k])@ == gs[k],
            folder_after_folders(gs) == folder_after_folders(gs.subrange(i as int, gs.len() as int)),
        decreases segments.len() - i,
    {
        let ghost rest = gs.subrange(i as int, gs.len() as int);
        assert(rest[0] == gs[i as int]);
        assert(rest.subrange(1, rest.len() as int) =~= gs.subrange(i + 1, gs.len() as int));
        let is_folders = str_eq(segments[i].as_str(), "folders");
        assert(segments@[i as int]@ == gs[i as int]);
        if is_folders {
            if i + 1 < segments.len() {
                assert(rest[1] == gs[i + 1]);
                assert(segments@[i + 1]@ == gs[i + 1]);
                assert(folder_after_folders(rest) == Some(rest[1]));
                return Some(segments[i + 1].clone());
            } else {
                assert(folder_after_folders(rest).is_none());
                return None;
            }
        }
        assert(folder_after_folders(rest) == folder_after_folders(gs.subrange(i + 1, gs.len() as int)));
        i += 1;
    }
    assert(gs.subrange(i as int, gs.len() as int).len() == 0);
    None
}

/// Reads the folder ID from the parts of a parsed URL: its host, its query pairs in
/// order and its path.
pub fn folder_id_from_parts(host: &Option<String>, pairs: &Vec<(String, String)>, path: &str) -> (r: Result<String, RootParseError>)
    ensures
        match (r, parts_folder_id(host_view(*host), pair_views(pairs@), path@)) {
            (Ok(a), Ok(b)) => a@ == b,
            (Err(a), Err(b)) => a == b,
            _ => false,
        },
{
    let is_drive = match host {
        Some(h) => str_eq(h.as_str(), "drive.google.com"),
        None => false,
    };
    if !is_drive {
        return Err(RootParseError::UnsupportedHost);
    }
    match find_id_query(pairs, Ghost(pair_views(pairs@))) {
        Some(id) => return Ok(id),
        None => {},
    }
    let segments = match path_segments(path) {
        Some(all) => {
            proof {
                let s = segments_of(path@).unwrap();
                assert(all@.map_values(|x: String| x@) =~= s);
            }
            non_empty(&all)
        },
        None => Vec::new(),
    };
    let ghost gs = match segments_of(path@) { Some(s) => non_empty_segments(s), None => Seq::<Seq<char>>::empty() };
    match folder_segment(&segments, Ghost(gs)) {
        Some(id) => Ok(id),
        None => Err(RootParseError::MissingFolderId),
    }
}

fn folder_id_from_url(url: &str) -> (r: Result<String, RootParseError>)
    ensures
        match (r, url_folder_id(url@)) {
            (Ok(a), Ok(b)) => a@ == b,
            (Err(a), Err(b)) => a == b,
            _ => false,
        },
{
    if !url_is_valid(url) {
        return Err(RootParseError::InvalidUrl);
    }
    let host = url_host_of(url);
    let pairs = url_query_pairs_of(url);
    let path = url_path_of(url);
    proof {
        assert(host_view(host) == url_host(url@));
        assert(pair_views(pairs@) =~= url_query_pairs(url@));
    }
    folder_id_from_parts(&host, &pairs, path.as_str())
}

/// Reads the folder ID of a migration root from a raw ID or a Drive folder URL.
pub fn parse_root_input(input: &str) -> (r: Result<String, RootParseError>)
    ensures
        match (r, root_input(input@)) {
            (Ok(a), Ok(b)) => a@ == b,
            (Err(a), Err(b)) => a == b,
            _ => false,
        },
{
    let all = chars_of(input);
    let trimmed_chars = trim_chars(&all);
    if trimmed_chars.len() == 0 {
        return Err(RootParseError::EmptyInput);
    }
    let trimmed = string_of(&trimmed_chars);
    let folder_id = if chars_start_with(&trimmed_chars, "http://") || chars_start_with(&trimmed_chars, "https://") {
        match folder_id_from_url(trimmed.as_str()) {
            Ok(id) => id,
            Err(e) => return Err(e),
        }
    } else {
        trimmed
    };
    let id_chars = chars_of(folder_id.as_str());
    let root = chars_of("root");
    if chars_eq_ignore_ascii_case(&id_chars, &root) {
        return Err(RootParseError::RootContainerNotAllowed);
    }
    if !is_valid_folder_id(&id_chars) {
        return Err(RootParseError::InvalidFolderId);
    }
    Ok(folder_id)
}

proof fn lemma_trim_keeps_clean_ends(t: Seq<char>)
    requires
        t.len() > 0,
        !is_white_space(t[0]),
        !is_white_space(t.last()),
    ensures trim(t) == t,
{
    assert(trim_start(t) == t);
}

proof fn lemma_not_a_url(t: Seq<char>)
    requires
        t.len() >= 5,
        t[4] != ':',
        t.len() >= 6 ==> t[5] != ':' || t[4] != 's',
    ensures
        !starts_with(t, "http://"@),
        !starts_with(t, "https://"@),
{
    reveal_strlit("http://");
    reveal_strlit("https://");
    if starts_with(t, "http://"@) {
        assert(t.subrange(0, 7)[4] == t[4]);
    }
    if starts_with(t, "https://"@) {
        assert(t.subrange(0, 8)[4] == t[4]);
        assert(t.subrange(0, 8)[5] == t[5]);
    }
}

/// Every raw folder ID of 15 to 64 ASCII letters, digits, underscores and dashes is
/// accepted as it is.
pub proof fn lemma_raw_folder_ids_are_accepted(t: Seq<char>)
    requires
        15 <= t.len() <= 64,
        forall|i: int| 0 <= i < t.len() ==> {
            let c = #[trigger] t[i];
            ('a' <= c && c <= 'z') || ('A' <= c && c <= 'Z') || ('0' <= c && c <= '9') || c == '_' || c == '-'
        },
    ensures root_input(t) == Ok::<Seq<char>, RootParseError>(t),
{
    let c0 = t[0];
    let cl = t.last();
    assert(t[t.len() - 1] == cl);
    lemma_trim_keeps_clean_ends(t);
    let c4 = t[4];
    let c5 = t[5];
    lemma_not_a_url(t);
    reveal_strlit("root");
    assert(!eq_ignore_ascii_case(t, "root"@));
}

/// A pasted text that is no URL, has no white space at its ends and holds a character
/// other than an ASCII letter, digit, underscore or dash is refused as an invalid folder ID.
pub proof fn lemma_foreign_characters_are_refused(t: Seq<char>, j: int)
    requires
        t.len() > 0,
        !is_white_space(t[0]),
        !is_white_space(t.last()),
        !starts_with(t, "http://"@),
        !starts_with(t, "https://"@),
        0 <= j < t.len(),
        !(('a' <= t[j] && t[j] <= 'z') || ('A' <= t[j] && t[j] <= 'Z') || ('0' <= t[j] && t[j] <= '9')
            || t[j] == '_' || t[j] == '-'),
    ensures root_input(t) == Err::<Seq<char>, RootParseError>(RootParseError::InvalidFolderId),
{
    lemma_trim_keeps_clean_ends(t);
    reveal_strlit("root");
    if eq_ignore_ascii_case(t, "root"@) {
        assert(ascii_lower(t[j]) == ascii_lower("root"@[j]));
    }
    assert(!is_folder_id_char(t[j]));
}

} // verus!
