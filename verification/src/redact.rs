//! Removal of tokens, codes and secrets from text before it is stored.

use vstd::prelude::*;
use crate::text::{string_of, ascii_alnum, is_ascii_alnum, ascii_lower, chars_of, is_white_space, to_ascii_lower, white_space};

verus! {

/// What replaces every secret.
pub const REDACTED: &'static str = "[REDACTED]";

/// The marker of an `Authorization: Bearer` header, matched in any case.
pub const BEARER_PREFIX: &'static str = "bearer ";

/// The start of a Google access token.
pub const GOOGLE_ACCESS_PREFIX: &'static str = "ya29.";

/// The start of a Google refresh token.
pub const GOOGLE_REFRESH_PREFIX: &'static str = "1//";

/// A Google authorization code in a query string.
pub const GOOGLE_AUTH_CODE_PREFIX: &'static str = "code=4/";

/// `s[i..]` starts with `pat`, comparing `s` in ASCII lower case.
pub open spec fn matches_at(s: Seq<char>, i: int, pat: Seq<char>) -> bool {
    0 <= i && i + pat.len() <= s.len()
        && forall|k: int| 0 <= k < pat.len() ==> ascii_lower(#[trigger] s[i + k]) == pat[k]
}

/// `s[i..]` starts with `pat`, ignoring ASCII case on both sides.
pub open spec fn matches_at_ci(s: Seq<char>, i: int, pat: Seq<char>) -> bool {
    0 <= i && i + pat.len() <= s.len()
        && forall|k: int| 0 <= k < pat.len() ==> ascii_lower(#[trigger] s[i + k]) == ascii_lower(pat[k])
}

fn chars_match_at(s: &Vec<char>, i: usize, pat: &Vec<char>) -> (r: bool)
    requires i <= s.len(),
    ensures r == matches_at(s@, i as int, pat@),
{
    if pat.len() > s.len() - i {
        return false;
    }
    let mut k: usize = 0;
    while k < pat.len()
        invariant
            k <= pat.len(),
            i + pat.len() <= s.len(),
            forall|j: int| 0 <= j < k ==> ascii_lower(#[trigger] s@[i + j]) == pat@[j],
        decreases pat.len() - k,
    {
        if to_ascii_lower(s[i + k]) != pat[k] {
            assert(ascii_lower(s@[i + k]) != pat@[k as int]);
            return false;
        }
        k += 1;
    }
    true
}

fn chars_match_at_ci(s: &Vec<char>, i: usize, pat: &Vec<char>) -> (r: bool)
    requires i <= s.len(),
    ensures r == matches_at_ci(s@, i as int, pat@),
{
    if pat.len() > s.len() - i {
        return false;
    }
    let mut k: usize = 0;
    while k < pat.len()
        invariant
            k <= pat.len(),
            i + pat.len() <= s.len(),
            forall|j: int| 0 <= j < k ==> ascii_lower(#[trigger] s@[i + j]) == ascii_lower(pat@[j]),
        decreases pat.len() - k,
    {
        if to_ascii_lower(s[i + k]) != to_ascii_lower(pat[k]) {
            assert(ascii_lower(s@[i + k]) != ascii_lower(pat@[k as int]));
            return false;
        }
        k += 1;
    }
    true
}

fn append_chars(out: &mut Vec<char>, src: &Vec<char>, from: usize, to: usize)
    requires from <= to <= src.len(),
    ensures final(out)@ == old(out)@ + src@.subrange(from as int, to as int),
{
    let mut i = from;
    while i < to
        invariant
            from <= i <= to <= src.len(),
            out@ == old(out)@ + src@.subrange(from as int, i as int),
        decreases to - i,
    {
        out.push(src[i]);
        proof {
            assert(src@.subrange(from as int, i + 1) =~= src@.subrange(from as int, i as int).push(src@[i as int]));
        }
        i += 1;
    }
}

fn append_all(out: &mut Vec<char>, src: &Vec<char>)
    ensures final(out)@ == old(out)@ + src@,
{
    append_chars(out, src, 0, src.len());
    assert(src@.subrange(0, src@.len() as int) =~= src@);
}

// ---------------------------------------------------------------------------
// Bearer headers
// ---------------------------------------------------------------------------

/// Characters that end a bearer token.
pub open spec fn ends_bearer_token(c: char) -> bool {
    is_white_space(c) || c == '"' || c == '\''
}

/// The length of the bearer token that starts at `i`.
pub open spec fn bearer_token_len(s: Seq<char>, i: int) -> nat
    decreases s.len() - i,
{
    if i < 0 || i >= s.len() || ends_bearer_token(s[i]) { 0 } else { 1 + bearer_token_len(s, i + 1) }
}

/// `s[pos..]` with the token after each `bearer ` replaced.
pub open spec fn redact_bearer_from(s: Seq<char>, pos: int) -> Seq<char>
    decreases s.len() - pos,
{
    if pos < 0 || pos >= s.len() {
        Seq::empty()
    } else if pos + 7 <= s.len() && matches_at(s, pos, "bearer "@) {
        let token_start = pos + 7;
        proof { lemma_bearer_token_len_bound(s, token_start); }
        s.subrange(pos, token_start) + "[REDACTED]"@
            + redact_bearer_from(s, token_start + bearer_token_len(s, token_start))
    } else {
        seq![s[pos]] + redact_bearer_from(s, pos + 1)
    }
}

/// A bearer token never runs past the end of the text.
pub proof fn lemma_bearer_token_len_bound(s: Seq<char>, i: int)
    requires 0 <= i <= s.len(),
    ensures i + bearer_token_len(s, i) <= s.len(),
    decreases s.len() - i,
{
    if i < s.len() && !ends_bearer_token(s[i]) {
        lemma_bearer_token_len_bound(s, i + 1);
    }
}

fn bearer_token_end(s: &Vec<char>, start: usize) -> (end: usize)
    requires start <= s.len(),
    ensures end == start + bearer_token_len(s@, start as int), end <= s.len(),
{
    let mut i = start;
    proof { lemma_bearer_token_len_bound(s@, start as int); }
    while i < s.len() && !(white_space(s[i]) || s[i] == '"' || s[i] == '\'')
        invariant
            start <= i <= s.len(),
            start + bearer_token_len(s@, start as int) == i + bearer_token_len(s@, i as int),
        decreases s.len() - i,
    {
        i += 1;
    }
    i
}

fn redact_bearer(s: &Vec<char>) -> (r: Vec<char>)
    ensures r@ == redact_bearer_from(s@, 0),
{
    let prefix = chars_of("bearer ");
    let redacted = chars_of("[REDACTED]");
    proof { reveal_strlit("bearer "); }
    let mut out: Vec<char> = Vec::new();
    let mut pos: usize = 0;
    while pos < s.len()
        invariant
            pos <= s.len(),
            prefix@ == "bearer "@,
            prefix@.len() == 7,
            redacted@ == "[REDACTED]"@,
            out@ + redact_bearer_from(s@, pos as int) == redact_bearer_from(s@, 0),
        decreases s.len() - pos,
    {
        if chars_match_at(s, pos, &prefix) {
            let token_start = pos + prefix.len();
            let end = bearer_token_end(s, token_start);
            let ghost before = out@;
            append_chars(&mut out, s, pos, token_start);
            append_all(&mut out, &redacted);
            proof {
                assert(before + redact_bearer_from(s@, pos as int) == out@ + redact_bearer_from(s@, end as int));
            }
            pos = end;
        } else {
            let ghost before = out@;
            out.push(s[pos]);
            proof {
                assert(before + redact_bearer_from(s@, pos as int) =~= out@ + redact_bearer_from(s@, pos + 1));
            }
            pos += 1;
        }
    }
    assert(out@ =~= redact_bearer_from(s@, 0));
    out
}

} // verus!

verus! {

// ---------------------------------------------------------------------------
// Google token prefixes
// ---------------------------------------------------------------------------

/// Characters a Google token is made of.
pub open spec fn is_token_char(c: char) -> bool {
    is_ascii_alnum(c) || c == '-' || c == '_' || c == '.'
}

/// The number of token characters from `i` on.
pub open spec fn token_char_len(s: Seq<char>, i: int) -> nat
    decreases s.len() - i,
{
    if i < 0 || i >= s.len() || !is_token_char(s[i]) { 0 } else { 1 + token_char_len(s, i + 1) }
}

/// A token prefix counts only after nothing, white space or punctuation that opens a value.
pub open spec fn is_token_left_boundary(previous: Option<char>) -> bool {
    match previous {
        None => true,
        Some(c) => is_white_space(c) || c == '"' || c == '\'' || c == '=' || c == ':' || c == ','
            || c == '{' || c == '[' || c == '(' || c == '?' || c == '&',
    }
}

/// A token never runs past the end of the text.
pub proof fn lemma_token_char_len_bound(s: Seq<char>, i: int)
    requires 0 <= i <= s.len(),
    ensures i + token_char_len(s, i) <= s.len(),
    decreases s.len() - i,
{
    if i < s.len() && is_token_char(s[i]) {
        lemma_token_char_len_bound(s, i + 1);
    }
}

/// `s[pos..]` with Google access tokens, refresh tokens and authorization codes replaced;
/// `previous` is the last character already written.
pub open spec fn redact_prefixed_from(s: Seq<char>, pos: int, previous: Option<char>) -> Seq<char>
    decreases s.len() - pos,
{
    if pos < 0 || pos >= s.len() {
        Seq::empty()
    } else if is_token_left_boundary(previous) && pos + 5 <= s.len() && matches_at_ci(s, pos, "ya29."@) {
        proof { lemma_token_char_len_bound(s, pos + 5); }
        "ya29."@ + "[REDACTED]"@ + redact_prefixed_from(s, pos + 5 + token_char_len(s, pos + 5), Some(']'))
    } else if is_token_left_boundary(previous) && pos + 3 <= s.len() && matches_at_ci(s, pos, "1//"@) {
        proof { lemma_token_char_len_bound(s, pos + 3); }
        "1//"@ + "[REDACTED]"@ + redact_prefixed_from(s, pos + 3 + token_char_len(s, pos + 3), Some(']'))
    } else if is_token_left_boundary(previous) && pos + 7 <= s.len() && matches_at_ci(s, pos, "code=4/"@) {
        proof { lemma_token_char_len_bound(s, pos + 7); }
        "code=4/"@ + "[REDACTED]"@ + redact_prefixed_from(s, pos + 7 + token_char_len(s, pos + 7), Some(']'))
    } else {
        seq![s[pos]] + redact_prefixed_from(s, pos + 1, Some(s[pos]))
    }
}

fn token_left_boundary(previous: Option<char>) -> (r: bool)
    ensures r == is_token_left_boundary(previous),
{
    match previous {
        None => true,
        Some(c) => white_space(c) || c == '"' || c == '\'' || c == '=' || c == ':' || c == ','
            || c == '{' || c == '[' || c == '(' || c == '?' || c == '&',
    }
}

fn token_end(s: &Vec<char>, start: usize) -> (end: usize)
    requires start <= s.len(),
    ensures end == start + token_char_len(s@, start as int), end <= s.len(),
{
    let mut i = start;
    proof { lemma_token_char_len_bound(s@, start as int); }
    while i < s.len() && (ascii_alnum(s[i]) || s[i] == '-' || s[i] == '_' || s[i] == '.')
        invariant
            start <= i <= s.len(),
            start + token_char_len(s@, start as int) == i + token_char_len(s@, i as int),
        decreases s.len() - i,
    {
        i += 1;
    }
    i
}

fn redact_prefixed_tokens(s: &Vec<char>) -> (r: Vec<char>)
    ensures r@ == redact_prefixed_from(s@, 0, None),
{
    let access = chars_of("ya29.");
    let refresh = chars_of("1//");
    let code = chars_of("code=4/");
    let redacted = chars_of("[REDACTED]");
    proof {
        reveal_strlit("ya29.");
        reveal_strlit("1//");
        reveal_strlit("code=4/");
        reveal_strlit("[REDACTED]");
    }
    let mut out: Vec<char> = Vec::new();
    let mut previous: Option<char> = None;
    let mut pos: usize = 0;
    while pos < s.len()
        invariant
            pos <= s.len(),
            access@ == "ya29."@, access@.len() == 5,
            refresh@ == "1//"@, refresh@.len() == 3,
            code@ == "code=4/"@, code@.len() == 7,
            redacted@ == "[REDACTED]"@, redacted@.len() == 10, redacted@.last() == ']',
            out@ + redact_prefixed_from(s@, pos as int, previous) == redact_prefixed_from(s@, 0, None),
        decreases s.len() - pos,
    {
        let ghost before = out@;
        let boundary = token_left_boundary(previous);
        if boundary && 5 <= s.len() - pos && chars_match_at_ci(s, pos, &access) {
            let end = token_end(s, pos + 5);
            append_all(&mut out, &access);
            append_all(&mut out, &redacted);
            proof {
                assert(before + redact_prefixed_from(s@, pos as int, previous)
                    =~= out@ + redact_prefixed_from(s@, end as int, Some(']')));
            }
            previous = Some(']');
            pos = end;
        } else if boundary && 3 <= s.len() - pos && chars_match_at_ci(s, pos, &refresh) {
            let end = token_end(s, pos + 3);
            append_all(&mut out, &refresh);
            append_all(&mut out, &redacted);
            proof {
                assert(before + redact_prefixed_from(s@, pos as int, previous)
                    =~= out@ + redact_prefixed_from(s@, end as int, Some(']')));
            }
            previous = Some(']');
            pos = end;
        } else if boundary && 7 <= s.len() - pos && chars_match_at_ci(s, pos, &code) {
            let end = token_end(s, pos + 7);
            append_all(&mut out, &code);
            append_all(&mut out, &redacted);
            proof {
                assert(before + redact_prefixed_from(s@, pos as int, previous)
                    =~= out@ + redact_prefixed_from(s@, end as int, Some(']')));
            }
            previous = Some(']');
            pos = end;
        } else {
            let c = s[pos];
            out.push(c);
            proof {
                assert(before + redact_prefixed_from(s@, pos as int, previous)
                    =~= out@ + redact_prefixed_from(s@, pos + 1, Some(c)));
            }
            previous = Some(c);
            pos += 1;
        }
    }
    assert(out@ =~= redact_prefixed_from(s@, 0, None));
    out
}

} // verus!

verus! {

// ---------------------------------------------------------------------------
// Keyed values such as `access_token=...` or `"clientSecret": "..."`
// ---------------------------------------------------------------------------

/// The keys whose values are secrets, matched in ASCII lower case.
pub open spec fn secret_keys() -> Seq<Seq<char>> {
    seq![
        "access_token"@,
        "accesstoken"@,
        "refresh_token"@,
        "refreshtoken"@,
        "id_token"@,
        "idtoken"@,
        "client_secret"@,
        "clientsecret"@,
        "code_verifier"@,
        "codeverifier"@,
        "pkce_verifier"@,
        "pkceverifier"@,
        "authorization_code"@,
        "authorizationcode"@,
        "pkce"@
    ]
}

/// The `i`-th secret key.
pub fn secret_key(i: usize) -> (r: &'static str)
    requires i < 15,
    ensures r@ == secret_keys()[i as int],
{
    match i {
        0 => "access_token",
        1 => "accesstoken",
        2 => "refresh_token",
        3 => "refreshtoken",
        4 => "id_token",
        5 => "idtoken",
        6 => "client_secret",
        7 => "clientsecret",
        8 => "code_verifier",
        9 => "codeverifier",
        10 => "pkce_verifier",
        11 => "pkceverifier",
        12 => "authorization_code",
        13 => "authorizationcode",
        _ => "pkce",
    }
}

/// ASCII white space (`u8::is_ascii_whitespace`).
pub open spec fn is_ascii_white(c: char) -> bool {
    c == ' ' || c == '\t' || c == '\n' || c == '\x0C' || c == '\r'
}

/// Characters between a key and its separator or value that are skipped.
pub open spec fn is_separator_fill(c: char) -> bool {
    is_ascii_white(c) || c == '"'
}

/// The number of fill characters from `i` on.
pub open spec fn fill_len(s: Seq<char>, i: int) -> nat
    decreases s.len() - i,
{
    if i < 0 || i >= s.len() || !is_separator_fill(s[i]) { 0 } else { 1 + fill_len(s, i + 1) }
}

/// Characters that end a secret value.
pub open spec fn ends_value(c: char) -> bool {
    is_white_space(c) || c == '&' || c == '"' || c == '\'' || c == ',' || c == '}' || c == ']'
}

/// The length of the value that starts at `i`.
pub open spec fn value_len(s: Seq<char>, i: int) -> nat
    decreases s.len() - i,
{
    if i < 0 || i >= s.len() || ends_value(s[i]) { 0 } else { 1 + value_len(s, i + 1) }
}

/// After a key at `after_key`: where the value starts and where it ends, both counted from
/// `after_key`, when a `=` or `:` separator and a non-empty value follow.
pub open spec fn value_span(s: Seq<char>, after_key: int) -> Option<(nat, nat)> {
    let sep = after_key + fill_len(s, after_key);
    if sep >= s.len() || (s[sep] != '=' && s[sep] != ':') {
        None
    } else {
        let start = sep + 1 + fill_len(s, sep + 1);
        let len = value_len(s, start);
        if len == 0 { None } else { Some(((start - after_key) as nat, (start - after_key + len) as nat)) }
    }
}

/// A key counts only when no ASCII letter or digit touches it on either side.
pub open spec fn is_key_boundary(s: Seq<char>, key_start: int, key_len: int) -> bool {
    (key_start == 0 || !is_ascii_alnum(s[key_start - 1]))
        && (key_start + key_len >= s.len() || !is_ascii_alnum(s[key_start + key_len]))
}

proof fn lemma_fill_len_bound(s: Seq<char>, i: int)
    requires 0 <= i <= s.len(),
    ensures i + fill_len(s, i) <= s.len(),
    decreases s.len() - i,
{
    if i < s.len() && is_separator_fill(s[i]) {
        lemma_fill_len_bound(s, i + 1);
    }
}

proof fn lemma_value_len_bound(s: Seq<char>, i: int)
    requires 0 <= i <= s.len(),
    ensures i + value_len(s, i) <= s.len(),
    decreases s.len() - i,
{
    if i < s.len() && !ends_value(s[i]) {
        lemma_value_len_bound(s, i + 1);
    }
}

/// A value span lies after the key and inside the text.
pub proof fn lemma_value_span_bound(s: Seq<char>, after_key: int)
    requires 0 <= after_key <= s.len(),
    ensures
        value_span(s, after_key) matches Some((a, b)) ==> 0 < b && a < b && after_key + b <= s.len(),
{
    lemma_fill_len_bound(s, after_key);
    let sep = after_key + fill_len(s, after_key);
    if sep < s.len() {
        lemma_fill_len_bound(s, sep + 1);
        lemma_value_len_bound(s, sep + 1 + fill_len(s, sep + 1));
    }
}

/// `s[pos..]` with the value after each standing occurrence of `key` replaced.
pub open spec fn redact_key_from(s: Seq<char>, key: Seq<char>, pos: int) -> Seq<char>
    decreases s.len() - pos,
{
    if pos < 0 || pos >= s.len() {
        Seq::empty()
    } else if key.len() > 0 && pos + key.len() <= s.len() && matches_at(s, pos, key) {
        let after = pos + key.len();
        if !is_key_boundary(s, pos, key.len() as int) {
            s.subrange(pos, after) + redact_key_from(s, key, after)
        } else {
            proof { lemma_value_span_bound(s, after); }
            match value_span(s, after) {
                None => s.subrange(pos, after) + redact_key_from(s, key, after),
                Some((value_start, value_end)) => s.subrange(pos, after + value_start)
                    + "[REDACTED]"@ + redact_key_from(s, key, after + value_end),
            }
        }
    } else {
        seq![s[pos]] + redact_key_from(s, key, pos + 1)
    }
}

/// The text after the first `n` secret keys have been handled, one key after the other.
pub open spec fn redact_keys_upto(s: Seq<char>, n: nat) -> Seq<char>
    decreases n,
{
    if n == 0 { s } else { redact_key_from(redact_keys_upto(s, (n - 1) as nat), secret_keys()[n - 1], 0) }
}

fn fill_end(s: &Vec<char>, start: usize) -> (end: usize)
    requires start <= s.len(),
    ensures end == start + fill_len(s@, start as int), end <= s.len(),
{
    let mut i = start;
    proof { lemma_fill_len_bound(s@, start as int); }
    while i < s.len() && (s[i] == ' ' || s[i] == '\t' || s[i] == '\n' || s[i] == '\x0C' || s[i] == '\r' || s[i] == '"')
        invariant
            start <= i <= s.len(),
            start + fill_len(s@, start as int) == i + fill_len(s@, i as int),
        decreases s.len() - i,
    {
        i += 1;
    }
    i
}

fn value_end(s: &Vec<char>, start: usize) -> (end: usize)
    requires start <= s.len(),
    ensures end == start + value_len(s@, start as int), end <= s.len(),
{
    let mut i = start;
    proof { lemma_value_len_bound(s@, start as int); }
    while i < s.len() && !(white_space(s[i]) || s[i] == '&' || s[i] == '"' || s[i] == '\'' || s[i] == ',' || s[i] == '}' || s[i] == ']')
        invariant
            start <= i <= s.len(),
            start + value_len(s@, start as int) == i + value_len(s@, i as int),
        decreases s.len() - i,
    {
        i += 1;
    }
    i
}

fn find_value_span(s: &Vec<char>, after_key: usize) -> (r: Option<(usize, usize)>)
    requires after_key <= s.len(),
    ensures
        r matches Some((a, b)) ==> value_span(s@, after_key as int) == Some((a as nat, b as nat)),
        r is None ==> value_span(s@, after_key as int) is None,
{
    proof { lemma_value_span_bound(s@, after_key as int); }
    let sep = fill_end(s, after_key);
    if sep >= s.len() || (s[sep] != '=' && s[sep] != ':') {
        return None;
    }
    let start = fill_end(s, sep + 1);
    let end = value_end(s, start);
    if end == start {
        None
    } else {
        Some((start - after_key, end - after_key))
    }
}

fn key_boundary(s: &Vec<char>, key_start: usize, key_len: usize) -> (r: bool)
    requires key_start + key_len <= s.len(),
    ensures r == is_key_boundary(s@, key_start as int, key_len as int),
{
    let before_ok = key_start == 0 || !ascii_alnum(s[key_start - 1]);
    let after = key_start + key_len;
    let after_ok = after >= s.len() || !ascii_alnum(s[after]);
    before_ok && after_ok
}

fn redact_one_key(s: &Vec<char>, key: &Vec<char>) -> (r: Vec<char>)
    ensures r@ == redact_key_from(s@, key@, 0),
{
    let redacted = chars_of("[REDACTED]");
    let mut out: Vec<char> = Vec::new();
    let mut pos: usize = 0;
    while pos < s.len()
        invariant
            pos <= s.len(),
            redacted@ == "[REDACTED]"@,
            out@ + redact_key_from(s@, key@, pos as int) == redact_key_from(s@, key@, 0),
        decreases s.len() - pos,
    {
        let ghost before = out@;
        if key.len() > 0 && key.len() <= s.len() - pos && chars_match_at(s, pos, key) {
            let after = pos + key.len();
            if !key_boundary(s, pos, key.len()) {
                append_chars(&mut out, s, pos, after);
                proof {
                    assert(before + redact_key_from(s@, key@, pos as int)
                        =~= out@ + redact_key_from(s@, key@, after as int));
                }
                pos = after;
            } else {
                match find_value_span(s, after) {
                    None => {
                        append_chars(&mut out, s, pos, after);
                        proof {
                            assert(before + redact_key_from(s@, key@, pos as int)
                                =~= out@ + redact_key_from(s@, key@, after as int));
                        }
                        pos = after;
                    },
                    Some((value_start, value_stop)) => {
                        proof { lemma_value_span_bound(s@, after as int); }
                        append_chars(&mut out, s, pos, after + value_start);
                        append_all(&mut out, &redacted);
                        proof {
                            assert(before + redact_key_from(s@, key@, pos as int)
                                =~= out@ + redact_key_from(s@, key@, (after + value_stop) as int));
                        }
                        pos = after + value_stop;
                    },
                }
            }
        } else {
            out.push(s[pos]);
            proof {
                assert(before + redact_key_from(s@, key@, pos as int)
                    =~= out@ + redact_key_from(s@, key@, pos + 1));
            }
            pos += 1;
        }
    }
    assert(out@ =~= redact_key_from(s@, key@, 0));
    out
}

fn redact_keyed_values(s: &Vec<char>) -> (r: Vec<char>)
    ensures r@ == redact_keys_upto(s@, 15),
{
    let mut text: Vec<char> = s.clone();
    assert(text@ == redact_keys_upto(s@, 0));
    let mut i: usize = 0;
    while i < 15
        invariant
            i <= 15,
            text@ == redact_keys_upto(s@, i as nat),
        decreases 15 - i,
    {
        let key = chars_of(secret_key(i));
        text = redact_one_key(&text, &key);
        i += 1;
    }
    text
}

/// What `redact_secrets` writes: bearer tokens first, then prefixed Google tokens, then the
/// values of secret keys.
pub open spec fn redacted_text(input: Seq<char>) -> Seq<char> {
    redact_keys_upto(redact_prefixed_from(redact_bearer_from(input, 0), 0, None), 15)
}

/// Replaces every token, code and secret in `input` with `[REDACTED]`.
pub fn redact_secrets(input: &str) -> (r: String)
    ensures r@ == redacted_text(input@),
{
    let chars = chars_of(input);
    let with_bearer = redact_bearer(&chars);
    let with_prefixes = redact_prefixed_tokens(&with_bearer);
    let with_keys = redact_keyed_values(&with_prefixes);
    string_of(&with_keys)
}

} // verus!

verus! {

proof fn lemma_bearer_identity(s: Seq<char>, pos: int)
    requires
        0 <= pos <= s.len(),
        forall|i: int| 0 <= i < s.len() ==> !matches_at(s, i, "bearer "@),
    ensures redact_bearer_from(s, pos) == s.subrange(pos, s.len() as int),
    decreases s.len() - pos,
{
    if pos < s.len() {
        lemma_bearer_identity(s, pos + 1);
        assert(redact_bearer_from(s, pos) =~= s.subrange(pos, s.len() as int));
    } else {
        assert(s.subrange(pos, s.len() as int) =~= Seq::<char>::empty());
    }
}

proof fn lemma_prefixed_identity(s: Seq<char>, pos: int, previous: Option<char>)
    requires
        0 <= pos <= s.len(),
        forall|i: int| 0 <= i < s.len() ==> !matches_at_ci(s, i, "ya29."@)
            && !matches_at_ci(s, i, "1//"@) && !matches_at_ci(s, i, "code=4/"@),
    ensures redact_prefixed_from(s, pos, previous) == s.subrange(pos, s.len() as int),
    decreases s.len() - pos,
{
    if pos < s.len() {
        lemma_prefixed_identity(s, pos + 1, Some(s[pos]));
        assert(redact_prefixed_from(s, pos, previous) =~= s.subrange(pos, s.len() as int));
    } else {
        assert(s.subrange(pos, s.len() as int) =~= Seq::<char>::empty());
    }
}

proof fn lemma_key_identity(s: Seq<char>, key: Seq<char>, pos: int)
    requires
        0 <= pos <= s.len(),
        forall|i: int| 0 <= i < s.len() ==> !matches_at(s, i, key),
    ensures redact_key_from(s, key, pos) == s.subrange(pos, s.len() as int),
    decreases s.len() - pos,
{
    if pos < s.len() {
        lemma_key_identity(s, key, pos + 1);
        assert(redact_key_from(s, key, pos) =~= s.subrange(pos, s.len() as int));
    } else {
        assert(s.subrange(pos, s.len() as int) =~= Seq::<char>::empty());
    }
}

proof fn lemma_keys_identity(s: Seq<char>, n: nat)
    requires
        n <= 15,
        forall|k: int, i: int| 0 <= k < 15 && 0 <= i < s.len() ==> #[trigger] matches_at(s, i, secret_keys()[k]) == false,
    ensures redact_keys_upto(s, n) == s,
    decreases n,
{
    if n > 0 {
        lemma_keys_identity(s, (n - 1) as nat);
        let key = secret_keys()[n - 1];
        assert forall|i: int| 0 <= i < s.len() implies !matches_at(s, i, key) by {
            assert(matches_at(s, i, secret_keys()[n - 1]) == false);
        }
        lemma_key_identity(s, key, 0);
        assert(s.subrange(0, s.len() as int) =~= s);
    }
}

/// No character of `s`, in ASCII lower case, is one that `marked` picks.
pub open spec fn avoids(s: Seq<char>, marked: spec_fn(char) -> bool) -> bool
    decreases s.len(),
{
    if s.len() == 0 { true } else { !marked(ascii_lower(s.last())) && avoids(s.drop_last(), marked) }
}

/// `p` holds a character that `marked` picks.
pub open spec fn has_marked_char(p: Seq<char>, marked: spec_fn(char) -> bool) -> bool {
    exists|m: int| 0 <= m < p.len() && marked(#[trigger] p[m])
}

/// Every pattern the redactor looks for holds a character that `marked` picks: the space
/// of the bearer marker, the dot, slash and equals sign of the Google prefixes, and one
/// character of each secret key; so do the control characters a text cell flattens.
pub open spec fn marks_every_pattern(marked: spec_fn(char) -> bool) -> bool {
    &&& marked(' ') && marked('.') && marked('/') && marked('=')
    &&& marked('\r') && marked('\n') && marked('\t')
    &&& forall|k: int| 0 <= k < 15 ==> #[trigger] has_marked_char(secret_keys()[k], marked)
}

/// Each character of a text that avoids the marked ones is unmarked.
pub proof fn lemma_avoids_each(s: Seq<char>, marked: spec_fn(char) -> bool)
    requires avoids(s, marked),
    ensures forall|j: int| 0 <= j < s.len() ==> !marked(ascii_lower(#[trigger] s[j])),
    decreases s.len(),
{
    if s.len() > 0 {
        lemma_avoids_each(s.drop_last(), marked);
        assert forall|j: int| 0 <= j < s.len() implies !marked(ascii_lower(#[trigger] s[j])) by {
            if j < s.len() - 1 {
                assert(s[j] == s.drop_last()[j]);
            }
        }
    }
}

/// Text without any character that marks every pattern holds none of them and is written
/// unchanged.
pub proof fn lemma_avoiding_text_is_unchanged(s: Seq<char>, marked: spec_fn(char) -> bool)
    requires
        avoids(s, marked),
        marks_every_pattern(marked),
    ensures redacted_text(s) == s,
{
    lemma_avoids_each(s, marked);
    reveal_strlit("bearer ");
    reveal_strlit("ya29.");
    reveal_strlit("1//");
    reveal_strlit("code=4/");
    assert forall|i: int| 0 <= i < s.len() implies !matches_at(s, i, "bearer "@) by {
        if matches_at(s, i, "bearer "@) {
            assert(ascii_lower(s[i + 6]) == "bearer "@[6]);
        }
    }
    assert forall|i: int| 0 <= i < s.len() implies !matches_at_ci(s, i, "ya29."@)
        && !matches_at_ci(s, i, "1//"@) && !matches_at_ci(s, i, "code=4/"@) by {
        if matches_at_ci(s, i, "ya29."@) {
            assert(ascii_lower(s[i + 4]) == ascii_lower("ya29."@[4]));
        }
        if matches_at_ci(s, i, "1//"@) {
            assert(ascii_lower(s[i + 1]) == ascii_lower("1//"@[1]));
        }
        if matches_at_ci(s, i, "code=4/"@) {
            assert(ascii_lower(s[i + 4]) == ascii_lower("code=4/"@[4]));
        }
    }
    assert forall|k: int, i: int| 0 <= k < 15 && 0 <= i < s.len()
        implies #[trigger] matches_at(s, i, secret_keys()[k]) == false by {
        assert(has_marked_char(secret_keys()[k], marked));
        let m = choose|m: int| 0 <= m < secret_keys()[k].len() && marked(#[trigger] secret_keys()[k][m]);
        if matches_at(s, i, secret_keys()[k]) {
            assert(ascii_lower(s[i + m]) == secret_keys()[k][m]);
        }
    }
    lemma_clean_text_is_unchanged(s);
}

/// Text that holds no bearer marker, no Google token prefix and no secret key, in any case,
/// is written unchanged.
pub proof fn lemma_clean_text_is_unchanged(s: Seq<char>)
    requires
        forall|i: int| 0 <= i < s.len() ==> !matches_at(s, i, "bearer "@),
        forall|i: int| 0 <= i < s.len() ==> !matches_at_ci(s, i, "ya29."@)
            && !matches_at_ci(s, i, "1//"@) && !matches_at_ci(s, i, "code=4/"@),
        forall|k: int, i: int| 0 <= k < 15 && 0 <= i < s.len() ==> #[trigger] matches_at(s, i, secret_keys()[k]) == false,
    ensures redacted_text(s) == s,
{
    lemma_bearer_identity(s, 0);
    assert(s.subrange(0, s.len() as int) =~= s);
    lemma_prefixed_identity(s, 0, None);
    lemma_keys_identity(s, 15);
}

/// Characters that every Google prefix and every secret key holds one of, and that the
/// text `Bearer [REDACTED]` lacks.
pub open spec fn marks_after_bearer(c: char) -> bool {
    c == '.' || c == '/' || c == '=' || c == 'o' || c == 'k' || c == 's' || c == 'i' || c == 'p'
}

proof fn lemma_marks_after_bearer()
    ensures
        forall|k: int| #![trigger secret_keys()[k]] 0 <= k < 15 ==> has_marked_char(secret_keys()[k], |c: char| marks_after_bearer(c)),
{
    let marked = |c: char| marks_after_bearer(c);
    reveal_strlit("access_token");
    reveal_strlit("accesstoken");
    reveal_strlit("refresh_token");
    reveal_strlit("refreshtoken");
    reveal_strlit("id_token");
    reveal_strlit("idtoken");
    reveal_strlit("client_secret");
    reveal_strlit("clientsecret");
    reveal_strlit("code_verifier");
    reveal_strlit("codeverifier");
    reveal_strlit("pkce_verifier");
    reveal_strlit("pkceverifier");
    reveal_strlit("authorization_code");
    reveal_strlit("authorizationcode");
    reveal_strlit("pkce");
    assert forall|k: int| 0 <= k < 15 implies #[trigger] has_marked_char(secret_keys()[k], marked) by {
        if k == 0 {
            assert(marked(secret_keys()[0][4]));
        } else if k == 1 {
            assert(marked(secret_keys()[1][4]));
        } else if k == 2 {
            assert(marked(secret_keys()[2][5]));
        } else if k == 3 {
            assert(marked(secret_keys()[3][5]));
        } else if k == 4 {
            assert(marked(secret_keys()[4][0]));
        } else if k == 5 {
            assert(marked(secret_keys()[5][0]));
        } else if k == 6 {
            assert(marked(secret_keys()[6][2]));
        } else if k == 7 {
            assert(marked(secret_keys()[7][2]));
        } else if k == 8 {
            assert(marked(secret_keys()[8][1]));
        } else if k == 9 {
            assert(marked(secret_keys()[9][1]));
        } else if k == 10 {
            assert(marked(secret_keys()[10][0]));
        } else if k == 11 {
            assert(marked(secret_keys()[11][0]));
        } else if k == 12 {
            assert(marked(secret_keys()[12][4]));
        } else if k == 13 {
            assert(marked(secret_keys()[13][4]));
        } else if k == 14 {
            assert(marked(secret_keys()[14][0]));
        }
    }
}

proof fn lemma_later_stages_keep(s: Seq<char>)
    requires avoids(s, |c: char| marks_after_bearer(c)),
    ensures redact_keys_upto(redact_prefixed_from(s, 0, None), 15) == s,
{
    let marked = |c: char| marks_after_bearer(c);
    lemma_avoids_each(s, marked);
    lemma_marks_after_bearer();
    reveal_strlit("ya29.");
    reveal_strlit("1//");
    reveal_strlit("code=4/");
    assert forall|i: int| 0 <= i < s.len() implies !matches_at_ci(s, i, "ya29."@)
        && !matches_at_ci(s, i, "1//"@) && !matches_at_ci(s, i, "code=4/"@) by {
        if matches_at_ci(s, i, "ya29."@) {
            assert(ascii_lower(s[i + 4]) == ascii_lower("ya29."@[4]));
        }
        if matches_at_ci(s, i, "1//"@) {
            assert(ascii_lower(s[i + 1]) == ascii_lower("1//"@[1]));
        }
        if matches_at_ci(s, i, "code=4/"@) {
            assert(ascii_lower(s[i + 4]) == ascii_lower("code=4/"@[4]));
        }
    }
    assert forall|k: int, i: int| 0 <= k < 15 && 0 <= i < s.len()
        implies #[trigger] matches_at(s, i, secret_keys()[k]) == false by {
        assert(has_marked_char(secret_keys()[k], marked));
        let m = choose|m: int| 0 <= m < secret_keys()[k].len() && marked(#[trigger] secret_keys()[k][m]);
        if matches_at(s, i, secret_keys()[k]) {
            assert(ascii_lower(s[i + m]) == secret_keys()[k][m]);
        }
    }
    lemma_prefixed_identity(s, 0, None);
    assert(s.subrange(0, s.len() as int) =~= s);
    lemma_keys_identity(s, 15);
}

proof fn lemma_token_runs_to_end(s: Seq<char>, i: int)
    requires
        0 <= i <= s.len(),
        forall|j: int| i <= j < s.len() ==> !ends_bearer_token(#[trigger] s[j]),
    ensures bearer_token_len(s, i) == s.len() - i,
    decreases s.len() - i,
{
    if i < s.len() {
        lemma_token_runs_to_end(s, i + 1);
    }
}

/// A bearer header hides its whole token: `Bearer ` followed by any token that holds no
/// white space and no quote is written as `Bearer [REDACTED]`.
pub proof fn lemma_bearer_token_is_hidden(t: Seq<char>)
    requires forall|j: int| 0 <= j < t.len() ==> !ends_bearer_token(#[trigger] t[j]),
    ensures redacted_text("Bearer "@ + t) == "Bearer [REDACTED]"@,
{
    let s = "Bearer "@ + t;
    reveal_strlit("Bearer ");
    reveal_strlit("bearer ");
    reveal_strlit("[REDACTED]");
    reveal_strlit("Bearer [REDACTED]");
    assert forall|j: int| 7 <= j < s.len() implies !ends_bearer_token(#[trigger] s[j]) by {
        assert(s[j] == t[j - 7]);
    }
    lemma_token_runs_to_end(s, 7);
    assert(matches_at(s, 0, "bearer "@));
    assert(redact_bearer_from(s, s.len() as int) == Seq::<char>::empty());
    assert(s.subrange(0, 7) =~= "Bearer "@);
    assert(redact_bearer_from(s, 0) =~= "Bearer "@ + "[REDACTED]"@);
    assert("Bearer "@ + "[REDACTED]"@ =~= "Bearer [REDACTED]"@);
    assert(avoids("Bearer [REDACTED]"@, |c: char| marks_after_bearer(c))) by {
        reveal_with_fuel(avoids, 18);
    }
    lemma_later_stages_keep("Bearer [REDACTED]"@);
}

} // verus!
