//! What the `url` crate reads out of a URL, behind one trusted call per accessor, and the
//! path segments, which follow from the path in a few lines.

use vstd::prelude::*;
use crate::text::push_char;

verus! {

/// Whether `url::Url::parse` accepts `input`.
pub uninterp spec fn url_parses(input: Seq<char>) -> bool;

/// `Url::scheme` of the parsed `input`.
pub uninterp spec fn url_scheme(input: Seq<char>) -> Seq<char>;

/// `Url::host_str` of the parsed `input`.
pub uninterp spec fn url_host(input: Seq<char>) -> Option<Seq<char>>;

/// `Url::username` of the parsed `input`.
pub uninterp spec fn url_username(input: Seq<char>) -> Seq<char>;

/// `Url::password` of the parsed `input`.
pub uninterp spec fn url_password(input: Seq<char>) -> Option<Seq<char>>;

/// `Url::port` of the parsed `input`.
pub uninterp spec fn url_port(input: Seq<char>) -> Option<u16>;

/// `Url::path` of the parsed `input`.
pub uninterp spec fn url_path(input: Seq<char>) -> Seq<char>;

/// `Url::query` of the parsed `input`.
pub uninterp spec fn url_query(input: Seq<char>) -> Option<Seq<char>>;

/// `Url::fragment` of the parsed `input`.
pub uninterp spec fn url_fragment(input: Seq<char>) -> Option<Seq<char>>;

/// `Url::query_pairs` of the parsed `input`: the decoded pairs, in order.
pub uninterp spec fn url_query_pairs(input: Seq<char>) -> Seq<(Seq<char>, Seq<char>)>;

/// `url::Url::parse(input).is_ok()`.
#[verifier::external_body]
pub(crate) fn url_is_valid(input: &str) -> (r: bool)
    ensures r == url_parses(input@),
{
    url::Url::parse(input).is_ok()
}

/// `Url::scheme` of the parsed `input`.
#[verifier::external_body]
pub(crate) fn url_scheme_of(input: &str) -> (r: String)
    requires url_parses(input@),
    ensures r@ == url_scheme(input@),
{
    match url::Url::parse(input) {
        Ok(parsed) => parsed.scheme().to_owned(),
        Err(_) => String::new(),
    }
}

/// `Url::host_str` of the parsed `input`.
#[verifier::external_body]
pub(crate) fn url_host_of(input: &str) -> (r: Option<String>)
    requires url_parses(input@),
    ensures
        match (r, url_host(input@)) {
            (Some(h), Some(v)) => h@ == v,
            (None, None) => true,
            _ => false,
        },
{
    match url::Url::parse(input) {
        Ok(parsed) => parsed.host_str().map(|host| host.to_owned()),
        Err(_) => None,
    }
}

/// `Url::username` of the parsed `input`.
#[verifier::external_body]
pub(crate) fn url_username_of(input: &str) -> (r: String)
    requires url_parses(input@),
    ensures r@ == url_username(input@),
{
    match url::Url::parse(input) {
        Ok(parsed) => parsed.username().to_owned(),
        Err(_) => String::new(),
    }
}

/// `Url::password` of the parsed `input`.
#[verifier::external_body]
pub(crate) fn url_password_of(input: &str) -> (r: Option<String>)
    requires url_parses(input@),
    ensures
        match (r, url_password(input@)) {
            (Some(p), Some(v)) => p@ == v,
            (None, None) => true,
            _ => false,
        },
{
    match url::Url::parse(input) {
        Ok(parsed) => parsed.password().map(|password| password.to_owned()),
        Err(_) => None,
    }
}

/// `Url::port` of the parsed `input`.
#[verifier::external_body]
pub(crate) fn url_port_of(input: &str) -> (r: Option<u16>)
    requires url_parses(input@),
    ensures r == url_port(input@),
{
    match url::Url::parse(input) {
        Ok(parsed) => parsed.port(),
        Err(_) => None,
    }
}

/// `Url::path` of the parsed `input`.
#[verifier::external_body]
pub(crate) fn url_path_of(input: &str) -> (r: String)
    requires url_parses(input@),
    ensures r@ == url_path(input@),
{
    match url::Url::parse(input) {
        Ok(parsed) => parsed.path().to_owned(),
        Err(_) => String::new(),
    }
}

/// `Url::query` of the parsed `input`.
#[verifier::external_body]
pub(crate) fn url_query_of(input: &str) -> (r: Option<String>)
    requires url_parses(input@),
    ensures
        match (r, url_query(input@)) {
            (Some(q), Some(v)) => q@ == v,
            (None, None) => true,
            _ => false,
        },
{
    match url::Url::parse(input) {
        Ok(parsed) => parsed.query().map(|query| query.to_owned()),
        Err(_) => None,
    }
}

/// `Url::fragment` of the parsed `input`.
#[verifier::external_body]
pub(crate) fn url_fragment_of(input: &str) -> (r: Option<String>)
    requires url_parses(input@),
    ensures
        match (r, url_fragment(input@)) {
            (Some(f), Some(v)) => f@ == v,
            (None, None) => true,
            _ => false,
        },
{
    match url::Url::parse(input) {
        Ok(parsed) => parsed.fragment().map(|fragment| fragment.to_owned()),
        Err(_) => None,
    }
}

/// `Url::query_pairs` of the parsed `input`, each pair decoded and owned.
#[verifier::external_body]
pub(crate) fn url_query_pairs_of(input: &str) -> (r: Vec<(String, String)>)
    requires url_parses(input@),
    ensures
        r@.len() == url_query_pairs(input@).len(),
        forall|i: int| 0 <= i < r@.len() ==> (#[trigger] r@[i]).0@ == url_query_pairs(input@)[i].0
            && r@[i].1@ == url_query_pairs(input@)[i].1,
{
    match url::Url::parse(input) {
        Ok(parsed) => parsed.query_pairs().map(|(key, value)| (key.into_owned(), value.into_owned())).collect(),
        Err(_) => Vec::new(),
    }
}

/// `s` cut at every `/`: always at least one piece, possibly empty.
pub open spec fn split_slash(s: Seq<char>) -> Seq<Seq<char>>
    decreases s.len(),
{
    if s.len() == 0 {
        seq![Seq::empty()]
    } else {
        let earlier = split_slash(s.drop_last());
        if s.last() == '/' {
            earlier.push(Seq::empty())
        } else {
            earlier.update(earlier.len() - 1, earlier.last().push(s.last()))
        }
    }
}

proof fn lemma_split_slash_nonempty(s: Seq<char>)
    ensures split_slash(s).len() >= 1,
    decreases s.len(),
{
    if s.len() > 0 {
        lemma_split_slash_nonempty(s.drop_last());
    }
}

/// `Url::path_segments`: the pieces of the path after its leading `/`, or none when the
/// path does not start with one.
pub open spec fn segments_of(path: Seq<char>) -> Option<Seq<Seq<char>>> {
    if path.len() > 0 && path[0] == '/' { Some(split_slash(path.drop_first())) } else { None }
}

/// Cuts a path into its segments, as `Url::path_segments` does.
pub fn path_segments(path: &str) -> (r: Option<Vec<String>>)
    ensures
        match (r, segments_of(path@)) {
            (Some(v), Some(s)) => v@.len() == s.len() && forall|i: int| 0 <= i < s.len() ==> (#[trigger] v@[i])@ == s[i],
            (None, None) => true,
            _ => false,
        },
{
    let chars = crate::text::chars_of(path);
    if chars.len() == 0 || chars[0] != '/' {
        return None;
    }
    let ghost rest = path@.drop_first();
    let mut out: Vec<String> = Vec::new();
    out.push(String::new());
    let mut i: usize = 1;
    while i < chars.len()
        invariant
            1 <= i <= chars@.len(),
            chars@ == path@,
            rest == path@.drop_first(),
            out@.len() == split_slash(rest.take(i - 1)).len(),
            forall|k: int| 0 <= k < out@.len() ==> (#[trigger] out@[k])@ == split_slash(rest.take(i - 1))[k],
        decreases chars@.len() - i,
    {
        let c = chars[i];
        proof {
            lemma_split_slash_nonempty(rest.take(i - 1));
            assert(rest.take(i as int).drop_last() =~= rest.take(i - 1));
            assert(rest.take(i as int).last() == c);
        }
        if c == '/' {
            out.push(String::new());
        } else {
            let mut piece = out.pop().unwrap();
            push_char(&mut piece, c);
            out.push(piece);
        }
        i += 1;
    }
    assert(rest.take(chars@.len() - 1) =~= rest);
    Some(out)
}

} // verus!
