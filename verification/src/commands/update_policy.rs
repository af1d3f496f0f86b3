//! Which updates are offered: only newer stable versions, downloaded only from this
//! project's own release assets for exactly that version.

use vstd::prelude::*;
use crate::logs::has_prefix;
use crate::text::{chars_of, str_eq};
use crate::urls::{
    path_segments, segments_of, url_fragment, url_fragment_of, url_host, url_host_of, url_is_valid, url_parses,
    url_password, url_password_of, url_path, url_path_of, url_port, url_port_of, url_query, url_query_of,
    url_scheme, url_scheme_of, url_username, url_username_of,
};

verus! {

/// Whether `semver::Version::parse` accepts `text`.
pub uninterp spec fn semver_parses(text: Seq<char>) -> bool;

/// Whether the parsed version `text` has no pre-release part (`Version::pre.is_empty()`).
pub uninterp spec fn semver_stable(text: Seq<char>) -> bool;

/// Whether the parsed version `a` orders after the parsed version `b` (`Version`'s `>`).
pub uninterp spec fn semver_greater(a: Seq<char>, b: Seq<char>) -> bool;

/// `semver::Version::parse(text).is_ok()`.
#[verifier::external_body]
fn version_parses(text: &str) -> (r: bool)
    ensures r == semver_parses(text@),
{
    semver::Version::parse(text).is_ok()
}

/// `Version::pre.is_empty()` of the parsed `text`.
#[verifier::external_body]
fn version_is_stable(text: &str) -> (r: bool)
    requires semver_parses(text@),
    ensures r == semver_stable(text@),
{
    match semver::Version::parse(text) {
        Ok(version) => version.pre.is_empty(),
        Err(_) => false,
    }
}

/// `a > b` on the parsed versions.
#[verifier::external_body]
fn version_greater(a: &str, b: &str) -> (r: bool)
    requires semver_parses(a@), semver_parses(b@),
    ensures r == semver_greater(a@, b@),
{
    match (semver::Version::parse(a), semver::Version::parse(b)) {
        (Ok(left), Ok(right)) => left > right,
        _ => false,
    }
}

/// An update is offered only for a stable version newer than the installed one.
pub open spec fn newer_stable(current: Seq<char>, offered: Seq<char>) -> bool {
    semver_parses(current) && semver_parses(offered) && semver_stable(offered) && semver_greater(offered, current)
}

/// Whether the offered version is a stable release newer than the installed one; versions
/// that do not parse are never offered.
pub fn is_newer_stable(current: &str, offered: &str) -> (r: bool)
    ensures r == newer_stable(current@, offered@),
{
    if !version_parses(current) || !version_parses(offered) {
        return false;
    }
    version_is_stable(offered) && version_greater(offered, current)
}

/// The path prefix of this project's release assets for `version`.
pub open spec fn release_prefix(version: Seq<char>) -> Seq<char> {
    "/phucrio/gdom/releases/download/v"@ + version + "/"@
}

/// A release artifact is an HTTPS URL on github.com, without credentials, port, query or
/// fragment, whose path is one asset of this project's release for exactly `version`.
pub open spec fn release_artifact(url: Seq<char>, version: Seq<char>) -> bool {
    &&& url_parses(url)
    &&& url_scheme(url) == "https"@
    &&& url_host(url) == Some("github.com"@)
    &&& url_username(url).len() == 0
    &&& url_password(url) is None
    &&& url_port(url) is None
    &&& url_query(url) is None
    &&& url_fragment(url) is None
    &&& has_prefix(url_path(url), release_prefix(version))
    &&& segments_of(url_path(url)) matches Some(s) && s.len() == 6
}

fn starts_with_str(s: &str, prefix: &str) -> (r: bool)
    ensures r == has_prefix(s@, prefix@),
{
    let a = chars_of(s);
    let p = chars_of(prefix);
    if p.len() > a.len() {
        return false;
    }
    let mut i: usize = 0;
    while i < p.len()
        invariant
            i <= p@.len() <= a@.len(),
            a@ == s@,
            p@ == prefix@,
            forall|k: int| 0 <= k < i ==> a@[k] == p@[k],
        decreases p@.len() - i,
    {
        if a[i] != p[i] {
            assert(a@.subrange(0, p@.len() as int)[i as int] != p@[i as int]);
            return false;
        }
        i += 1;
    }
    assert(a@.subrange(0, p@.len() as int) =~= p@);
    true
}

/// Whether `url` is a release asset of this project for `version`; a URL that does not
/// parse is none.
pub fn is_release_artifact(url: &str, version: &str) -> (r: bool)
    ensures r == release_artifact(url@, version@),
{
    if !url_is_valid(url) {
        return false;
    }
    if !str_eq(url_scheme_of(url).as_str(), "https") {
        return false;
    }
    let host_ok = match url_host_of(url) {
        Some(host) => str_eq(host.as_str(), "github.com"),
        None => false,
    };
    if !host_ok {
        return false;
    }
    if !url_username_of(url).as_str().is_empty() {
        return false;
    }
    if url_password_of(url).is_some() || url_port_of(url).is_some() || url_query_of(url).is_some()
        || url_fragment_of(url).is_some() {
        return false;
    }
    let path = url_path_of(url);
    let prefix = String::from_str("/phucrio/gdom/releases/download/v").concat(version).concat("/");
    if !starts_with_str(path.as_str(), prefix.as_str()) {
        return false;
    }
    match path_segments(path.as_str()) {
        Some(segments) => segments.len() == 6,
        None => false,
    }
}

} // verus!
