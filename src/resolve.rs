use vstd::prelude::*;
use crate::error::AddError;
use crate::paths::{join_path, joined_path, last_segment, last_segment_of};

verus! {

/// The serialization of the URL that `input` names relative to `base`, when
/// both parse.
pub uninterp spec fn url_joined(base: Seq<char>, input: Seq<char>) -> Option<Seq<char>>;

/// The last path segment of the URL `url` serializes, when it parses and can be
/// a base.
pub uninterp spec fn url_final_segment(url: Seq<char>) -> Option<Seq<char>>;

/// Relies on url::Url::join (with the base read by url::Url::parse): the
/// URL that `input` names relative to `base`, serialized; `None` when the URL
/// crate rejects either string.
#[verifier::external_body]
fn join_url(base: &str, input: &str) -> (r: Option<String>)
    ensures
        text_of(&r) == url_joined(base@, input@),
{
    match url::Url::parse(base) {
        Ok(b) => match b.join(input) {
            Ok(u) => Some(String::from(u.as_str())),
            Err(_) => None,
        },
        Err(_) => None,
    }
}

/// Relies on url::Url::path_segments (with the URL read by url::Url::parse):
/// the last of its '/'-separated path segments; `None` when the URL does not
/// parse or cannot be a base.
#[verifier::external_body]
fn cloned_name(url: &str) -> (r: Option<String>)
    ensures
        text_of(&r) == url_final_segment(url@),
{
    match url::Url::parse(url) {
        Ok(u) => match u.path_segments() {
            Some(segments) => segments.last().map(String::from),
            None => None,
        },
        Err(_) => None,
    }
}

/// The text an optional string holds.
pub open spec fn text_of(o: &Option<String>) -> Option<Seq<char>> {
    match o {
        Some(s) => Some(s@),
        None => None,
    }
}

/// One requested dependency, resolved: its canonical name, where it is
/// fetched from, and where it is checked out.
#[derive(Clone, Debug)]
pub struct DependencySpec {
    pub name: String,
    pub resolved_url: String,
    pub destination_path: String,
}

/// A token is accepted when it resolves to a URL whose final path segment is
/// the token's own last segment, and that segment is not empty.
pub open spec fn accepted(
    token: Seq<char>,
    resolved: Option<Seq<char>>,
    segment: Option<Seq<char>>,
) -> bool {
    &&& resolved is Some
    &&& segment == Some(last_segment(token))
    &&& last_segment(token).len() > 0
}

/// The final path segment of what `token` resolves to against `base`.
pub open spec fn resolved_segment(base: Seq<char>, token: Seq<char>) -> Option<Seq<char>> {
    match url_joined(base, token) {
        Some(u) => url_final_segment(u),
        None => None,
    }
}

/// Whether `token` resolves against `base` to a usable dependency.
pub open spec fn resolvable(base: Seq<char>, token: Seq<char>) -> bool {
    accepted(token, url_joined(base, token), resolved_segment(base, token))
}

/// The dependency `token` names, given the URL it resolved to and that URL's
/// final path segment.
pub fn dependency_from_url(
    token: &str,
    resolved: Option<String>,
    segment: Option<String>,
    lib_dir: &str,
) -> (r: Result<DependencySpec, AddError>)
    ensures
        r is Ok <==> accepted(token@, text_of(&resolved), text_of(&segment)),
        r is Err ==> r == Err::<DependencySpec, AddError>(AddError::InvalidName),
        r matches Ok(d) ==> {
            &&& d.name@ == last_segment(token@)
            &&& Some(d.resolved_url@) == text_of(&resolved)
            &&& d.destination_path@ == joined_path(lib_dir@, last_segment(token@))
        },
{
    let own = last_segment_of(token);
    match (resolved, segment) {
        (Some(url), Some(seg)) => {
            if seg == own && own.unicode_len() > 0 {
                let destination_path = join_path(lib_dir, own.as_str());
                Ok(DependencySpec { name: own, resolved_url: url, destination_path })
            } else {
                Err(AddError::InvalidName)
            }
        },
        _ => Err(AddError::InvalidName),
    }
}

/// Resolves the dependency token `token` against the hosting location `base`;
/// its checkout goes under `lib_dir`. A token that does not resolve, or whose
/// URL would not end in the token's own last segment, is an invalid name.
pub fn resolve_name(base: &str, token: &str, lib_dir: &str) -> (r: Result<DependencySpec, AddError>)
    ensures
        r is Ok <==> resolvable(base@, token@),
        r is Err ==> r == Err::<DependencySpec, AddError>(AddError::InvalidName),
        r matches Ok(d) ==> {
            &&& d.name@ == last_segment(token@)
            &&& url_joined(base@, token@) == Some(d.resolved_url@)
            &&& resolved_segment(base@, token@) == Some(d.name@)
            &&& d.destination_path@ == joined_path(lib_dir@, d.name@)
        },
{
    let resolved = join_url(base, token);
    let segment = match &resolved {
        Some(u) => cloned_name(u.as_str()),
        None => None,
    };
    dependency_from_url(token, resolved, segment, lib_dir)
}

} // verus!
