//! Whether a newer release of the command-line tool exists.
use vstd::prelude::*;
use vstd::string::*;
use crate::text::{trim_start_char, trim_start_matches_char};

verus! {

/// The version of this package.
pub const CARGO_PKG_VERSION: &'static str = "0.8.8";

#[verifier::external_type_specification]
#[verifier::external_body]
pub struct ExSemverVersion(semver::Version);

/// Whether `semver::Version::parse` accepts `text`.
pub uninterp spec fn semver_accepts(text: Seq<char>) -> bool;

/// Whether the version parsed from `a` orders after the one parsed from `b` in
/// `semver::Version`'s order (major, minor, patch, pre-release, build metadata).
pub uninterp spec fn semver_newer(a: Seq<char>, b: Seq<char>) -> bool;

/// A version together with the text it was parsed from.
pub(crate) struct ParsedVersion {
    text: String,
    version: semver::Version,
}

impl View for ParsedVersion {
    type V = Seq<char>;

    /// The text the version was parsed from.
    closed spec fn view(&self) -> Seq<char> {
        self.text@
    }
}

/// `semver::Version::parse`: a version when `text` is one, keeping the text alongside.
#[verifier::external_body]
pub(crate) fn parse_version(text: &str) -> (r: Option<ParsedVersion>)
    ensures
        r is Some <==> semver_accepts(text@),
        r matches Some(v) ==> v@ == text@,
{
    match semver::Version::parse(text) {
        Ok(version) => Some(ParsedVersion { text: text.to_string(), version }),
        Err(_) => None,
    }
}

/// `>` on `semver::Version`: whether `a` orders after `b`.
#[verifier::external_body]
pub(crate) fn is_newer(a: &ParsedVersion, b: &ParsedVersion) -> (r: bool)
    ensures
        r == semver_newer(a@, b@),
{
    a.version > b.version
}

/// Why no answer could be given.
#[derive(Clone, Copy, PartialEq, Eq, Debug)]
pub enum UpdateCheckError {
    /// The running version is not a version.
    InvalidCurrentVersion,
    /// The release tag, without its leading `v`s, is not a version.
    InvalidLatestVersion,
}

/// The version a release tag names: the tag without its leading `v`s.
pub open spec fn tag_version(tag: Seq<char>) -> Seq<char> {
    trim_start_char(tag, 'v')
}

/// The newer version that release tag `tag_name` offers over the running version `current`,
/// if it offers one, once the latest release has been fetched.
pub fn update_from_release(current: &str, tag_name: &str) -> (r: Result<Option<String>, UpdateCheckError>)
    ensures
        !semver_accepts(current@) ==> r == Err::<Option<String>, UpdateCheckError>(UpdateCheckError::InvalidCurrentVersion),
        semver_accepts(current@) && !semver_accepts(tag_version(tag_name@))
            ==> r == Err::<Option<String>, UpdateCheckError>(UpdateCheckError::InvalidLatestVersion),
        semver_accepts(current@) && semver_accepts(tag_version(tag_name@)) ==> (r matches Ok(o) && (o is Some
            <==> semver_newer(tag_version(tag_name@), current@)) && (o matches Some(s) ==> s@ == tag_version(tag_name@))),
{
    let current_version = match parse_version(current) {
        Some(v) => v,
        None => return Err(UpdateCheckError::InvalidCurrentVersion),
    };
    let latest_tag = trim_start_matches_char(tag_name, 'v');
    let latest = match parse_version(latest_tag.as_str()) {
        Some(v) => v,
        None => return Err(UpdateCheckError::InvalidLatestVersion),
    };
    if is_newer(&latest, &current_version) {
        Ok(Some(latest_tag))
    } else {
        Ok(None)
    }
}

/// The update that the latest release offers over this package, if any.
pub fn update_for_this_package(tag_name: &str) -> (r: Result<Option<String>, UpdateCheckError>)
    ensures
        !semver_accepts(CARGO_PKG_VERSION@) ==> r == Err::<Option<String>, UpdateCheckError>(UpdateCheckError::InvalidCurrentVersion),
        semver_accepts(CARGO_PKG_VERSION@) && !semver_accepts(tag_version(tag_name@))
            ==> r == Err::<Option<String>, UpdateCheckError>(UpdateCheckError::InvalidLatestVersion),
        semver_accepts(CARGO_PKG_VERSION@) && semver_accepts(tag_version(tag_name@)) ==> (r matches Ok(o) && (o is Some
            <==> semver_newer(tag_version(tag_name@), CARGO_PKG_VERSION@)) && (o matches Some(s) ==> s@ == tag_version(tag_name@))),
{
    update_from_release(CARGO_PKG_VERSION, tag_name)
}

} // verus!
