//! Comparing the installed version with the latest release.
//!
//! Version numbers are read and ordered by the `semver` crate; what is made
//! of its answers is decided here.

use crate::text::{chars_of, text_of};
use crate::update::UpdateError;
use std::cmp::Ordering;
use vstd::prelude::*;
use vstd::string::StringExecFns;

verus! {

/// What `semver::Version::parse` objects to in `text`, in the words of its
/// error, or `None` where `text` is a version number.
pub uninterp spec fn semver_objection(text: Seq<char>) -> Option<Seq<char>>;

/// How the derived order of `semver::Version` places the version written as
/// `left` against the one written as `right`.
pub uninterp spec fn semver_order(left: Seq<char>, right: Seq<char>) -> Ordering;

/// Hands `text` to `semver::Version::parse` and returns the words of the
/// error where the parse fails. Whether it fails, and with which words, is a
/// function of the text alone.
#[verifier::external_body]
fn version_objection(text: &str) -> (objection: Option<String>)
    ensures
        match objection {
            Some(words) => semver_objection(text@) == Some(words@),
            None => semver_objection(text@) is None,
        },
{
    match semver::Version::parse(text) {
        Ok(_) => None,
        Err(e) => Some(e.to_string()),
    }
}

/// Parses both texts with `semver::Version::parse` and compares the two
/// versions with the order that `semver::Version` derives. Both texts have
/// to be version numbers.
#[verifier::external_body]
fn version_order(left: &str, right: &str) -> (order: Ordering)
    requires
        semver_objection(left@) is None,
        semver_objection(right@) is None,
    ensures
        order == semver_order(left@, right@),
{
    semver::Version::parse(left).unwrap().cmp(&semver::Version::parse(right).unwrap())
}

/// Orders the installed version `current` against the released version
/// `latest`. A text that is no version number is reported, the installed
/// one first, with the words of the parser behind a note on which it was.
pub fn compare_versions(current: &str, latest: &str) -> (r: Result<Ordering, UpdateError>)
    ensures
        match r {
            Ok(order) => {
                &&& semver_objection(current@) is None
                &&& semver_objection(latest@) is None
                &&& order == semver_order(current@, latest@)
            },
            Err(UpdateError::ParseError(detail)) => match semver_objection(current@) {
                Some(words) => detail@ == "Invalid current version: "@ + words,
                None => match semver_objection(latest@) {
                    Some(words) => detail@ == "Invalid latest version: "@ + words,
                    None => false,
                },
            },
            Err(_) => false,
        },
{
    match version_objection(current) {
        Some(words) => {
            return Err(
                UpdateError::ParseError("Invalid current version: ".to_owned().concat(words.as_str())),
            );
        },
        None => {},
    }
    match version_objection(latest) {
        Some(words) => {
            return Err(
                UpdateError::ParseError("Invalid latest version: ".to_owned().concat(words.as_str())),
            );
        },
        None => {},
    }
    Ok(version_order(current, latest))
}

/// Number of `v` characters at the start of `tag`.
pub open spec fn leading_vs(tag: Seq<char>) -> nat
    decreases tag.len(),
{
    if tag.len() > 0 && tag.first() == 'v' {
        1 + leading_vs(tag.drop_first())
    } else {
        0
    }
}

/// The version number in a release tag: the tag without the `v` characters
/// at its start.
pub open spec fn tag_version(tag: Seq<char>) -> Seq<char> {
    tag.skip(leading_vs(tag) as int)
}

/// A run of `v` at the start of `tag` that ends before another character is
/// all the `v` characters at its start.
proof fn lemma_leading_vs_is(tag: Seq<char>, n: nat)
    requires
        n <= tag.len(),
        forall|i: int| 0 <= i < n ==> tag[i] == 'v',
        n < tag.len() ==> tag[n as int] != 'v',
    ensures
        leading_vs(tag) == n,
    decreases n,
{
    if n > 0 {
        let rest = tag.drop_first();
        assert forall|i: int| 0 <= i < n - 1 implies rest[i] == 'v' by {
            assert(rest[i] == tag[i + 1]);
        }
        lemma_leading_vs_is(rest, (n - 1) as nat);
    }
}

/// Takes the version number out of a release tag.
pub fn version_of_tag(tag: &str) -> (version: String)
    ensures
        version@ == tag_version(tag@),
{
    let chars = chars_of(tag);
    let mut start: usize = 0;
    while start < chars.len() && chars[start] == 'v'
        invariant
            start <= chars@.len(),
            forall|i: int| 0 <= i < start ==> chars@[i] == 'v',
        decreases chars@.len() - start,
    {
        start += 1;
    }
    proof {
        lemma_leading_vs_is(chars@, start as nat);
    }
    text_of(&chars, start, chars.len())
}

/// How the installed version stands against the latest release.
#[derive(Clone, Copy, Debug, PartialEq, Eq, Structural)]
pub enum UpdateStatus {
    /// The release is newer than what is installed.
    Available,
    /// What is installed is the release.
    UpToDate,
    /// What is installed is newer than the release.
    Ahead,
}

/// The status that an order of installed against released stands for.
pub open spec fn status_for(order: Ordering) -> UpdateStatus {
    match order {
        Ordering::Less => UpdateStatus::Available,
        Ordering::Equal => UpdateStatus::UpToDate,
        Ordering::Greater => UpdateStatus::Ahead,
    }
}

/// Finds out how the installed version `current` stands against the release
/// tagged `tag`.
pub fn update_status(current: &str, tag: &str) -> (r: Result<UpdateStatus, UpdateError>)
    ensures
        match r {
            Ok(status) => {
                &&& semver_objection(current@) is None
                &&& semver_objection(tag_version(tag@)) is None
                &&& status == status_for(semver_order(current@, tag_version(tag@)))
            },
            Err(UpdateError::ParseError(detail)) => match semver_objection(current@) {
                Some(words) => detail@ == "Invalid current version: "@ + words,
                None => match semver_objection(tag_version(tag@)) {
                    Some(words) => detail@ == "Invalid latest version: "@ + words,
                    None => false,
                },
            },
            Err(_) => false,
        },
{
    let latest = version_of_tag(tag);
    match compare_versions(current, latest.as_str()) {
        Ok(Ordering::Less) => Ok(UpdateStatus::Available),
        Ok(Ordering::Equal) => Ok(UpdateStatus::UpToDate),
        Ok(Ordering::Greater) => Ok(UpdateStatus::Ahead),
        Err(e) => Err(e),
    }
}

/// Whether an update goes ahead for a status: only where a newer release is
/// available; otherwise no update is needed.
pub fn require_update(status: UpdateStatus) -> (r: Result<(), UpdateError>)
    ensures
        match r {
            Ok(_) => status == UpdateStatus::Available,
            Err(UpdateError::NoUpdateNeeded) => status != UpdateStatus::Available,
            Err(_) => false,
        },
{
    match status {
        UpdateStatus::Available => Ok(()),
        _ => Err(UpdateError::NoUpdateNeeded),
    }
}

} // verus!
