//! Rules of the self-update command: which release asset fits a platform,
//! and how its failures read.

use crate::text::{
    lowercase, lowercased, normalize, normalized, parse_i64, parsed_i64, signed_decimal,
    to_signed_decimal, trim, trimmed,
};
use vstd::prelude::*;
use vstd::string::StringExecFns;

verus! {

/// Why an update did not take place.
#[derive(Debug)]
pub enum UpdateError {
    /// The release server could not be reached or refused the request.
    NetworkError(String),
    /// The release information or a version number could not be read.
    ParseError(String),
    /// The new version could not be installed.
    UpdateError(String),
    /// The installed version is not older than the latest release.
    NoUpdateNeeded,
}

impl UpdateError {
    /// The text shown for this error.
    pub open spec fn text(self) -> Seq<char> {
        match self {
            UpdateError::NetworkError(detail) => "Network error: "@ + detail@,
            UpdateError::ParseError(detail) => "Parse error: "@ + detail@,
            UpdateError::UpdateError(detail) => "Update error: "@ + detail@,
            UpdateError::NoUpdateNeeded => "No update needed"@,
        }
    }

    /// The text shown for this error.
    pub fn message(&self) -> (s: String)
        ensures
            s@ == self.text(),
    {
        match self {
            UpdateError::NetworkError(detail) => "Network error: ".to_owned().concat(
                detail.as_str(),
            ),
            UpdateError::ParseError(detail) => "Parse error: ".to_owned().concat(detail.as_str()),
            UpdateError::UpdateError(detail) => "Update error: ".to_owned().concat(
                detail.as_str(),
            ),
            UpdateError::NoUpdateNeeded => "No update needed".to_owned(),
        }
    }
}

/// The target triple of the release asset for an operating system and a
/// processor architecture, named as `std::env::consts` names them. A
/// platform for which no asset is published gets the asset for Linux on
/// x86-64.
pub open spec fn target_triple(os: Seq<char>, arch: Seq<char>) -> Seq<char> {
    if os == "macos"@ && arch == "x86_64"@ {
        "x86_64-apple-darwin"@
    } else if os == "macos"@ && arch == "aarch64"@ {
        "aarch64-apple-darwin"@
    } else if os == "linux"@ && arch == "x86_64"@ {
        "x86_64-unknown-linux-gnu"@
    } else if os == "linux"@ && arch == "aarch64"@ {
        "aarch64-unknown-linux-gnu"@
    } else if os == "windows"@ && arch == "x86_64"@ {
        "x86_64-pc-windows-msvc"@
    } else if os == "windows"@ && arch == "aarch64"@ {
        "aarch64-pc-windows-msvc"@
    } else {
        "x86_64-unknown-linux-gnu"@
    }
}

/// Names the release asset for the platform `os` on `arch`.
pub fn get_target_triple(os: &str, arch: &str) -> (triple: String)
    ensures
        triple@ == target_triple(os@, arch@),
{
    let triple = if *os == *"macos" && *arch == *"x86_64" {
        "x86_64-apple-darwin"
    } else if *os == *"macos" && *arch == *"aarch64" {
        "aarch64-apple-darwin"
    } else if *os == *"linux" && *arch == *"x86_64" {
        "x86_64-unknown-linux-gnu"
    } else if *os == *"linux" && *arch == *"aarch64" {
        "aarch64-unknown-linux-gnu"
    } else if *os == *"windows" && *arch == *"x86_64" {
        "x86_64-pc-windows-msvc"
    } else if *os == *"windows" && *arch == *"aarch64" {
        "aarch64-pc-windows-msvc"
    } else {
        "x86_64-unknown-linux-gnu"
    };
    triple.to_owned()
}

/// Whether `answer` agrees to an update: `y` or `yes`, in either case and
/// with any white space around it.
pub fn confirms_update(answer: &str) -> (yes: bool)
    ensures
        yes == (normalized(answer@) == "y"@ || normalized(answer@) == "yes"@),
{
    let plain = normalize(answer);
    *plain.as_str() == *"y" || *plain.as_str() == *"yes"
}

/// Whether the check at startup is switched on by `setting`, the value of
/// the switch in the environment if it is set: on unless the value, in
/// lowercase, differs from `true`.
pub open spec fn startup_check_enabled(setting: Option<Seq<char>>) -> bool {
    match setting {
        Some(value) => lowercased(value) == "true"@,
        None => lowercased("true"@) == "true"@,
    }
}

/// Decides whether the check at startup is switched on.
pub fn auto_update_enabled(setting: Option<&str>) -> (on: bool)
    ensures
        on == startup_check_enabled(
            match setting {
                Some(value) => Some(value@),
                None => None,
            },
        ),
{
    let value = match setting {
        Some(value) => lowercase(value),
        None => lowercase("true"),
    };
    *value.as_str() == *"true"
}

/// What is known of the last check for updates.
#[derive(Debug)]
pub enum LastCheck {
    /// No check was recorded yet.
    Never,
    /// A record exists and could not be read.
    Unreadable,
    /// The record, as it was read.
    Recorded(String),
}

/// Seconds between two checks at startup.
pub const CHECK_INTERVAL: i64 = 86400;

/// Whether a check is due at the time `now`, in seconds: always where none
/// was recorded; where the record holds a time, when at least a day has
/// passed since; never where the record cannot be read or holds no time.
pub open spec fn check_due(last: LastCheck, now: int) -> bool {
    match last {
        LastCheck::Never => true,
        LastCheck::Unreadable => false,
        LastCheck::Recorded(record) => match parsed_i64(trimmed(record@)) {
            Some(then) => now - then >= CHECK_INTERVAL,
            None => false,
        },
    }
}

/// Decides at the time `now` whether a check is due. Where it is, the
/// result is the new record to keep: `now` in decimal.
pub fn auto_check_at(last: &LastCheck, now: i64) -> (record: Option<String>)
    ensures
        match record {
            Some(stamp) => check_due(*last, now as int) && stamp@ == signed_decimal(now as int),
            None => !check_due(*last, now as int),
        },
{
    let due = match last {
        LastCheck::Never => true,
        LastCheck::Unreadable => false,
        LastCheck::Recorded(record) => {
            let inner = trim(record.as_str());
            match parse_i64(inner.as_str()) {
                Some(then) => {
                    let passed: i128 = now as i128 - then as i128;
                    passed >= CHECK_INTERVAL as i128
                },
                None => false,
            }
        },
    };
    if due {
        Some(to_signed_decimal(now))
    } else {
        None
    }
}

/// Reads the clock with `chrono::Utc::now` and hands on its `timestamp`,
/// the seconds since the start of 1970. The answer depends on the clock, so
/// nothing is claimed of it. `chrono` panics where the clock stands before
/// 1970.
#[verifier::external_body]
fn unix_time() -> (seconds: i64) {
    chrono::Utc::now().timestamp()
}

/// Decides whether a check is due now. Where it is, the result is the new
/// record to keep.
pub fn should_perform_auto_check(last: &LastCheck) -> (record: Option<String>)
    ensures
        record is Some ==> exists|now: int| check_due(*last, now),
        *last is Never ==> record is Some,
        *last is Unreadable ==> record is None,
{
    auto_check_at(last, unix_time())
}

} // verus!
