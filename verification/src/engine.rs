//! The whole run of a password request: from the flags of the command line
//! to the lines that are printed.

use crate::charset::CharSet;
use crate::password::{build_character_set, ConstraintSpec, PasswordConfig, ValidationError};
use crate::classes::is_ambiguous;
use crate::sampler::{drawn_from, generate_passwords, sampled};
use crate::text::{decimal, to_decimal};
use vstd::prelude::*;
use vstd::string::StringExecFns;

verus! {

/// Length of a password where the caller names none.
pub const DEFAULT_LENGTH: usize = 12;

/// Number of passwords where the caller names none.
pub const DEFAULT_COUNT: usize = 1;

/// The flags of a password request, as the command line gave them.
#[derive(Debug)]
pub struct PasswordFlags {
    /// `--length`, if given.
    pub length: Option<isize>,
    /// `--count`, if given.
    pub count: Option<isize>,
    /// `--no-uppercase`.
    pub no_uppercase: bool,
    /// `--no-lowercase`.
    pub no_lowercase: bool,
    /// `--no-numbers`.
    pub no_numbers: bool,
    /// `--no-symbols`.
    pub no_symbols: bool,
    /// `--symbols`, if given.
    pub symbols: Option<String>,
    /// The text of `--exclude`, empty if not given.
    pub excluded: String,
    /// The text of the flag that adds characters, empty if not given.
    pub included: String,
    /// `--no-ambiguous`.
    pub no_ambiguous: bool,
}

impl PasswordFlags {
    /// The request that the flags describe: absent numbers take their
    /// defaults, the `no-` flags switch categories off, and the two strings
    /// give their characters one by one.
    pub open spec fn constraint(self) -> ConstraintSpec {
        ConstraintSpec {
            length: match self.length {
                Some(n) => (n as usize) as nat,
                None => DEFAULT_LENGTH as nat,
            },
            count: match self.count {
                Some(n) => (n as usize) as nat,
                None => DEFAULT_COUNT as nat,
            },
            include_uppercase: !self.no_uppercase,
            include_lowercase: !self.no_lowercase,
            include_numbers: !self.no_numbers,
            include_symbols: !self.no_symbols,
            custom_symbols: match self.symbols {
                Some(symbols) => Some(symbols@),
                None => None,
            },
            exclude_chars: self.excluded@.to_set(),
            include_chars: self.included@.to_set(),
            no_ambiguous: self.no_ambiguous,
        }
    }

    /// Turns the flags into a configuration.
    pub fn into_config(self) -> (config: PasswordConfig)
        ensures
            config@ == self.constraint(),
    {
        let length = match self.length {
            Some(n) => n as usize,
            None => DEFAULT_LENGTH,
        };
        let count = match self.count {
            Some(n) => n as usize,
            None => DEFAULT_COUNT,
        };
        PasswordConfig {
            length,
            count,
            include_uppercase: !self.no_uppercase,
            include_lowercase: !self.no_lowercase,
            include_numbers: !self.no_numbers,
            include_symbols: !self.no_symbols,
            custom_symbols: self.symbols,
            exclude_chars: CharSet::from_text(self.excluded.as_str()),
            include_chars: CharSet::from_text(self.included.as_str()),
            no_ambiguous: self.no_ambiguous,
        }
    }
}

/// Why a request yields no passwords.
#[derive(Clone, Copy, Debug, PartialEq, Eq, Structural)]
pub enum PasswordError {
    /// Passwords of no characters were asked for.
    ZeroLength,
    /// No passwords were asked for.
    ZeroCount,
    /// The configuration has no alphabet.
    Invalid(ValidationError),
}

impl PasswordError {
    /// The text shown for this error.
    pub open spec fn text(self) -> Seq<char> {
        match self {
            PasswordError::ZeroLength => "Password length must be greater than 0"@,
            PasswordError::ZeroCount => "Password count must be greater than 0"@,
            PasswordError::Invalid(e) => e.text(),
        }
    }

    /// The text shown for this error.
    pub fn message(&self) -> (s: String)
        ensures
            s@ == self.text(),
    {
        match self {
            PasswordError::ZeroLength => "Password length must be greater than 0".to_owned(),
            PasswordError::ZeroCount => "Password count must be greater than 0".to_owned(),
            PasswordError::Invalid(e) => e.message(),
        }
    }
}

/// What a run yields before anything is drawn: the alphabet, or the reason
/// why there are no passwords. A length or a count of zero is refused before
/// the alphabet is looked at.
pub open spec fn admitted(spec: ConstraintSpec) -> Result<Set<char>, PasswordError> {
    if spec.length == 0 {
        Err(PasswordError::ZeroLength)
    } else if spec.count == 0 {
        Err(PasswordError::ZeroCount)
    } else {
        match spec.outcome() {
            Ok(alphabet) => Ok(alphabet),
            Err(e) => Err(PasswordError::Invalid(e)),
        }
    }
}

/// Carries out a request: checks length and count, builds the alphabet and
/// draws `count` passwords of `length` characters from it.
pub fn generate(config: &PasswordConfig) -> (r: Result<Vec<String>, PasswordError>)
    ensures
        match r {
            Ok(passwords) => {
                &&& admitted(config@) == Ok::<Set<char>, PasswordError>(config@.alphabet())
                &&& sampled(
                    passwords.deep_view(),
                    config@.alphabet(),
                    config@.length,
                    config@.count,
                )
            },
            Err(e) => admitted(config@) == Err::<Set<char>, PasswordError>(e),
        },
{
    if config.length == 0 {
        return Err(PasswordError::ZeroLength);
    }
    if config.count == 0 {
        return Err(PasswordError::ZeroCount);
    }
    match build_character_set(config) {
        Ok(charset) => {
            assert(charset@.len() > 0) by {
                if charset@.len() == 0 {
                    assert(charset@.to_set() =~= Set::<char>::empty());
                }
            }
            Ok(generate_passwords(charset.as_slice(), config.length, config.count))
        },
        Err(e) => Err(PasswordError::Invalid(e)),
    }
}

/// A password drawn from the alphabet that was built for a configuration
/// holds none of the characters that the configuration excludes, also where
/// such a character was added by hand as well.
pub proof fn lemma_excluded_never_drawn(
    config: PasswordConfig,
    alphabet: Vec<char>,
    password: String,
)
    requires
        config@.yields(Ok(alphabet)),
        drawn_from(password@, alphabet@.to_set()),
    ensures
        forall|k: int|
            0 <= k < password@.len() ==> !config@.exclude_chars.contains(#[trigger] password@[k]),
{
}

/// Where a configuration wants no ambiguous characters, a password drawn
/// from the alphabet that was built for it holds none of them, whatever the
/// categories.
pub proof fn lemma_ambiguous_never_drawn(
    config: PasswordConfig,
    alphabet: Vec<char>,
    password: String,
)
    requires
        config@.no_ambiguous,
        config@.yields(Ok(alphabet)),
        drawn_from(password@, alphabet@.to_set()),
    ensures
        forall|k: int| 0 <= k < password@.len() ==> !is_ambiguous(#[trigger] password@[k]),
{
}

/// The passwords of a run hold none of the characters that the
/// configuration excludes and, where it wants no ambiguous characters, none
/// of those either.
pub proof fn lemma_run_keeps_rules(config: PasswordConfig, passwords: Vec<String>)
    requires
        sampled(passwords.deep_view(), config@.alphabet(), config@.length, config@.count),
    ensures
        forall|p: int, k: int|
            0 <= p < passwords@.len() && 0 <= k < passwords@[p]@.len() ==> {
                let c = #[trigger] passwords@[p]@[k];
                &&& config@.alphabet().contains(c)
                &&& !config@.exclude_chars.contains(c)
                &&& config@.no_ambiguous ==> !is_ambiguous(c)
            },
{
    assert forall|p: int, k: int|
        0 <= p < passwords@.len() && 0 <= k < passwords@[p]@.len() implies {
        let c = #[trigger] passwords@[p]@[k];
        &&& config@.alphabet().contains(c)
        &&& !config@.exclude_chars.contains(c)
        &&& config@.no_ambiguous ==> !is_ambiguous(c)
    } by {
        assert(passwords.deep_view()[p] == passwords@[p]@);
        assert(drawn_from(passwords.deep_view()[p], config@.alphabet()));
    }
}

/// The line printed for the password at position `index` of `count`: the
/// password alone where there is only one, else the password behind its
/// number, counted from one.
pub open spec fn output_line(index: nat, count: nat, password: Seq<char>) -> Seq<char> {
    if count == 1 {
        password
    } else {
        "Password "@ + decimal(index + 1) + ": "@ + password
    }
}

/// Lays out the lines to print for `passwords`, one line each, in order.
pub fn output_lines(passwords: &Vec<String>) -> (lines: Vec<String>)
    ensures
        lines@.len() == passwords@.len(),
        forall|i: int|
            0 <= i < lines@.len() ==> (#[trigger] lines@[i])@ == output_line(
                i as nat,
                passwords@.len(),
                passwords@[i]@,
            ),
{
    let count = passwords.len();
    let mut lines: Vec<String> = Vec::new();
    let mut i: usize = 0;
    while i < count
        invariant
            count == passwords@.len(),
            i <= count,
            lines@.len() == i,
            forall|j: int|
                0 <= j < i ==> (#[trigger] lines@[j])@ == output_line(
                    j as nat,
                    count as nat,
                    passwords@[j]@,
                ),
        decreases count - i,
    {
        let line = if count == 1 {
            passwords[i].clone()
        } else {
            let mut line = "Password ".to_owned();
            let number = to_decimal((i + 1) as u64);
            line.append(number.as_str());
            line.append(": ");
            line.append(passwords[i].as_str());
            line
        };
        lines.push(line);
        i += 1;
    }
    lines
}

} // verus!
