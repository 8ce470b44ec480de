//! From a description of the wanted passwords to the alphabet they are drawn from.
//!
//! A [`PasswordConfig`] says which categories of characters are wanted, which
//! characters are added or removed by hand, and how long and how many the
//! passwords are. [`build_character_set`] turns it into the alphabet, or says
//! why there is none.

use crate::charset::CharSet;
use crate::classes::{
    default_symbols, is_ambiguous, is_digit, is_lower, is_upper, lemma_ambiguous_pool,
    lemma_default_symbols, lemma_digit_pool, lemma_lowercase_pool, lemma_uppercase_pool,
    CharClass,
};
use vstd::prelude::*;

verus! {

/// What the caller asks for.
#[derive(Debug)]
pub struct PasswordConfig {
    /// Number of characters in each password.
    pub length: usize,
    /// Number of passwords.
    pub count: usize,
    /// Whether the Latin capitals are wanted.
    pub include_uppercase: bool,
    /// Whether the Latin lowercase letters are wanted.
    pub include_lowercase: bool,
    /// Whether the Arabic numerals are wanted.
    pub include_numbers: bool,
    /// Whether symbols are wanted.
    pub include_symbols: bool,
    /// Symbols that take the place of the default ones.
    pub custom_symbols: Option<String>,
    /// Characters that never appear in a password.
    pub exclude_chars: CharSet,
    /// Characters that are added whatever the categories say.
    pub include_chars: CharSet,
    /// Whether the ambiguous characters are left out.
    pub no_ambiguous: bool,
}

/// Why a configuration has no alphabet.
#[derive(Clone, Copy, Debug, PartialEq, Eq, Structural)]
pub enum ValidationError {
    /// No character is left after the additions and removals.
    EmptyAlphabet,
    /// Passwords of more than one character are wanted, nothing was added by
    /// hand, and of no enabled category a character of its class is left.
    NoUsableCategory,
}

impl ValidationError {
    /// The text shown for this error.
    pub open spec fn text(self) -> Seq<char> {
        match self {
            ValidationError::EmptyAlphabet =>
                "No characters available for password generation. Check your exclusion rules."@,
            ValidationError::NoUsableCategory =>
                "No valid characters available for password generation"@,
        }
    }

    /// The text shown for this error.
    pub fn message(&self) -> (s: String)
        ensures
            s@ == self.text(),
    {
        match self {
            ValidationError::EmptyAlphabet =>
                "No characters available for password generation. Check your exclusion rules.".to_owned(),
            ValidationError::NoUsableCategory =>
                "No valid characters available for password generation".to_owned(),
        }
    }
}

/// The mathematical content of a [`PasswordConfig`].
pub struct ConstraintSpec {
    pub length: nat,
    pub count: nat,
    pub include_uppercase: bool,
    pub include_lowercase: bool,
    pub include_numbers: bool,
    pub include_symbols: bool,
    pub custom_symbols: Option<Seq<char>>,
    pub exclude_chars: Set<char>,
    pub include_chars: Set<char>,
    pub no_ambiguous: bool,
}

impl View for PasswordConfig {
    type V = ConstraintSpec;

    open spec fn view(&self) -> ConstraintSpec {
        ConstraintSpec {
            length: self.length as nat,
            count: self.count as nat,
            include_uppercase: self.include_uppercase,
            include_lowercase: self.include_lowercase,
            include_numbers: self.include_numbers,
            include_symbols: self.include_symbols,
            custom_symbols: match self.custom_symbols {
                Some(symbols) => Some(symbols@),
                None => None,
            },
            exclude_chars: self.exclude_chars@,
            include_chars: self.include_chars@,
            no_ambiguous: self.no_ambiguous,
        }
    }
}

impl ConstraintSpec {
    /// The symbols in force: the caller's own where given, else the default ones.
    pub open spec fn symbol_pool(self) -> Set<char> {
        match self.custom_symbols {
            Some(symbols) => symbols.to_set(),
            None => default_symbols().to_set(),
        }
    }

    /// Whether the category `class` is switched on.
    pub open spec fn enabled(self, class: CharClass) -> bool {
        match class {
            CharClass::Uppercase => self.include_uppercase,
            CharClass::Lowercase => self.include_lowercase,
            CharClass::Digit => self.include_numbers,
            CharClass::Symbol => self.include_symbols,
        }
    }

    /// Whether an enabled category offers `c`.
    pub open spec fn offered(self, c: char) -> bool {
        ||| self.include_uppercase && is_upper(c)
        ||| self.include_lowercase && is_lower(c)
        ||| self.include_numbers && is_digit(c)
        ||| self.include_symbols && self.symbol_pool().contains(c)
    }

    /// The alphabet: what the enabled categories offer and what was added by
    /// hand, without the ambiguous characters where they are unwanted, and
    /// without anything that was excluded.
    pub open spec fn alphabet(self) -> Set<char> {
        Set::new(
            |c: char|
                {
                    &&& self.offered(c) || self.include_chars.contains(c)
                    &&& !(self.no_ambiguous && is_ambiguous(c))
                    &&& !self.exclude_chars.contains(c)
                },
        )
    }

    /// Whether `class` is enabled and the alphabet holds a character of it.
    pub open spec fn survives(self, class: CharClass) -> bool {
        self.enabled(class) && exists|c: char| self.alphabet().contains(c) && class.holds(c)
    }

    /// Whether some enabled category has a character of its class in the alphabet.
    pub open spec fn has_usable_category(self) -> bool {
        ||| self.survives(CharClass::Uppercase)
        ||| self.survives(CharClass::Lowercase)
        ||| self.survives(CharClass::Digit)
        ||| self.survives(CharClass::Symbol)
    }

    /// What building the alphabet yields: the alphabet, or the reason why the
    /// configuration is refused.
    pub open spec fn outcome(self) -> Result<Set<char>, ValidationError> {
        if self.alphabet().is_empty() {
            Err(ValidationError::EmptyAlphabet)
        } else if self.length > 1 && !self.has_usable_category() && self.include_chars.is_empty() {
            Err(ValidationError::NoUsableCategory)
        } else {
            Ok(self.alphabet())
        }
    }

    /// Whether `r` is a fitting answer to this configuration: the reason of
    /// refusal where it is refused, else a list that holds each character
    /// of the alphabet once, in any order.
    pub open spec fn yields(self, r: Result<Vec<char>, ValidationError>) -> bool {
        match r {
            Ok(alphabet) => {
                &&& alphabet@.no_duplicates()
                &&& self.outcome() == Ok::<Set<char>, ValidationError>(alphabet@.to_set())
            },
            Err(e) => self.outcome() == Err::<Set<char>, ValidationError>(e),
        }
    }
}

/// Builds the alphabet that `config` describes.
///
/// The result lists each character of the alphabet once, in no particular order.
pub fn build_character_set(config: &PasswordConfig) -> (r: Result<Vec<char>, ValidationError>)
    ensures
        config@.yields(r),
{
    let mut charset = CharSet::new();

    if config.include_uppercase {
        charset.extend_from_str("ABCDEFGHIJKLMNOPQRSTUVWXYZ");
    }
    if config.include_lowercase {
        charset.extend_from_str("abcdefghijklmnopqrstuvwxyz");
    }
    if config.include_numbers {
        charset.extend_from_str("0123456789");
    }
    if config.include_symbols {
        match &config.custom_symbols {
            Some(symbols) => charset.extend_from_str(symbols.as_str()),
            None => charset.extend_from_str("!@#$%^&*()_+-=[]{}|;:,.<>?"),
        }
    }
    proof {
        lemma_uppercase_pool();
        lemma_lowercase_pool();
        lemma_digit_pool();
        lemma_default_symbols();
        assert(charset@ =~= Set::new(|c: char| config@.offered(c)));
    }

    charset.extend(&config.include_chars);

    if config.no_ambiguous {
        charset.remove_chars("0Ol1I");
    }
    charset.remove_all(&config.exclude_chars);
    proof {
        lemma_ambiguous_pool();
        assert(charset@ =~= config@.alphabet());
    }

    if charset.is_empty() {
        return Err(ValidationError::EmptyAlphabet);
    }
    if config.length > 1 {
        let has_required = (config.include_uppercase && charset.any(CharClass::Uppercase))
            || (config.include_lowercase && charset.any(CharClass::Lowercase))
            || (config.include_numbers && charset.any(CharClass::Digit))
            || (config.include_symbols && charset.any(CharClass::Symbol));
        if !has_required && config.include_chars.is_empty() {
            return Err(ValidationError::NoUsableCategory);
        }
    }
    Ok(charset.into_vec())
}

/// An excluded character is in no alphabet, whether or not it was also
/// added by hand or offered by a category.
pub proof fn lemma_exclusion_wins(spec: ConstraintSpec, c: char)
    requires
        spec.exclude_chars.contains(c),
    ensures
        !spec.alphabet().contains(c),
{
}

/// Where the ambiguous characters are unwanted, none of them is in the
/// alphabet, whatever the categories and the additions by hand.
pub proof fn lemma_ambiguous_left_out(spec: ConstraintSpec, c: char)
    requires
        spec.no_ambiguous,
        is_ambiguous(c),
    ensures
        !spec.alphabet().contains(c),
{
}

/// Two configurations with the same content get the same answer: both are
/// refused for the same reason, or both get alphabets of the same
/// characters, which may be listed in different orders.
pub proof fn lemma_equal_configs_equal_alphabets(
    a: PasswordConfig,
    b: PasswordConfig,
    ra: Result<Vec<char>, ValidationError>,
    rb: Result<Vec<char>, ValidationError>,
)
    requires
        a@ == b@,
        a@.yields(ra),
        b@.yields(rb),
    ensures
        match (ra, rb) {
            (Ok(x), Ok(y)) => x@.to_set() == y@.to_set() && x@.len() == y@.len(),
            (Err(e), Err(f)) => e == f,
            _ => false,
        },
{
    match (ra, rb) {
        (Ok(x), Ok(y)) => {
            x@.unique_seq_to_set();
            y@.unique_seq_to_set();
        },
        _ => {},
    }
}

} // verus!
