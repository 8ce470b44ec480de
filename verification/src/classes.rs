//! The character classes and fixed pools from which alphabets are assembled.

use vstd::prelude::*;

verus! {

/// One of the four categories a caller can switch on or off.
#[derive(Clone, Copy, Debug, PartialEq, Eq, Structural)]
pub enum CharClass {
    /// The 26 Latin capitals.
    Uppercase,
    /// The 26 Latin lowercase letters.
    Lowercase,
    /// The 10 Arabic numerals.
    Digit,
    /// Everything that is neither an ASCII letter nor an ASCII digit.
    Symbol,
}

/// `c` is one of the Latin capitals `A` to `Z`.
pub open spec fn is_upper(c: char) -> bool {
    'A' <= c <= 'Z'
}

/// `c` is one of the Latin lowercase letters `a` to `z`.
pub open spec fn is_lower(c: char) -> bool {
    'a' <= c <= 'z'
}

/// `c` is one of the Arabic numerals `0` to `9`.
pub open spec fn is_digit(c: char) -> bool {
    '0' <= c <= '9'
}

/// `c` is an ASCII letter or an ASCII digit.
pub open spec fn is_alphanumeric(c: char) -> bool {
    is_upper(c) || is_lower(c) || is_digit(c)
}

/// `c` is one of zero, capital o, lowercase l, one and capital i: the
/// characters that are easily mistaken for one another.
pub open spec fn is_ambiguous(c: char) -> bool {
    c == '0' || c == 'O' || c == 'l' || c == '1' || c == 'I'
}

/// The punctuation offered when the caller names no symbols of their own.
pub open spec fn default_symbols() -> Seq<char> {
    seq![
        '!', '@', '#', '$', '%', '^', '&', '*', '(', ')', '_', '+', '-', '=', '[', ']', '{', '}',
        '|', ';', ':', ',', '.', '<', '>', '?',
    ]
}

impl CharClass {
    /// Whether `c` counts as a character of this class.
    pub open spec fn holds(self, c: char) -> bool {
        match self {
            CharClass::Uppercase => is_upper(c),
            CharClass::Lowercase => is_lower(c),
            CharClass::Digit => is_digit(c),
            CharClass::Symbol => !is_alphanumeric(c),
        }
    }

    /// Decides whether `c` counts as a character of this class.
    pub fn matches(self, c: char) -> (b: bool)
        ensures
            b == self.holds(c),
    {
        match self {
            CharClass::Uppercase => 'A' <= c && c <= 'Z',
            CharClass::Lowercase => 'a' <= c && c <= 'z',
            CharClass::Digit => '0' <= c && c <= '9',
            CharClass::Symbol => !(('A' <= c && c <= 'Z') || ('a' <= c && c <= 'z') || ('0' <= c
                && c <= '9')),
        }
    }
}

/// The uppercase pool, written out, holds exactly the Latin capitals.
pub proof fn lemma_uppercase_pool()
    ensures
        "ABCDEFGHIJKLMNOPQRSTUVWXYZ"@.to_set() == Set::new(|c: char| is_upper(c)),
{
    reveal_strlit("ABCDEFGHIJKLMNOPQRSTUVWXYZ");
    let pool = "ABCDEFGHIJKLMNOPQRSTUVWXYZ"@;
    assert forall|c: char| is_upper(c) implies pool.contains(c) by {
        assert(pool[c as int - 'A' as int] == c);
    }
    assert(pool.to_set() =~= Set::new(|c: char| is_upper(c)));
}

/// The lowercase pool, written out, holds exactly the Latin lowercase letters.
pub proof fn lemma_lowercase_pool()
    ensures
        "abcdefghijklmnopqrstuvwxyz"@.to_set() == Set::new(|c: char| is_lower(c)),
{
    reveal_strlit("abcdefghijklmnopqrstuvwxyz");
    let pool = "abcdefghijklmnopqrstuvwxyz"@;
    assert forall|c: char| is_lower(c) implies pool.contains(c) by {
        assert(pool[c as int - 'a' as int] == c);
    }
    assert(pool.to_set() =~= Set::new(|c: char| is_lower(c)));
}

/// The digit pool, written out, holds exactly the Arabic numerals.
pub proof fn lemma_digit_pool()
    ensures
        "0123456789"@.to_set() == Set::new(|c: char| is_digit(c)),
{
    reveal_strlit("0123456789");
    let pool = "0123456789"@;
    assert forall|c: char| is_digit(c) implies pool.contains(c) by {
        assert(pool[c as int - '0' as int] == c);
    }
    assert(pool.to_set() =~= Set::new(|c: char| is_digit(c)));
}

/// The default symbols, written as one string, are `default_symbols()`.
pub proof fn lemma_default_symbols()
    ensures
        "!@#$%^&*()_+-=[]{}|;:,.<>?"@ == default_symbols(),
{
    reveal_strlit("!@#$%^&*()_+-=[]{}|;:,.<>?");
    assert("!@#$%^&*()_+-=[]{}|;:,.<>?"@ =~= default_symbols());
}

/// The ambiguous characters, written as one string, are those that `is_ambiguous` accepts.
pub proof fn lemma_ambiguous_pool()
    ensures
        "0Ol1I"@.to_set() == Set::new(|c: char| is_ambiguous(c)),
{
    reveal_strlit("0Ol1I");
    let pool = "0Ol1I"@;
    assert forall|c: char| is_ambiguous(c) implies pool.contains(c) by {
        if c == '0' {
            assert(pool[0] == c);
        } else if c == 'O' {
            assert(pool[1] == c);
        } else if c == 'l' {
            assert(pool[2] == c);
        } else if c == '1' {
            assert(pool[3] == c);
        } else {
            assert(pool[4] == c);
        }
    }
    assert(pool.to_set() =~= Set::new(|c: char| is_ambiguous(c)));
}

} // verus!
