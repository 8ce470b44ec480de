//! Exchange rates: what the arguments ask for and how the currencies are
//! listed. Amounts and rates themselves are not handled here.

use vstd::prelude::*;
use vstd::string::StringExecFns;

verus! {

/// `text` in uppercase, as `str::to_uppercase` maps it.
pub uninterp spec fn uppercased(text: Seq<char>) -> Seq<char>;

/// Calls `str::to_uppercase`, which maps each character to its uppercase
/// form as Unicode defines it. The result is a function of the text alone.
#[verifier::external_body]
fn uppercase(text: &str) -> (upper: String)
    ensures
        upper@ == uppercased(text@),
{
    text.to_uppercase()
}

/// The currencies that are listed first.
pub open spec fn major_codes() -> Seq<Seq<char>> {
    seq!["USD"@, "EUR"@, "GBP"@, "JPY"@, "CAD"@, "AUD"@, "CHF"@, "CNY"@]
}

/// Whether `code` is one of the currencies that are listed first.
pub open spec fn is_major(code: Seq<char>) -> bool {
    major_codes().contains(code)
}

/// The currencies that are listed first.
fn major_list() -> (codes: Vec<&'static str>)
    ensures
        codes.deep_view() == major_codes(),
{
    let mut codes: Vec<&'static str> = Vec::new();
    codes.push("USD");
    codes.push("EUR");
    codes.push("GBP");
    codes.push("JPY");
    codes.push("CAD");
    codes.push("AUD");
    codes.push("CHF");
    codes.push("CNY");
    assert(codes.deep_view() =~= major_codes());
    codes
}

/// Whether `code` occurs in `codes`.
fn listed(codes: &Vec<String>, code: &str) -> (found: bool)
    ensures
        found == codes.deep_view().contains(code@),
{
    let mut i: usize = 0;
    while i < codes.len()
        invariant
            i <= codes@.len(),
            forall|j: int| 0 <= j < i ==> codes.deep_view()[j] != code@,
        decreases codes@.len() - i,
    {
        assert(codes.deep_view()[i as int] == codes@[i as int]@);
        if *codes[i].as_str() == *code {
            return true;
        }
        i += 1;
    }
    false
}

/// Decides whether `code` is one of the currencies that are listed first.
pub fn major(code: &str) -> (yes: bool)
    ensures
        yes == is_major(code@),
{
    let majors = major_list();
    let mut i: usize = 0;
    while i < majors.len()
        invariant
            i <= majors@.len(),
            majors.deep_view() == major_codes(),
            forall|j: int| 0 <= j < i ==> major_codes()[j] != code@,
        decreases majors@.len() - i,
    {
        assert(majors.deep_view()[i as int] == majors@[i as int]@);
        if *majors[i] == *code {
            return true;
        }
        i += 1;
    }
    false
}

/// The conversion that the arguments ask for.
#[derive(Debug, PartialEq, Eq)]
pub struct ConvertRequest {
    /// The amount, as it was written.
    pub amount: String,
    /// The currency to convert from, in capitals.
    pub from: String,
    /// The currency to convert to, in capitals.
    pub to: String,
}

/// Reads the arguments of a conversion: an amount and two currencies, no
/// more and no less.
pub fn parse_convert_args(args: &Vec<String>) -> (request: Option<ConvertRequest>)
    ensures
        match request {
            Some(r) => {
                &&& args@.len() == 3
                &&& r.amount@ == args@[0]@
                &&& r.from@ == uppercased(args@[1]@)
                &&& r.to@ == uppercased(args@[2]@)
            },
            None => args@.len() != 3,
        },
{
    if args.len() != 3 {
        return None;
    }
    Some(
        ConvertRequest {
            amount: args[0].clone(),
            from: uppercase(args[1].as_str()),
            to: uppercase(args[2].as_str()),
        },
    )
}

/// The currency whose rates are asked for: the first argument in capitals,
/// or the US dollar where there is none.
pub fn rates_base(args: &Vec<String>) -> (base: String)
    ensures
        base@ == if args@.len() == 0 {
            "USD"@
        } else {
            uppercased(args@[0]@)
        },
{
    if args.len() == 0 {
        "USD".to_owned()
    } else {
        uppercase(args[0].as_str())
    }
}

/// The first `n` major currencies that have a rate and are not the base.
pub open spec fn major_shown(available: Seq<Seq<char>>, base: Seq<char>, n: int) -> Seq<Seq<char>>
    decreases n,
{
    if n <= 0 {
        Seq::empty()
    } else {
        let code = major_codes()[n - 1];
        if available.contains(code) && code != base {
            major_shown(available, base, n - 1).push(code)
        } else {
            major_shown(available, base, n - 1)
        }
    }
}

/// Among the first `n` of `codes`, those that are neither major nor the base.
pub open spec fn others_shown(codes: Seq<Seq<char>>, base: Seq<char>, n: int) -> Seq<Seq<char>>
    decreases n,
{
    if n <= 0 {
        Seq::empty()
    } else if !is_major(codes[n - 1]) && codes[n - 1] != base {
        others_shown(codes, base, n - 1).push(codes[n - 1])
    } else {
        others_shown(codes, base, n - 1)
    }
}

/// The major currencies to list for the base `base`, in their fixed
/// order: those that have a rate among `codes` and are not the base itself.
pub fn major_listing(codes: &Vec<String>, base: &str) -> (shown: Vec<String>)
    ensures
        shown.deep_view() == major_shown(codes.deep_view(), base@, major_codes().len() as int),
{
    let majors = major_list();
    let mut shown: Vec<String> = Vec::new();
    let mut i: usize = 0;
    while i < majors.len()
        invariant
            i <= majors@.len(),
            majors.deep_view() == major_codes(),
            shown.deep_view() == major_shown(codes.deep_view(), base@, i as int),
        decreases majors@.len() - i,
    {
        assert(majors.deep_view()[i as int] == majors@[i as int]@);
        if listed(codes, majors[i]) && *majors[i] != *base {
            let ghost shorter = shown.deep_view();
            shown.push(majors[i].to_owned());
            assert(shown.deep_view() =~= shorter.push(majors@[i as int]@));
        }
        i += 1;
    }
    shown
}

/// The other currencies to list for the base `base`, in the order of
/// `codes`: those that are neither major nor the base itself.
pub fn other_listing(codes: &Vec<String>, base: &str) -> (shown: Vec<String>)
    ensures
        shown.deep_view() == others_shown(codes.deep_view(), base@, codes@.len() as int),
{
    let mut shown: Vec<String> = Vec::new();
    let mut i: usize = 0;
    while i < codes.len()
        invariant
            i <= codes@.len(),
            shown.deep_view() == others_shown(codes.deep_view(), base@, i as int),
        decreases codes@.len() - i,
    {
        assert(codes.deep_view()[i as int] == codes@[i as int]@);
        if !major(codes[i].as_str()) && *codes[i].as_str() != *base {
            let ghost shorter = shown.deep_view();
            shown.push(codes[i].clone());
            assert(shown.deep_view() =~= shorter.push(codes@[i as int]@));
        }
        i += 1;
    }
    shown
}

/// Currencies in each row of the list of all currencies.
pub const ROW_LENGTH: usize = 10;

/// A currency as it stands in a row: filled up with spaces to four
/// characters.
pub open spec fn cell(code: Seq<char>) -> Seq<char> {
    if code.len() >= 4 {
        code
    } else {
        code + Seq::new((4 - code.len()) as nat, |i: int| ' ')
    }
}

/// What is printed of the first `n` currencies since the last line break:
/// the cells with a space behind each but the tenth of a row.
pub open spec fn open_row(codes: Seq<Seq<char>>, n: int) -> Seq<char>
    decreases n,
{
    if n <= 0 || n % 10 == 0 {
        Seq::empty()
    } else if n % 10 == 1 {
        cell(codes[n - 1])
    } else {
        open_row(codes, n - 1).push(' ') + cell(codes[n - 1])
    }
}

/// The rows that the first `n` currencies fill or begin: ten currencies in
/// each, and a last row with a space at its end where it is not full.
pub open spec fn rows(codes: Seq<Seq<char>>, n: int) -> Seq<Seq<char>>
    decreases n,
{
    if n <= 0 {
        Seq::empty()
    } else if n % 10 == 0 {
        rows(codes, n - 10).push(open_row(codes, n - 1).push(' ') + cell(codes[n - 1]))
    } else {
        rows(codes, n - n % 10).push(open_row(codes, n).push(' '))
    }
}

/// Fills `code` up with spaces to four characters.
pub fn pad(code: &str) -> (padded: String)
    ensures
        padded@ == cell(code@),
{
    let mut padded = code.to_owned();
    let mut n = code.unicode_len();
    while n < 4
        invariant
            n <= 4 || n == code@.len(),
            n >= code@.len(),
            padded@ == code@ + Seq::new((n - code@.len()) as nat, |i: int| ' '),
        decreases 4 - n,
    {
        padded.append(" ");
        proof {
            reveal_strlit(" ");
            assert(" "@ =~= seq![' ']);
            assert(padded@ =~= code@ + Seq::new((n + 1 - code@.len()) as nat, |i: int| ' '));
        }
        n += 1;
    }
    assert(padded@ =~= cell(code@));
    padded
}

/// Lays out the list of all currencies in rows of ten.
pub fn currency_rows(codes: &Vec<String>) -> (lines: Vec<String>)
    ensures
        lines.deep_view() == rows(codes.deep_view(), codes@.len() as int),
{
    let ghost all = codes.deep_view();
    let mut lines: Vec<String> = Vec::new();
    let mut row = String::new();
    let mut i: usize = 0;
    while i < codes.len()
        invariant
            i <= codes@.len(),
            all == codes.deep_view(),
            lines.deep_view() == rows(all, i - i % 10),
            row@ == if i % 10 == 0 {
                Seq::<char>::empty()
            } else {
                open_row(all, i as int).push(' ')
            },
        decreases codes@.len() - i,
    {
        assert(all[i as int] == codes@[i as int]@);
        let padded = pad(codes[i].as_str());
        row.append(padded.as_str());
        if (i + 1) % ROW_LENGTH == 0 {
            let ghost shorter = lines.deep_view();
            proof {
                assert(row@ =~= open_row(all, i as int).push(' ') + cell(all[i as int]));
            }
            let mut full = String::new();
            std::mem::swap(&mut full, &mut row);
            lines.push(full);
            proof {
                assert(lines.deep_view() =~= shorter.push(
                    open_row(all, i as int).push(' ') + cell(all[i as int]),
                ));
                assert((i - i % 10) == i + 1 - 10);
            }
        } else {
            proof {
                reveal_strlit(" ");
                assert(" "@ =~= seq![' ']);
            }
            row.append(" ");
            proof {
                if i % 10 == 0 {
                    assert(open_row(all, i + 1) == cell(all[i as int]));
                } else {
                    assert(open_row(all, i + 1) == open_row(all, i as int).push(' ') + cell(
                        all[i as int],
                    ));
                }
                assert(row@ =~= open_row(all, i + 1).push(' '));
                assert((i + 1) - (i + 1) % 10 == i - i % 10);
            }
        }
        i += 1;
    }
    if i % ROW_LENGTH != 0 {
        let ghost shorter = lines.deep_view();
        lines.push(row);
        assert(lines.deep_view() =~= shorter.push(open_row(all, i as int).push(' ')));
    }
    lines
}

} // verus!
