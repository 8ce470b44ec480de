//! QR codes for text: what the arguments ask for, and how the code is laid
//! out for the terminal or for a file.
//!
//! The code itself and its pictures come from the `qrcode` crate.

use crate::text::{chars_of, join_with_spaces, spaced};
use vstd::prelude::*;
use vstd::string::StringExecFns;

verus! {

/// Whether `arg` is one of the two flags that take a value.
pub open spec fn is_flag(arg: Seq<char>) -> bool {
    arg == "--save"@ || arg == "--size"@
}

/// What reading the arguments from position `i` on makes of the file to
/// save to and of the size, which so far are `save` and `size`: a flag that
/// has an argument behind it takes that argument as its value, and reading
/// goes on behind the value.
pub open spec fn scanned(
    args: Seq<Seq<char>>,
    i: int,
    save: Option<Seq<char>>,
    size: Seq<char>,
) -> (Option<Seq<char>>, Seq<char>)
    decreases args.len() - i,
{
    if i < 0 || i >= args.len() {
        (save, size)
    } else if args[i] == "--save"@ && i + 1 < args.len() {
        scanned(args, i + 2, Some(args[i + 1]), size)
    } else if args[i] == "--size"@ && i + 1 < args.len() {
        scanned(args, i + 2, save, args[i + 1])
    } else {
        scanned(args, i + 1, save, size)
    }
}

/// Whether the argument at position `i` belongs to the text: it is no flag
/// and does not stand right behind one.
pub open spec fn is_word(args: Seq<Seq<char>>, i: int) -> bool {
    !is_flag(args[i]) && !(i > 0 && is_flag(args[i - 1]))
}

/// The arguments among the first `n` that belong to the text, in order.
pub open spec fn words(args: Seq<Seq<char>>, n: int) -> Seq<Seq<char>>
    decreases n,
{
    if n <= 0 {
        Seq::empty()
    } else if is_word(args, n - 1) {
        words(args, n - 1).push(args[n - 1])
    } else {
        words(args, n - 1)
    }
}

/// What a QR command is asked for.
#[derive(Debug, PartialEq, Eq)]
pub struct QrRequest {
    /// The text to encode.
    pub text: String,
    /// The file to save the code to, where it is not shown in the terminal.
    pub save_file: Option<String>,
    /// The size that was asked for.
    pub size: String,
}

/// Reads the arguments of a QR command. Without arguments there is no request.
pub fn parse_qr_args(args: &Vec<String>) -> (request: Option<QrRequest>)
    ensures
        match request {
            None => args@.len() == 0,
            Some(r) => {
                let (save, size) = scanned(args.deep_view(), 0, None, "medium"@);
                &&& args@.len() > 0
                &&& r.text@ == spaced(words(args.deep_view(), args@.len() as int))
                &&& r.size@ == size
                &&& match r.save_file {
                    Some(file) => save == Some(file@),
                    None => save is None,
                }
            },
        },
{
    if args.len() == 0 {
        return None;
    }
    let ghost all = args.deep_view();
    let mut save_file: Option<String> = None;
    let mut size: String = "medium".to_owned();
    let mut i: usize = 0;
    while i < args.len()
        invariant
            i <= args@.len(),
            all == args.deep_view(),
            scanned(all, 0, None, "medium"@) == scanned(
                all,
                i as int,
                match save_file {
                    Some(file) => Some(file@),
                    None => None,
                },
                size@,
            ),
        decreases args@.len() - i,
    {
        assert(all[i as int] == args@[i as int]@);
        if *args[i].as_str() == *"--save" && i + 1 < args.len() {
            assert(all[i + 1] == args@[i + 1]@);
            save_file = Some(args[i + 1].clone());
            i += 2;
        } else if *args[i].as_str() == *"--size" && i + 1 < args.len() {
            assert(all[i + 1] == args@[i + 1]@);
            size = args[i + 1].clone();
            i += 2;
        } else {
            i += 1;
        }
    }
    let mut kept: Vec<String> = Vec::new();
    let mut k: usize = 0;
    while k < args.len()
        invariant
            k <= args@.len(),
            all == args.deep_view(),
            kept.deep_view() == words(all, k as int),
        decreases args@.len() - k,
    {
        assert(all[k as int] == args@[k as int]@);
        let flag = *args[k].as_str() == *"--save" || *args[k].as_str() == *"--size";
        let mut behind_flag = false;
        if k > 0 {
            assert(all[k - 1] == args@[k - 1]@);
            behind_flag = *args[k - 1].as_str() == *"--save" || *args[k - 1].as_str()
                == *"--size";
        }
        if !flag && !behind_flag {
            let ghost shorter = kept.deep_view();
            kept.push(args[k].clone());
            assert(kept.deep_view() =~= shorter.push(args@[k as int]@));
        }
        k += 1;
    }
    Some(QrRequest { text: join_with_spaces(&kept), save_file, size })
}

/// Pixels for each module of a code that is saved, by the size asked for.
pub open spec fn scale(size: Seq<char>) -> u32 {
    if size == "small"@ {
        4
    } else if size == "large"@ {
        12
    } else {
        8
    }
}

/// Works out the pixels for each module of a code that is saved.
pub fn scale_for(size: &str) -> (pixels: u32)
    ensures
        pixels == scale(size@),
{
    if *size == *"small" {
        4
    } else if *size == *"large" {
        12
    } else {
        8
    }
}

/// Whether `text` ends in `suffix`.
pub open spec fn has_suffix(text: Seq<char>, suffix: Seq<char>) -> bool {
    text.len() >= suffix.len() && text.skip(text.len() - suffix.len()) == suffix
}

/// Decides whether `text` ends in `suffix`.
#[verifier::loop_isolation(false)]
pub fn ends_with(text: &str, suffix: &str) -> (yes: bool)
    ensures
        yes == has_suffix(text@, suffix@),
{
    let whole = chars_of(text);
    let tail = chars_of(suffix);
    if whole.len() < tail.len() {
        return false;
    }
    let start = whole.len() - tail.len();
    let mut i: usize = 0;
    while i < tail.len()
        invariant
            i <= tail@.len(),
            start + tail@.len() == whole@.len(),
            forall|j: int| 0 <= j < i ==> whole@[start + j] == tail@[j],
        decreases tail@.len() - i,
    {
        if whole[start + i] != tail[i] {
            assert(whole@.skip(start as int)[i as int] != tail@[i as int]);
            return false;
        }
        i += 1;
    }
    assert(whole@.skip(start as int) =~= tail@);
    true
}

/// `text` with every occurrence of `from` replaced by `to`, as
/// `str::replace` does it.
pub uninterp spec fn replaced(text: Seq<char>, from: Seq<char>, to: Seq<char>) -> Seq<char>;

/// Calls `str::replace`, which replaces all matches of a pattern with
/// another text. The result is a function of the three texts alone.
#[verifier::external_body]
fn replace_all(text: &str, from: &str, to: &str) -> (changed: String)
    ensures
        changed@ == replaced(text@, from@, to@),
{
    text.replace(from, to)
}

/// The name of the file that a code is saved to: the code is written as
/// SVG, so `.png` in a name that ends in it gives way to `.svg`, and
/// any other name that does not end in `.svg` gets it added.
pub open spec fn svg_name(filename: Seq<char>) -> Seq<char> {
    if has_suffix(filename, ".png"@) {
        replaced(filename, ".png"@, ".svg"@)
    } else if !has_suffix(filename, ".svg"@) {
        filename + ".svg"@
    } else {
        filename
    }
}

/// Works out the name of the file that a code is saved to.
pub fn svg_filename(filename: &str) -> (name: String)
    ensures
        name@ == svg_name(filename@),
{
    if ends_with(filename, ".png") {
        replace_all(filename, ".png", ".svg")
    } else if !ends_with(filename, ".svg") {
        filename.to_owned().concat(".svg")
    } else {
        filename.to_owned()
    }
}

/// `qrcode::QrCode`, a QR code that was built. Nothing is known of what it holds.
#[verifier::external_type_specification]
#[verifier::external_body]
pub struct ExQrCode(qrcode::QrCode);

/// What `qrcode` objects to in `text` when it is to be encoded at the
/// medium level of error correction, in the words of its error, or `None`
/// where a code can be built.
pub uninterp spec fn qr_objection(text: Seq<char>) -> Option<Seq<char>>;

/// Builds the code for `text` with `QrCode::with_error_correction_level`
/// at level `EcLevel::M`, and hands on the words of the error where that
/// fails. Whether it fails, and with which words, is a function of the text
/// alone.
#[verifier::external_body]
fn encode(text: &str) -> (r: Result<qrcode::QrCode, String>)
    ensures
        match r {
            Ok(_) => qr_objection(text@) is None,
            Err(words) => qr_objection(text@) == Some(words@),
        },
{
    match qrcode::QrCode::with_error_correction_level(text, qrcode::EcLevel::M) {
        Ok(code) => Ok(code),
        Err(e) => Err(e.to_string()),
    }
}

/// Renders `code` as SVG, black on white, at least `side` pixels wide and
/// high, with the renderer of `qrcode`. The arithmetic of the renderer
/// stays in range for a `side` of this size. Nothing is claimed of the picture.
#[verifier::external_body]
fn svg_picture(code: &qrcode::QrCode, side: u32) -> (picture: String)
    requires
        side <= 0xffff,
{
    code.render().min_dimensions(side, side).dark_color(
        qrcode::render::svg::Color("black"),
    ).light_color(qrcode::render::svg::Color("white")).build()
}

/// Renders `code` for the terminal with two modules in each character,
/// dark and light exchanged, with the renderer of `qrcode`. Nothing is
/// claimed of the picture.
#[verifier::external_body]
fn dense_picture(code: &qrcode::QrCode) -> (picture: String) {
    code.render::<qrcode::render::unicode::Dense1x2>().dark_color(
        qrcode::render::unicode::Dense1x2::Light,
    ).light_color(qrcode::render::unicode::Dense1x2::Dark).build()
}

/// Renders `code` for the terminal with two characters for each module and
/// without the margin, with the renderer of `qrcode`. Nothing is claimed of
/// the picture.
#[verifier::external_body]
fn block_picture(code: &qrcode::QrCode) -> (picture: String) {
    code.render::<char>().quiet_zone(false).module_dimensions(2, 1).build()
}

/// A code that is ready to be written to a file.
#[derive(Debug)]
pub struct SavedCode {
    /// Name of the file.
    pub filename: String,
    /// What is written to it.
    pub contents: String,
}

/// A code that is ready to be shown in the terminal.
#[derive(Debug)]
pub struct ShownCode {
    /// The picture.
    pub picture: String,
    /// Whether to point out that a smaller picture can be had.
    pub tip: bool,
}

/// What is done with a code.
#[derive(Debug)]
pub enum QrOutput {
    Saved(SavedCode),
    Shown(ShownCode),
}

/// Prepares `code` for the file `filename`: as SVG with 21 times the scale
/// of `size` as its least width, under the name that [`svg_name`] gives.
pub fn save_qr_as_png(code: &qrcode::QrCode, filename: &str, size: &str) -> (saved: SavedCode)
    ensures
        saved.filename@ == svg_name(filename@),
{
    let side = 21 * scale_for(size);
    let contents = svg_picture(code, side);
    SavedCode { filename: svg_filename(filename), contents }
}

/// Prepares `code` for the terminal: the dense picture for the size
/// `small`, else the wide one together with the tip.
pub fn display_qr_in_terminal(code: &qrcode::QrCode, size: &str) -> (shown: ShownCode)
    ensures
        shown.tip == (size@ != "small"@),
{
    if *size == *"small" {
        ShownCode { picture: dense_picture(code), tip: false }
    } else {
        ShownCode { picture: block_picture(code), tip: true }
    }
}

/// Builds the code for `text` and prepares it for the file, where one is
/// named, or else for the terminal. A text that cannot be encoded is
/// reported in the words of `qrcode`.
pub fn generate_qr_code(text: &str, save_file: Option<String>, size: &str) -> (r: Result<
    QrOutput,
    String,
>)
    ensures
        match r {
            Err(words) => qr_objection(text@) == Some(words@),
            Ok(QrOutput::Saved(saved)) => {
                &&& qr_objection(text@) is None
                &&& save_file matches Some(name)
                &&& saved.filename@ == svg_name(name@)
            },
            Ok(QrOutput::Shown(shown)) => {
                &&& qr_objection(text@) is None
                &&& save_file is None
                &&& shown.tip == (size@ != "small"@)
            },
        },
{
    let code = match encode(text) {
        Ok(code) => code,
        Err(words) => {
            return Err(words);
        },
    };
    match save_file {
        Some(name) => Ok(QrOutput::Saved(save_qr_as_png(&code, name.as_str(), size))),
        None => Ok(QrOutput::Shown(display_qr_in_terminal(&code, size))),
    }
}

} // verus!
