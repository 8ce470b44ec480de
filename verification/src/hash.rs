//! Digests of text and files, written in hexadecimal.
//!
//! The digests themselves come from the `md-5` and `sha2` crates and the
//! hexadecimal text from the `hex` crate; which digest is taken, and how the
//! printed lines are laid out around it, is decided here.

use crate::text::{decimal, join_with_spaces, spaced, to_decimal};
use md5::Digest;
use vstd::prelude::*;
use vstd::string::StringExecFns;
use vstd::utf8::encode_utf8;

verus! {

/// The MD5 digest of `data`, as `md5::Md5` computes it.
pub uninterp spec fn md5_digest(data: Seq<u8>) -> Seq<u8>;

/// The SHA-256 digest of `data`, as `sha2::Sha256` computes it.
pub uninterp spec fn sha256_digest(data: Seq<u8>) -> Seq<u8>;

/// The SHA-512 digest of `data`, as `sha2::Sha512` computes it.
pub uninterp spec fn sha512_digest(data: Seq<u8>) -> Seq<u8>;

/// Feeds `data` to `md5::Md5` through `Digest::digest` and hands the digest
/// on as bytes. The digest is a function of the data alone.
#[verifier::external_body]
fn md5_bytes(data: &[u8]) -> (digest: Vec<u8>)
    ensures
        digest@ == md5_digest(data@),
{
    md5::Md5::digest(data).to_vec()
}

/// Feeds `data` to `sha2::Sha256` through `Digest::digest` and hands the
/// digest on as bytes. The digest is a function of the data alone.
#[verifier::external_body]
fn sha256_bytes(data: &[u8]) -> (digest: Vec<u8>)
    ensures
        digest@ == sha256_digest(data@),
{
    sha2::Sha256::digest(data).to_vec()
}

/// Feeds `data` to `sha2::Sha512` through `Digest::digest` and hands the
/// digest on as bytes. The digest is a function of the data alone.
#[verifier::external_body]
fn sha512_bytes(data: &[u8]) -> (digest: Vec<u8>)
    ensures
        digest@ == sha512_digest(data@),
{
    sha2::Sha512::digest(data).to_vec()
}

/// The hexadecimal digit for `nibble`, which is below sixteen, in lowercase.
pub open spec fn hex_digit(nibble: nat) -> char {
    if nibble < 10 {
        ('0' as nat + nibble) as char
    } else {
        ('a' as nat + nibble - 10) as char
    }
}

/// `data` in hexadecimal: two lowercase digits for each byte, the high half first.
pub open spec fn hex_text(data: Seq<u8>) -> Seq<char> {
    Seq::new(
        2 * data.len(),
        |i: int|
            if i % 2 == 0 {
                hex_digit((data[i / 2] / 16) as nat)
            } else {
                hex_digit((data[i / 2] % 16) as nat)
            },
    )
}

/// Calls `hex::encode`, which writes each byte as two lowercase hexadecimal
/// digits, the high half first.
#[verifier::external_body]
fn hex_encode(data: &[u8]) -> (text: String)
    ensures
        text@ == hex_text(data@),
{
    hex::encode(data)
}

/// A digest that can be asked for.
#[derive(Clone, Copy, Debug, PartialEq, Eq, Structural)]
pub enum HashAlgorithm {
    Md5,
    Sha256,
    Sha512,
}

impl HashAlgorithm {
    /// The algorithm that goes by `name`, if there is one.
    pub open spec fn named(name: Seq<char>) -> Option<HashAlgorithm> {
        if name == "md5"@ {
            Some(HashAlgorithm::Md5)
        } else if name == "sha256"@ {
            Some(HashAlgorithm::Sha256)
        } else if name == "sha512"@ {
            Some(HashAlgorithm::Sha512)
        } else {
            None
        }
    }

    /// Looks up the algorithm that goes by `name`.
    pub fn from_name(name: &str) -> (algorithm: Option<HashAlgorithm>)
        ensures
            algorithm == HashAlgorithm::named(name@),
    {
        if *name == *"md5" {
            Some(HashAlgorithm::Md5)
        } else if *name == *"sha256" {
            Some(HashAlgorithm::Sha256)
        } else if *name == *"sha512" {
            Some(HashAlgorithm::Sha512)
        } else {
            None
        }
    }

    /// The name of the algorithm as it is printed: its name in capitals.
    pub open spec fn label(self) -> Seq<char> {
        match self {
            HashAlgorithm::Md5 => "MD5"@,
            HashAlgorithm::Sha256 => "SHA256"@,
            HashAlgorithm::Sha512 => "SHA512"@,
        }
    }

    /// The name of the algorithm as it is printed.
    pub fn label_text(self) -> (label: &'static str)
        ensures
            label@ == self.label(),
    {
        match self {
            HashAlgorithm::Md5 => "MD5",
            HashAlgorithm::Sha256 => "SHA256",
            HashAlgorithm::Sha512 => "SHA512",
        }
    }

    /// The digest of `data` under this algorithm.
    pub open spec fn digest(self, data: Seq<u8>) -> Seq<u8> {
        match self {
            HashAlgorithm::Md5 => md5_digest(data),
            HashAlgorithm::Sha256 => sha256_digest(data),
            HashAlgorithm::Sha512 => sha512_digest(data),
        }
    }

    /// Computes the digest of `data` and writes it in hexadecimal.
    pub fn digest_hex(self, data: &[u8]) -> (text: String)
        ensures
            text@ == hex_text(self.digest(data@)),
    {
        let digest = match self {
            HashAlgorithm::Md5 => md5_bytes(data),
            HashAlgorithm::Sha256 => sha256_bytes(data),
            HashAlgorithm::Sha512 => sha512_bytes(data),
        };
        hex_encode(digest.as_slice())
    }
}

/// An algorithm was asked for that is not offered.
#[derive(Debug, PartialEq, Eq)]
pub struct UnsupportedAlgorithm {
    /// The name that was asked for.
    pub name: String,
}

impl UnsupportedAlgorithm {
    /// The text shown for this error.
    pub open spec fn text(self) -> Seq<char> {
        "Unsupported algorithm: "@ + self.name@
    }

    /// The text shown for this error.
    pub fn message(&self) -> (s: String)
        ensures
            s@ == self.text(),
    {
        "Unsupported algorithm: ".to_owned().concat(self.name.as_str())
    }
}

/// The line printed for the digest of a text.
pub open spec fn text_line(algorithm: HashAlgorithm, data: Seq<u8>) -> Seq<char> {
    algorithm.label() + ": "@ + hex_text(algorithm.digest(data))
}

/// The line printed for the digest of the file at `path`, which holds `data`.
pub open spec fn file_line(algorithm: HashAlgorithm, path: Seq<char>, data: Seq<u8>) -> Seq<char> {
    algorithm.label() + " ("@ + path + "): "@ + hex_text(algorithm.digest(data))
}

/// The line to print for the digest of `input` under the algorithm that goes
/// by `algorithm`, or the refusal of an algorithm that is not offered.
pub fn hash_text(input: &str, algorithm: &str) -> (r: Result<String, UnsupportedAlgorithm>)
    ensures
        match HashAlgorithm::named(algorithm@) {
            Some(a) => r matches Ok(line) && line@ == text_line(a, encode_utf8(input@)),
            None => r matches Err(e) && e.name@ == algorithm@,
        },
{
    match HashAlgorithm::from_name(algorithm) {
        Some(a) => {
            let mut line = a.label_text().to_owned();
            line.append(": ");
            let hash = a.digest_hex(input.as_bytes());
            line.append(hash.as_str());
            Ok(line)
        },
        None => Err(UnsupportedAlgorithm { name: algorithm.to_owned() }),
    }
}

/// The line to print for the digest of a file, given its path and what it
/// holds, under the algorithm that goes by `algorithm`, or the refusal of an
/// algorithm that is not offered.
pub fn hash_file(data: &[u8], filepath: &str, algorithm: &str) -> (r: Result<
    String,
    UnsupportedAlgorithm,
>)
    ensures
        match HashAlgorithm::named(algorithm@) {
            Some(a) => r matches Ok(line) && line@ == file_line(a, filepath@, data@),
            None => r matches Err(e) && e.name@ == algorithm@,
        },
{
    match HashAlgorithm::from_name(algorithm) {
        Some(a) => {
            let mut line = a.label_text().to_owned();
            line.append(" (");
            line.append(filepath);
            line.append("): ");
            let hash = a.digest_hex(data);
            line.append(hash.as_str());
            Ok(line)
        },
        None => Err(UnsupportedAlgorithm { name: algorithm.to_owned() }),
    }
}

/// The rule drawn between the heading and the digests.
pub open spec fn rule() -> Seq<char> {
    "─────────────────────────────────────────────────"@
}

/// The lines printed when all digests of a text are asked for: the text in
/// quotes, a rule, and one line for each algorithm.
pub open spec fn text_report(input: Seq<char>) -> Seq<Seq<char>> {
    let data = encode_utf8(input);
    seq![
        "Input: \""@ + input + "\""@,
        rule(),
        text_line(HashAlgorithm::Md5, data),
        text_line(HashAlgorithm::Sha256, data),
        text_line(HashAlgorithm::Sha512, data),
    ]
}

/// The lines printed when all digests of a file are asked for: its path, its
/// size, a rule, and one line for each algorithm.
pub open spec fn file_report(path: Seq<char>, data: Seq<u8>) -> Seq<Seq<char>> {
    seq![
        "File: "@ + path,
        "Size: "@ + decimal(data.len()) + " bytes"@,
        rule(),
        file_line(HashAlgorithm::Md5, path, data),
        file_line(HashAlgorithm::Sha256, path, data),
        file_line(HashAlgorithm::Sha512, path, data),
    ]
}

/// The line for one algorithm in a report on a text.
fn text_entry(algorithm: HashAlgorithm, data: &[u8]) -> (line: String)
    ensures
        line@ == text_line(algorithm, data@),
{
    let mut line = algorithm.label_text().to_owned();
    line.append(": ");
    let hash = algorithm.digest_hex(data);
    line.append(hash.as_str());
    line
}

/// The line for one algorithm in a report on a file.
fn file_entry(algorithm: HashAlgorithm, filepath: &str, data: &[u8]) -> (line: String)
    ensures
        line@ == file_line(algorithm, filepath@, data@),
{
    let mut line = algorithm.label_text().to_owned();
    line.append(" (");
    line.append(filepath);
    line.append("): ");
    let hash = algorithm.digest_hex(data);
    line.append(hash.as_str());
    line
}

/// The lines to print when all digests of `input` are asked for.
pub fn hash_text_all(input: &str) -> (lines: Vec<String>)
    ensures
        lines.deep_view() == text_report(input@),
{
    let mut heading = "Input: \"".to_owned();
    heading.append(input);
    heading.append("\"");
    let mut lines: Vec<String> = Vec::new();
    lines.push(heading);
    lines.push("─────────────────────────────────────────────────".to_owned());
    lines.push(text_entry(HashAlgorithm::Md5, input.as_bytes()));
    lines.push(text_entry(HashAlgorithm::Sha256, input.as_bytes()));
    lines.push(text_entry(HashAlgorithm::Sha512, input.as_bytes()));
    assert(lines.deep_view() =~= text_report(input@));
    lines
}

/// The lines to print when all digests of the file at `filepath`, which
/// holds `data`, are asked for.
pub fn hash_file_all(data: &[u8], filepath: &str) -> (lines: Vec<String>)
    ensures
        lines.deep_view() == file_report(filepath@, data@),
{
    let mut heading = "File: ".to_owned();
    heading.append(filepath);
    let mut size = "Size: ".to_owned();
    let number = to_decimal(data.len() as u64);
    size.append(number.as_str());
    size.append(" bytes");
    let mut lines: Vec<String> = Vec::new();
    lines.push(heading);
    lines.push(size);
    lines.push("─────────────────────────────────────────────────".to_owned());
    lines.push(file_entry(HashAlgorithm::Md5, filepath, data));
    lines.push(file_entry(HashAlgorithm::Sha256, filepath, data));
    lines.push(file_entry(HashAlgorithm::Sha512, filepath, data));
    assert(lines.deep_view() =~= file_report(filepath@, data@));
    lines
}

/// What a hash command is asked to work on.
#[derive(Debug, PartialEq, Eq)]
pub enum HashInput {
    /// The text given on the command line.
    Text(String),
    /// The file at this path.
    File(String),
}

/// Why the arguments of a hash command name no input.
#[derive(Clone, Copy, Debug, PartialEq, Eq, Structural)]
pub enum HashArgError {
    /// No argument was given.
    MissingInput,
    /// `--file` was given without a path behind it.
    MissingFilePath,
}

impl HashArgError {
    /// The text shown for this error.
    pub open spec fn text(self) -> Seq<char> {
        match self {
            HashArgError::MissingInput => "Please provide text to hash or use --file flag"@,
            HashArgError::MissingFilePath => "Please provide a file path after --file"@,
        }
    }

    /// The text shown for this error.
    pub fn message(&self) -> (s: String)
        ensures
            s@ == self.text(),
    {
        match self {
            HashArgError::MissingInput => "Please provide text to hash or use --file flag".to_owned(),
            HashArgError::MissingFilePath => "Please provide a file path after --file".to_owned(),
        }
    }
}

/// What the arguments of a hash command ask for: nothing, which is refused;
/// the file named behind a leading `--file`; or else the arguments
/// themselves as one text, with a space between neighbours.
pub open spec fn hash_input(args: Seq<Seq<char>>) -> Result<(bool, Seq<char>), HashArgError> {
    if args.len() == 0 {
        Err(HashArgError::MissingInput)
    } else if args[0] == "--file"@ {
        if args.len() < 2 {
            Err(HashArgError::MissingFilePath)
        } else {
            Ok((true, args[1]))
        }
    } else {
        Ok((false, spaced(args)))
    }
}

/// Reads the arguments of a hash command.
pub fn parse_hash_args(args: &Vec<String>) -> (r: Result<HashInput, HashArgError>)
    ensures
        match r {
            Ok(HashInput::File(path)) => hash_input(args.deep_view()) == Ok::<
                (bool, Seq<char>),
                HashArgError,
            >((true, path@)),
            Ok(HashInput::Text(text)) => hash_input(args.deep_view()) == Ok::<
                (bool, Seq<char>),
                HashArgError,
            >((false, text@)),
            Err(e) => hash_input(args.deep_view()) == Err::<(bool, Seq<char>), HashArgError>(e),
        },
{
    if args.len() == 0 {
        return Err(HashArgError::MissingInput);
    }
    assert(args.deep_view()[0] == args@[0]@);
    if *args[0].as_str() == *"--file" {
        if args.len() < 2 {
            return Err(HashArgError::MissingFilePath);
        }
        assert(args.deep_view()[1] == args@[1]@);
        Ok(HashInput::File(args[1].clone()))
    } else {
        Ok(HashInput::Text(join_with_spaces(args)))
    }
}

} // verus!
