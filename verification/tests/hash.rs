use oat::hash::{
    hash_file, hash_file_all, hash_text, hash_text_all, parse_hash_args, HashAlgorithm,
    HashArgError, HashInput, UnsupportedAlgorithm,
};
use sha2::Digest;

const RULE: &str = "─────────────────────────────────────────────────";

fn args(parts: &[&str]) -> Vec<String> {
    parts.iter().map(|p| p.to_string()).collect()
}

#[test]
fn digests_of_the_empty_input() {
    assert_eq!(HashAlgorithm::Md5.digest_hex(b""), "d41d8cd98f00b204e9800998ecf8427e");
    assert_eq!(
        HashAlgorithm::Sha256.digest_hex(b""),
        "e3b0c44298fc1c149afbf4c8996fb92427ae41e4649b934ca495991b7852b855"
    );
    assert_eq!(
        HashAlgorithm::Sha512.digest_hex(b""),
        "cf83e1357eefb8bdf1542850d66d8007d620e4050b5715dc83f4a921d36ce9ce47d0d13c5d85f2b0ff8318d2877eec2f63b931bd47417a81a538327af927da3e"
    );
}

#[test]
fn digests_of_abc() {
    assert_eq!(HashAlgorithm::Md5.digest_hex(b"abc"), "900150983cd24fb0d6963f7d28e17f72");
    assert_eq!(
        HashAlgorithm::Sha256.digest_hex(b"abc"),
        "ba7816bf8f01cfea414140de5dae2223b00361a396177a9cb410ff61f20015ad"
    );
    assert_eq!(
        HashAlgorithm::Sha512.digest_hex(b"abc"),
        "ddaf35a193617abacc417349ae20413112e6fa4e89a97ea20a9eeee64b55d39a2192992a274fc1a836ba3c23a3feebbd454d4423643ce80e2a9ac94fa54ca49f"
    );
}

#[test]
fn digests_agree_with_the_crates() {
    let data = "The quick brown fox jumps over the lazy dog — ünïcödé".as_bytes();
    assert_eq!(HashAlgorithm::Md5.digest_hex(data), hex::encode(md5::Md5::digest(data)));
    assert_eq!(HashAlgorithm::Sha256.digest_hex(data), hex::encode(sha2::Sha256::digest(data)));
    assert_eq!(HashAlgorithm::Sha512.digest_hex(data), hex::encode(sha2::Sha512::digest(data)));
}

#[test]
fn digest_text_has_two_lowercase_digits_for_each_byte() {
    for (algorithm, bytes) in
        [(HashAlgorithm::Md5, 16), (HashAlgorithm::Sha256, 32), (HashAlgorithm::Sha512, 64)]
    {
        let text = algorithm.digest_hex(b"oat");
        assert_eq!(text.len(), 2 * bytes);
        assert!(text.chars().all(|c| c.is_ascii_digit() || ('a'..='f').contains(&c)));
    }
}

#[test]
fn algorithms_go_by_their_lowercase_names() {
    assert_eq!(HashAlgorithm::from_name("md5"), Some(HashAlgorithm::Md5));
    assert_eq!(HashAlgorithm::from_name("sha256"), Some(HashAlgorithm::Sha256));
    assert_eq!(HashAlgorithm::from_name("sha512"), Some(HashAlgorithm::Sha512));
    assert_eq!(HashAlgorithm::from_name("MD5"), None);
    assert_eq!(HashAlgorithm::from_name("sha1"), None);
    assert_eq!(HashAlgorithm::from_name(""), None);
    assert_eq!(HashAlgorithm::Md5.label_text(), "MD5");
    assert_eq!(HashAlgorithm::Sha256.label_text(), "SHA256");
    assert_eq!(HashAlgorithm::Sha512.label_text(), "SHA512");
}

#[test]
fn text_line_names_the_algorithm_in_capitals() {
    assert_eq!(
        hash_text("hello world", "md5"),
        Ok("MD5: 5eb63bbbe01eeed093cb22bb8f5acdc3".to_string())
    );
    assert_eq!(
        hash_text("hello world", "sha256"),
        Ok("SHA256: b94d27b9934d3e08a52e52d7da7dabfac484efe37a5380ee9088f7ace2efcde9".to_string())
    );
    assert_eq!(
        hash_text("hello world", "sha512"),
        Ok("SHA512: 309ecc489c12d6eb4cc40f50c902f2b4d0ed77ee511a7c7a9bcd3ca86d4cd86f989dd35bc5ff499670da34255b45b0cfd830e81f605dcf7dc5542e93ae9cd76f".to_string())
    );
}

#[test]
fn unknown_algorithm_is_refused() {
    let refused = UnsupportedAlgorithm { name: "crc32".to_string() };
    assert_eq!(refused.message(), "Unsupported algorithm: crc32");
    assert_eq!(hash_text("hello", "crc32"), Err(refused));
    assert_eq!(
        hash_file(b"hello", "a.txt", "SHA256"),
        Err(UnsupportedAlgorithm { name: "SHA256".to_string() })
    );
}

#[test]
fn file_line_names_the_file() {
    assert_eq!(
        hash_file(b"hello world", "notes/a.txt", "md5"),
        Ok("MD5 (notes/a.txt): 5eb63bbbe01eeed093cb22bb8f5acdc3".to_string())
    );
    assert_eq!(
        hash_file(b"", "empty", "sha256"),
        Ok("SHA256 (empty): e3b0c44298fc1c149afbf4c8996fb92427ae41e4649b934ca495991b7852b855"
            .to_string())
    );
}

#[test]
fn report_on_a_text() {
    let lines = hash_text_all("abc");
    assert_eq!(
        lines,
        vec![
            "Input: \"abc\"".to_string(),
            RULE.to_string(),
            "MD5: 900150983cd24fb0d6963f7d28e17f72".to_string(),
            "SHA256: ba7816bf8f01cfea414140de5dae2223b00361a396177a9cb410ff61f20015ad".to_string(),
            "SHA512: ddaf35a193617abacc417349ae20413112e6fa4e89a97ea20a9eeee64b55d39a2192992a274fc1a836ba3c23a3feebbd454d4423643ce80e2a9ac94fa54ca49f".to_string(),
        ]
    );
    assert_eq!(RULE.chars().count(), 49);
}

#[test]
fn report_on_a_file() {
    let lines = hash_file_all(b"hello world", "a.txt");
    assert_eq!(lines.len(), 6);
    assert_eq!(lines[0], "File: a.txt");
    assert_eq!(lines[1], "Size: 11 bytes");
    assert_eq!(lines[2], RULE);
    assert_eq!(lines[3], "MD5 (a.txt): 5eb63bbbe01eeed093cb22bb8f5acdc3");
    assert_eq!(lines[4], hash_file(b"hello world", "a.txt", "sha256").unwrap());
    assert_eq!(lines[5], hash_file(b"hello world", "a.txt", "sha512").unwrap());
    assert_eq!(hash_file_all(b"", "e")[1], "Size: 0 bytes");
}

#[test]
fn arguments_name_a_text_or_a_file() {
    assert_eq!(parse_hash_args(&args(&[])), Err(HashArgError::MissingInput));
    assert_eq!(parse_hash_args(&args(&["--file"])), Err(HashArgError::MissingFilePath));
    assert_eq!(
        parse_hash_args(&args(&["--file", "a.txt"])),
        Ok(HashInput::File("a.txt".to_string()))
    );
    assert_eq!(
        parse_hash_args(&args(&["--file", "a.txt", "more"])),
        Ok(HashInput::File("a.txt".to_string()))
    );
    assert_eq!(parse_hash_args(&args(&["hello"])), Ok(HashInput::Text("hello".to_string())));
    assert_eq!(
        parse_hash_args(&args(&["hello", "big", "world"])),
        Ok(HashInput::Text("hello big world".to_string()))
    );
    assert_eq!(
        parse_hash_args(&args(&["a", "--file", "b"])),
        Ok(HashInput::Text("a --file b".to_string()))
    );
}

#[test]
fn argument_errors_read_as_expected() {
    assert_eq!(
        HashArgError::MissingInput.message(),
        "Please provide text to hash or use --file flag"
    );
    assert_eq!(HashArgError::MissingFilePath.message(), "Please provide a file path after --file");
}
