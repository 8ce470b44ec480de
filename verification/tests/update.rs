use oat::update::{get_target_triple, UpdateError};

#[test]
fn triple_for_each_published_platform() {
    assert_eq!(get_target_triple("macos", "x86_64"), "x86_64-apple-darwin");
    assert_eq!(get_target_triple("macos", "aarch64"), "aarch64-apple-darwin");
    assert_eq!(get_target_triple("linux", "x86_64"), "x86_64-unknown-linux-gnu");
    assert_eq!(get_target_triple("linux", "aarch64"), "aarch64-unknown-linux-gnu");
    assert_eq!(get_target_triple("windows", "x86_64"), "x86_64-pc-windows-msvc");
    assert_eq!(get_target_triple("windows", "aarch64"), "aarch64-pc-windows-msvc");
}

#[test]
fn other_platforms_fall_back_to_linux_on_x86_64() {
    assert_eq!(get_target_triple("freebsd", "x86_64"), "x86_64-unknown-linux-gnu");
    assert_eq!(get_target_triple("linux", "riscv64"), "x86_64-unknown-linux-gnu");
    assert_eq!(get_target_triple("", ""), "x86_64-unknown-linux-gnu");
    assert_eq!(get_target_triple("Linux", "aarch64"), "x86_64-unknown-linux-gnu");
}

#[test]
fn update_errors_read_as_expected() {
    assert_eq!(UpdateError::NetworkError("timed out".to_string()).message(), "Network error: timed out");
    assert_eq!(UpdateError::ParseError("bad json".to_string()).message(), "Parse error: bad json");
    assert_eq!(UpdateError::UpdateError("no asset".to_string()).message(), "Update error: no asset");
    assert_eq!(UpdateError::NoUpdateNeeded.message(), "No update needed");
    assert_eq!(UpdateError::ParseError(String::new()).message(), "Parse error: ");
}
