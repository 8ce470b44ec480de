use oat::charset::CharSet;
use oat::classes::CharClass;

fn sorted(set: CharSet) -> Vec<char> {
    let mut chars = set.into_vec();
    chars.sort();
    chars
}

#[test]
fn new_set_is_empty() {
    let set = CharSet::new();
    assert!(set.is_empty());
    assert_eq!(set.len(), 0);
    assert!(!set.contains(&'a'));
    assert!(set.into_vec().is_empty());
}

#[test]
fn insert_tells_whether_the_character_is_new() {
    let mut set = CharSet::new();
    assert!(set.insert('a'));
    assert!(set.insert('b'));
    assert!(!set.insert('a'));
    assert_eq!(set.len(), 2);
    assert!(!set.is_empty());
    assert!(set.contains(&'a'));
    assert!(set.contains(&'b'));
    assert!(!set.contains(&'c'));
}

#[test]
fn remove_tells_whether_the_character_was_there() {
    let mut set = CharSet::from_text("abc");
    assert!(set.remove(&'b'));
    assert!(!set.remove(&'b'));
    assert!(!set.remove(&'z'));
    assert_eq!(sorted(set), vec!['a', 'c']);
}

#[test]
fn text_gives_its_characters_once() {
    let set = CharSet::from_text("hello, hello");
    assert_eq!(set.len(), 6);
    assert_eq!(sorted(set), vec![' ', ',', 'e', 'h', 'l', 'o']);
}

#[test]
fn extend_is_union() {
    let mut set = CharSet::from_text("abc");
    set.extend(&CharSet::from_text("cde"));
    set.extend_from_str("eff");
    assert_eq!(sorted(set), vec!['a', 'b', 'c', 'd', 'e', 'f']);
}

#[test]
fn remove_all_is_difference() {
    let mut set = CharSet::from_text("abcdef");
    set.remove_all(&CharSet::from_text("bdx"));
    set.remove_chars("ffa");
    assert_eq!(sorted(set), vec!['c', 'e']);
}

#[test]
fn any_looks_for_a_character_of_a_class() {
    let set = CharSet::from_text("ab1");
    assert!(set.any(CharClass::Lowercase));
    assert!(set.any(CharClass::Digit));
    assert!(!set.any(CharClass::Uppercase));
    assert!(!set.any(CharClass::Symbol));
    assert!(!CharSet::new().any(CharClass::Lowercase));
}

#[test]
fn classes_follow_ascii() {
    assert!(CharClass::Uppercase.matches('A') && CharClass::Uppercase.matches('Z'));
    assert!(!CharClass::Uppercase.matches('a') && !CharClass::Uppercase.matches('['));
    assert!(!CharClass::Uppercase.matches('@') && !CharClass::Uppercase.matches('É'));
    assert!(CharClass::Lowercase.matches('a') && CharClass::Lowercase.matches('z'));
    assert!(!CharClass::Lowercase.matches('`') && !CharClass::Lowercase.matches('{'));
    assert!(!CharClass::Lowercase.matches('é'));
    assert!(CharClass::Digit.matches('0') && CharClass::Digit.matches('9'));
    assert!(!CharClass::Digit.matches('/') && !CharClass::Digit.matches(':'));
    assert!(CharClass::Symbol.matches('!') && CharClass::Symbol.matches(' '));
    assert!(CharClass::Symbol.matches('é') && CharClass::Symbol.matches('漢'));
    assert!(!CharClass::Symbol.matches('a') && !CharClass::Symbol.matches('Q'));
    assert!(!CharClass::Symbol.matches('5'));
}

#[test]
fn classes_agree_with_std_on_all_of_ascii() {
    for code in 0u8..128 {
        let c = code as char;
        assert_eq!(CharClass::Uppercase.matches(c), c.is_ascii_uppercase());
        assert_eq!(CharClass::Lowercase.matches(c), c.is_ascii_lowercase());
        assert_eq!(CharClass::Digit.matches(c), c.is_ascii_digit());
        assert_eq!(CharClass::Symbol.matches(c), !c.is_ascii_alphanumeric());
    }
}
