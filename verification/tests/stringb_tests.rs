use valu3::stringb::{StringB, StringBehavior};

#[test]
fn test_len() {
    let s = StringB::from("Hello");
    assert_eq!(s.len(), 5);
}

#[test]
fn test_is_empty() {
    let s = StringB::from("");
    assert!(s.is_empty());
}

#[test]
fn test_to_uppercase() {
    let s = StringB::from("hello");
    assert_eq!(s.to_uppercase().as_str(), "HELLO");
}

#[test]
fn test_to_lowercase() {
    let s = StringB::from("HELLO");
    assert_eq!(s.to_lowercase().as_str(), "hello");
}

#[test]
fn test_trim() {
    let s = StringB::from("  hello  ");
    assert_eq!(s.trim().as_str(), "hello");
}

#[test]
fn test_replace() {
    let s = StringB::from("hello world");
    assert_eq!(s.replace("world", "planet").as_str(), "hello planet");
}

#[test]
fn test_concat() {
    let s1 = StringB::from("hello");
    let s2 = " world";
    assert_eq!(s1.concat(s2).as_str(), "hello world");
}

#[test]
fn concat_bang_reads_back() {
    assert_eq!(StringB::from("hello").concat("!").as_str(), "hello!");
}

#[test]
fn replace_with_empty_pattern_weaves_the_replacement() {
    let s = StringB::from("ab");
    assert_eq!(s.replace("", "-").as_str(), "-a-b-");
}
