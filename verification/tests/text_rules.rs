use aegis_application::runtime::paths::relative_path;
use aegis_application::runtime::text::{is_identifier, is_sha256};

#[test]
fn relative_paths_accepted() {
    for path in ["a", "a/b.txt", ".hidden", "...", "a/.b/c..", "é/ü"] {
        assert_eq!(relative_path(path), Some(path), "{path}");
    }
    let longest = "a".repeat(512);
    assert_eq!(relative_path(&longest), Some(longest.as_str()));
}

#[test]
fn relative_paths_refused() {
    for path in [
        "", ".", "..", "a/../b", "a/./b", "a/", "/a", "a//b", "a:b", "c:\\x", "a\\b", "a\nb",
        "a\rb", "a\0b", "../x", "x/..",
    ] {
        assert_eq!(relative_path(path), None, "{path:?}");
    }
    assert_eq!(relative_path(&"a".repeat(513)), None);
    assert_eq!(relative_path(&"é".repeat(257)), None);
}

#[test]
fn identifiers() {
    assert!(is_identifier("run-001_A"));
    assert!(is_identifier(&"z".repeat(128)));
    assert!(!is_identifier(&"z".repeat(129)));
    assert!(!is_identifier(""));
    assert!(!is_identifier("a b"));
    assert!(!is_identifier("a.b"));
    assert!(!is_identifier("é"));
}

#[test]
fn sha256_digests() {
    assert!(is_sha256(&"aB0".repeat(21).chars().chain("f".chars()).collect::<String>()));
    assert!(!is_sha256(&"a".repeat(63)));
    assert!(!is_sha256(&"a".repeat(65)));
    assert!(!is_sha256(&format!("{}g", "a".repeat(63))));
}
