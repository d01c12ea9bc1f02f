use jaded::file::jar::{is_class_entry, Jar};
use jaded::file::manifest::{text_lines, Attributes, Manifest, ManifestParseError};

const TEXT: &str = "Manifest-Version: 1.0\r\nMain-Class: com.example.Main\r\nClass-Path: a.jar\r\n  b.jar\r\n# a comment\r\n\r\nName: com/example/\r\nSealed: true\r\n";

#[test]
fn lines_end_at_line_feeds() {
    assert_eq!(text_lines("a\nb\r\nc"), vec!["a", "b", "c"]);
    assert_eq!(text_lines("a\n"), vec!["a"]);
    assert_eq!(text_lines("a\n\n"), vec!["a", ""]);
    assert_eq!(text_lines(""), Vec::<String>::new());
    assert_eq!(text_lines("\n"), vec![""]);
    assert_eq!(text_lines("a\r"), vec!["a\r"]);
    assert_eq!(text_lines("a\r\r\nb"), vec!["a\r", "b"]);
}

#[test]
fn manifest_with_one_entry() {
    let manifest = Manifest::read_from(TEXT).unwrap();
    assert_eq!(manifest.get("Manifest-Version"), Some("1.0"));
    assert_eq!(manifest.get("Main-Class"), Some("com.example.Main"));
    assert_eq!(manifest.get("Class-Path"), Some("a.jar b.jar"));
    assert_eq!(manifest.get("Name"), None);
    assert_eq!(manifest.get("Sealed"), None);
    assert_eq!(manifest.entry_get("com/example/", "Sealed"), Some("true"));
    assert_eq!(manifest.entry_get("com/example/", "Name"), Some("com/example/"));
    // The attributes of the main section are carried into every entry.
    assert_eq!(manifest.entry_get("com/example/", "Main-Class"), Some("com.example.Main"));
    assert_eq!(manifest.entry_get("com/example/", "Missing"), None);
    assert_eq!(manifest.entry_get("missing", "Sealed"), None);
    assert_eq!(manifest.entries.len(), 1);
}

#[test]
fn main_section_alone() {
    let manifest = Manifest::read_from("A: 1\nB: 2").unwrap();
    assert_eq!(manifest.get("A"), Some("1"));
    assert_eq!(manifest.get("B"), Some("2"));
    assert!(manifest.entries.is_empty());
    let empty = Manifest::read_from("").unwrap();
    assert_eq!(empty.get("A"), None);
    assert!(empty.main_section.entries.is_empty());
}

#[test]
fn later_value_replaces_earlier() {
    let manifest = Manifest::read_from("A: 1\nA: 2\n").unwrap();
    assert_eq!(manifest.get("A"), Some("2"));
    assert_eq!(manifest.main_section.entries.len(), 1);
}

#[test]
fn further_separators_are_left_out_of_the_value() {
    let manifest = Manifest::read_from("Key: a: b: c\nPlain\nOdd:x\n").unwrap();
    assert_eq!(manifest.get("Key"), Some("abc"));
    assert_eq!(manifest.get("Plain"), Some(""));
    assert_eq!(manifest.get("Odd:x"), Some(""));
}

#[test]
fn misplaced_continuation_is_rejected() {
    assert_eq!(
        Manifest::read_from(" continued\nA: 1\n"),
        Err(ManifestParseError::MisplacedContinuation)
    );
}

#[test]
fn entry_without_name_is_rejected() {
    assert_eq!(Manifest::read_from("A: 1\n\nB: 2\n"), Err(ManifestParseError::InvalidEntry));
    assert_eq!(Manifest::read_from("A: 1\n\n\n"), Err(ManifestParseError::InvalidEntry));
}

#[test]
fn lines_can_be_given_directly() {
    let lines = vec!["Name: x".to_string(), String::new(), "Name: y".to_string()];
    let manifest = Manifest::parse_lines(&lines).unwrap();
    assert_eq!(manifest.get("Name"), Some("x"));
    assert_eq!(manifest.entry_get("y", "Name"), Some("y"));
}

#[test]
fn attributes_are_an_ordered_map() {
    let mut attributes = Attributes::new();
    assert_eq!(attributes.get("a"), None);
    attributes.insert("a".to_string(), "1".to_string());
    attributes.insert("b".to_string(), "2".to_string());
    attributes.insert("a".to_string(), "3".to_string());
    assert_eq!(attributes.get("a"), Some("3"));
    assert_eq!(attributes.get("b"), Some("2"));
    assert_eq!(attributes.entries.len(), 2);
    assert_eq!(attributes.copy(), attributes);
}

#[test]
fn class_entries_end_in_class() {
    assert!(is_class_entry("com/example/Main.class"));
    assert!(is_class_entry(".class"));
    assert!(!is_class_entry("class"));
    assert!(!is_class_entry("META-INF/MANIFEST.MF"));
    assert!(!is_class_entry("com/example/"));
    assert!(!is_class_entry("Main.class.bak"));
    assert!(!is_class_entry(""));
    assert!(is_class_entry("\u{e9}t\u{e9}.class"));
}

#[test]
fn walk_over_the_entries() {
    let jar = Jar { path: "a.jar".to_string(), manifest: None, main_class: None, file_count: 3 };
    let mut classes = jar.classes();
    assert_eq!(classes.last, 2);
    assert_eq!(classes.next_index(), Some(0));
    assert_eq!(classes.next_index(), Some(1));
    assert_eq!(classes.next_index(), Some(2));
    assert_eq!(classes.next_index(), None);
    assert_eq!(classes.next_index(), None);
    assert_eq!(classes.current, 3);
}
