use jaded::class_path::{
    is_plain, ClassPath, CONSECUTIVE_SEPARATORS, NO_NAME, STARTS_WITH_DIGIT,
    STARTS_WITH_SEPARATOR,
};
use jaded::cursor::ByteCursor;
use jaded::error::ClassPathError;

fn strings(items: &[&str]) -> Vec<String> {
    items.iter().map(|s| s.to_string()).collect()
}

fn invalid(identifier: &str, reason: &'static str) -> ClassPathError {
    ClassPathError::InvalidIdentifier { identifier: identifier.to_string(), reason }
}

#[test]
fn class_path_parse() {
    let valid = &[
        "Ljava/lang/String;",
        "Lcom/example/Simple;",
        "Lcom/example/Of$Nested$Class;",
    ];

    // The path grammar itself knows neither the `L` prefix nor the `;`
    // terminator of a type descriptor: a leading `L` belongs to the first
    // segment, and the first character that is neither alphanumeric nor `/`
    // ends the path. So these parse as well.
    let lenient = &[
        "no/l/Prefix;",
        "Lno/semicolon/Suffix",
        "Lempty/child/Name$;",
    ];

    for v in valid {
        assert!(ClassPath::parse(v).is_ok(), "unable to parse");
    }

    for v in lenient {
        assert!(ClassPath::parse(v).is_ok(), "unable to parse");
    }
}

#[test]
fn nested_class_path_has_outer_classes_and_name() {
    let path = ClassPath::parse("com/example/Of$Nested$Class").unwrap();
    assert_eq!(path.package, strings(&["com", "example"]));
    assert_eq!(path.outer_classes, strings(&["Of", "Nested"]));
    assert_eq!(path.name, "Class");
}

#[test]
fn descriptor_prefix_is_part_of_first_segment() {
    let path = ClassPath::parse("Lcom/example/Of$Nested$Class;").unwrap();
    assert_eq!(path.package, strings(&["Lcom", "example"]));
    assert_eq!(path.outer_classes, strings(&["Of", "Nested"]));
    assert_eq!(path.name, "Class");
}

#[test]
fn plain_path_round_trips_in_dotted_rendering() {
    for p in ["java/lang/String", "Simple", "a/b/c/D9", "com/example/x1/Y"] {
        let path = ClassPath::parse(p).unwrap();
        assert!(path.outer_classes.is_empty());
        assert_eq!(path.full_path(), p.replace('/', "."));
    }
}

#[test]
fn renderings_of_a_nested_class() {
    let path = ClassPath::parse("com/example/Of$Nested$Class").unwrap();
    assert_eq!(path.full_path(), "com.example.Of.Nested.Class");
    assert_eq!(path.jar_path(), "com/example/Of$Nested$Class.class");
    assert_eq!(path.package_path(), "com.example");
}

#[test]
fn renderings_without_a_package() {
    let path = ClassPath::parse("Main").unwrap();
    assert_eq!(path.full_path(), "Main");
    assert_eq!(path.jar_path(), "Main.class");
    assert_eq!(path.package_path(), "");
}

#[test]
fn jar_path_of_a_plain_class() {
    let path = ClassPath::parse("java/lang/String").unwrap();
    assert_eq!(path.jar_path(), "java/lang/String.class");
}

#[test]
fn leading_separator_is_rejected() {
    assert_eq!(ClassPath::parse("/java/lang"), Err(invalid("", STARTS_WITH_SEPARATOR)));
}

#[test]
fn doubled_separator_is_rejected() {
    assert_eq!(ClassPath::parse("java//lang"), Err(invalid("", CONSECUTIVE_SEPARATORS)));
}

#[test]
fn digit_led_package_segment_is_rejected() {
    assert_eq!(ClassPath::parse("java/1ang/String"), Err(invalid("1ang", STARTS_WITH_DIGIT)));
}

#[test]
fn digit_led_simple_name_is_accepted() {
    let path = ClassPath::parse("java/lang/9Lives").unwrap();
    assert_eq!(path.name, "9Lives");
}

#[test]
fn empty_path_is_rejected() {
    assert_eq!(ClassPath::parse(""), Err(invalid("", NO_NAME)));
    assert_eq!(ClassPath::parse(";"), Err(invalid("", NO_NAME)));
}

#[test]
fn trailing_separator_is_dropped() {
    let path = ClassPath::parse("java/lang/").unwrap();
    assert_eq!(path.package, strings(&["java"]));
    assert_eq!(path.name, "lang");
}

#[test]
fn empty_nested_suffix_keeps_the_simple_name() {
    let path = ClassPath::parse("empty/child/Name$;").unwrap();
    assert_eq!(path.package, strings(&["empty", "child"]));
    assert!(path.outer_classes.is_empty());
    assert_eq!(path.name, "Name");
}

#[test]
fn empty_nested_segment_is_kept() {
    let path = ClassPath::parse("A$$B").unwrap();
    assert_eq!(path.outer_classes, strings(&["A", ""]));
    assert_eq!(path.name, "B");
}

#[test]
fn underscore_ends_the_path() {
    let path = ClassPath::parse("java/lang/Foo_Bar").unwrap();
    assert_eq!(path.name, "Foo");
}

#[test]
fn bytes_are_read_as_latin_1_characters() {
    // U+00E9 is encoded as C3 A9: the first byte reads as the letter U+00C3,
    // the second as the sign U+00A9, which ends the path.
    let path = ClassPath::parse("caf\u{e9}").unwrap();
    assert_eq!(path.name, "caf\u{c3}");
}

#[test]
fn read_from_consumes_the_terminator() {
    let bytes = b"java/lang/String;I";
    let mut cursor = ByteCursor::new(bytes);
    let path = ClassPath::read_from(&mut cursor).unwrap();
    assert_eq!(path.name, "String");
    assert_eq!(cursor.offset(), 17);
    assert_eq!(cursor.read_u8(), Ok(b'I'));
}

#[test]
fn read_from_consumes_the_nested_suffix() {
    let bytes = b"a/B$C$D;Z";
    let mut cursor = ByteCursor::new(bytes);
    let path = ClassPath::read_from(&mut cursor).unwrap();
    assert_eq!(path.outer_classes, strings(&["B", "C"]));
    assert_eq!(path.name, "D");
    assert_eq!(cursor.offset(), 8);
}

#[test]
fn java_lang_and_object() {
    let object = ClassPath::default();
    assert_eq!(object.full_path(), "java.lang.Object");
    assert!(object.is_in_java_lang());
    assert!(object.is_object());

    let string = ClassPath::java_lang_class("String");
    assert!(string.is_in_java_lang());
    assert!(!string.is_object());

    let other = ClassPath::parse("java/util/Object").unwrap();
    assert!(!other.is_in_java_lang());
    assert!(!other.is_object());

    let nested = ClassPath::parse("java/lang/Object$Inner").unwrap();
    assert!(nested.is_in_java_lang());
    assert!(!nested.is_object());
}

#[test]
fn from_string_splits_without_checks() {
    let path = ClassPath::from_string("com/example/Of$Nested$Class");
    assert_eq!(path.package, strings(&["com", "example"]));
    assert_eq!(path.outer_classes, strings(&["Of", "Nested"]));
    assert_eq!(path.name, "Class");

    let odd = ClassPath::from_string("/a_b");
    assert_eq!(odd.package, strings(&[""]));
    assert!(odd.outer_classes.is_empty());
    assert_eq!(odd.name, "a_b");

    let empty = ClassPath::from_string("");
    assert!(empty.package.is_empty());
    assert_eq!(empty.name, "");
}

#[test]
fn clone_is_equal() {
    let path = ClassPath::parse("com/example/Of$Nested$Class").unwrap();
    assert_eq!(path.clone(), path);
}

#[test]
fn plain_paths_round_trip_in_both_renderings() {
    for p in ["java/lang/String", "Simple", "a/b/c/D9", "com/example/9Lives", "x"] {
        assert!(is_plain(p), "{}", p);
        let path = ClassPath::parse(p).unwrap();
        assert!(path.outer_classes.is_empty());
        assert_eq!(path.full_path(), p.replace('/', "."));
        assert_eq!(path.jar_path(), format!("{}.class", p));
    }
}

#[test]
fn other_texts_are_not_plain() {
    for p in ["", "/", "/a", "a/", "a//b", "1a/B", "a/1b/C", "a_b", "a$B", "a;", "caf\u{e9}", "a b"] {
        assert!(!is_plain(p), "{}", p);
    }
}
