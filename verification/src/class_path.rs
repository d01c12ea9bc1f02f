//! Qualified class names: the name-path grammar and its renderings.

use crate::cursor::{result_view, ByteCursor};
use crate::constant::{Constant, ConstantTag, ConstantView};
use crate::error::{ClassPathError, ClassPathErrorView, ConstantPoolError};
use crate::text::{
    byte_char, char_is_alphanumeric, char_is_numeric, chars_of, clone_strings, is_alphanumeric,
    is_ascii_digit, is_ascii_letter, is_numeric,
    join, join_strings, lemma_split_not_empty, push_char, spec_split, split, str_eq, strings_eq,
    strings_view,
};
use vstd::prelude::*;
use vstd::utf8::{encode_utf8, is_ascii_chars, is_ascii_chars_encode_utf8};

verus! {

/// Why a path that starts with `/` is rejected.
pub const STARTS_WITH_SEPARATOR: &'static str = "class path starts with a separator ('/')";

/// Why a path that holds `//` is rejected.
pub const CONSECUTIVE_SEPARATORS: &'static str =
    "class path contains two consecutive separators (\"//\")";

/// Why a package segment that starts with a digit is rejected.
pub const STARTS_WITH_DIGIT: &'static str =
    "class path and name (identifiers) can't start with a digit";

/// Why a path without any segment is rejected.
pub const NO_NAME: &'static str = "class path holds no name";

/// A parsed qualified class name: package segments, the enclosing classes of
/// a nested type from the outermost inwards, and the simple name.
#[derive(Debug, PartialEq, Eq, Hash)]
pub struct ClassPath {
    pub package: Vec<String>,
    pub outer_classes: Vec<String>,
    pub name: String,
}

/// The mathematical value of a [`ClassPath`].
pub struct ClassPathView {
    pub package: Seq<Seq<char>>,
    pub outer_classes: Seq<Seq<char>>,
    pub name: Seq<char>,
}

impl View for ClassPath {
    type V = ClassPathView;

    open spec fn view(&self) -> ClassPathView {
        ClassPathView {
            package: strings_view(self.package@),
            outer_classes: strings_view(self.outer_classes@),
            name: self.name@,
        }
    }
}

/// What the scan of the package part of a path yields: the segments met, and
/// whether the scan stopped at a `$`, which opens the nested-class suffix.
pub struct PathScan {
    pub tokens: Seq<Seq<char>>,
    pub nested: bool,
}

/// `list` with `token` added at its end, unless `token` is empty.
pub open spec fn close_token(list: Seq<Seq<char>>, token: Seq<char>) -> Seq<Seq<char>> {
    if token.len() > 0 {
        list.push(token)
    } else {
        list
    }
}

/// Outcome and next position of scanning the package part of a path from
/// `pos`, with the segments `tokens` closed so far and `token` open.
///
/// Alphanumeric characters extend the open segment. A `/` closes it, and
/// fails when it is empty or starts with a numeric character. Any other
/// character, or the end of the input, ends the scan and closes the open
/// segment if it is not empty.
pub open spec fn spec_scan_path(
    s: Seq<u8>,
    pos: int,
    tokens: Seq<Seq<char>>,
    token: Seq<char>,
) -> (Result<PathScan, ClassPathErrorView>, int)
    decreases s.len() - pos,
{
    if !(0 <= pos < s.len()) {
        (Ok(PathScan { tokens: close_token(tokens, token), nested: false }), s.len() as int)
    } else {
        let c = byte_char(s[pos]);
        if !char_is_alphanumeric(c) && c != '/' {
            (Ok(PathScan { tokens: close_token(tokens, token), nested: c == '$' }), pos + 1)
        } else if c != '/' {
            spec_scan_path(s, pos + 1, tokens, token.push(c))
        } else if token.len() == 0 {
            (
                Err(
                    ClassPathErrorView::InvalidIdentifier {
                        identifier: token,
                        reason: if tokens.len() == 0 {
                            STARTS_WITH_SEPARATOR@
                        } else {
                            CONSECUTIVE_SEPARATORS@
                        },
                    },
                ),
                pos + 1,
            )
        } else if char_is_numeric(token[0]) {
            (
                Err(
                    ClassPathErrorView::InvalidIdentifier {
                        identifier: token,
                        reason: STARTS_WITH_DIGIT@,
                    },
                ),
                pos + 1,
            )
        } else {
            spec_scan_path(s, pos + 1, tokens.push(token), Seq::empty())
        }
    }
}

/// The class names and next position of scanning the nested-class suffix of
/// a path from `pos`, with the names `classes` closed so far and `inner`
/// open.
///
/// A `$` closes the open name, alphanumeric characters extend it, and any
/// other character, or the end of the input, ends the scan and closes the
/// open name if it is not empty.
pub open spec fn spec_scan_nested(
    s: Seq<u8>,
    pos: int,
    classes: Seq<Seq<char>>,
    inner: Seq<char>,
) -> (Seq<Seq<char>>, int)
    decreases s.len() - pos,
{
    if !(0 <= pos < s.len()) {
        (close_token(classes, inner), s.len() as int)
    } else {
        let c = byte_char(s[pos]);
        if c == '$' {
            spec_scan_nested(s, pos + 1, classes.push(inner), Seq::empty())
        } else if char_is_alphanumeric(c) {
            spec_scan_nested(s, pos + 1, classes, inner.push(c))
        } else {
            (close_token(classes, inner), pos + 1)
        }
    }
}

/// Outcome and next position of decoding a class path at `pos`.
///
/// The segments before the last one are the package. The last segment is the
/// simple name, unless the scan stopped at a `$`: then it and the names of
/// the suffix are the class names from the outermost inwards, of which the
/// last is the simple name and the others are the enclosing classes. A path
/// without any segment is rejected.
pub open spec fn spec_read_class_path(s: Seq<u8>, pos: int) -> (
    Result<ClassPathView, ClassPathErrorView>,
    int,
) {
    match spec_scan_path(s, pos, Seq::empty(), Seq::empty()) {
        (Err(e), p) => (Err(e), p),
        (Ok(scan), p) => if scan.tokens.len() == 0 {
            (
                Err(
                    ClassPathErrorView::InvalidIdentifier {
                        identifier: Seq::empty(),
                        reason: NO_NAME@,
                    },
                ),
                p,
            )
        } else if scan.nested {
            let suffix = spec_scan_nested(s, p, seq![scan.tokens.last()], Seq::empty());
            (
                Ok(
                    ClassPathView {
                        package: scan.tokens.drop_last(),
                        outer_classes: suffix.0.drop_last(),
                        name: suffix.0.last(),
                    },
                ),
                suffix.1,
            )
        } else {
            (
                Ok(
                    ClassPathView {
                        package: scan.tokens.drop_last(),
                        outer_classes: Seq::empty(),
                        name: scan.tokens.last(),
                    },
                ),
                p,
            )
        },
    }
}

/// The class path that the text `name` spells: the path decoded from the
/// start of its UTF-8 bytes.
pub open spec fn spec_parse_class_path(name: Seq<char>) -> Result<
    ClassPathView,
    ClassPathErrorView,
> {
    spec_read_class_path(encode_utf8(name), 0).0
}

/// The class path that the constant `value` spells: the path parsed from
/// the text of a UTF-8 constant.
pub open spec fn spec_path_of_constant(value: ConstantView) -> Result<
    ClassPathView,
    ClassPathErrorView,
> {
    match value {
        ConstantView::Utf8 { value } => spec_parse_class_path(value),
        other => Err(
            ClassPathErrorView::ConstantPool(
                ConstantPoolError::UnexpectedType {
                    found: other.tag(),
                    expected: ConstantTag::Utf8,
                },
            ),
        ),
    }
}

impl ClassPathView {
    /// The package segments joined by `.`.
    pub open spec fn package_path(self) -> Seq<char> {
        join(self.package, "."@)
    }

    /// The class names from the outermost inwards, ending in the simple name.
    pub open spec fn class_names(self) -> Seq<Seq<char>> {
        self.outer_classes.push(self.name)
    }

    /// The dotted rendering: the package path, a `.` after it unless it is
    /// empty, and the class names joined by `.`.
    pub open spec fn full_path(self) -> Seq<char> {
        let package = self.package_path();
        let prefix = if package.len() > 0 {
            package + "."@
        } else {
            package
        };
        prefix + join(self.class_names(), "."@)
    }

    /// The archive rendering: the package segments joined by `/`, a `/`
    /// after them unless there are none, the class names joined by `$`, and
    /// `.class`.
    pub open spec fn jar_path(self) -> Seq<char> {
        let package = join(self.package, "/"@);
        let prefix = if package.len() > 0 {
            package + "/"@
        } else {
            package
        };
        prefix + join(self.class_names(), "$"@) + ".class"@
    }

    /// Whether the package is `java.lang`.
    pub open spec fn is_in_java_lang(self) -> bool {
        self.package == seq!["java"@, "lang"@]
    }

    /// Whether the path names `java.lang.Object`.
    pub open spec fn is_object(self) -> bool {
        self.is_in_java_lang() && self.outer_classes.len() == 0 && self.name == "Object"@
    }

    /// The top-level class `name` of the package `java.lang`.
    pub open spec fn java_lang_class(name: Seq<char>) -> ClassPathView {
        ClassPathView { package: seq!["java"@, "lang"@], outer_classes: Seq::empty(), name }
    }
}

impl Clone for ClassPath {
    fn clone(&self) -> (r: ClassPath)
        ensures
            r@ == self@,
    {
        ClassPath {
            package: clone_strings(&self.package),
            outer_classes: clone_strings(&self.outer_classes),
            name: self.name.clone(),
        }
    }
}

impl Default for ClassPath {
    /// The root object type, `java.lang.Object`.
    fn default() -> (r: ClassPath)
        ensures
            r@ == ClassPathView::java_lang_class("Object"@),
    {
        ClassPath::java_lang_class("Object")
    }
}

impl ClassPath {
    /// Decodes a class path from the cursor.
    ///
    /// Alphanumeric bytes extend the current segment and `/` closes it as a
    /// package segment. The first other byte ends the path and is consumed;
    /// if it is `$`, a nested-class suffix of `$`-separated names follows, up
    /// to and including the next byte that is neither alphanumeric nor `$`.
    /// Fails on an empty or digit-led package segment and on a path without
    /// any segment.
    pub fn read_from(r: &mut ByteCursor) -> (out: Result<ClassPath, ClassPathError>)
        ensures
            final(r).bytes() == old(r).bytes(),
            (result_view(out), final(r).position()) == spec_read_class_path(
                old(r).bytes(),
                old(r).position(),
            ),
    {
        let ghost s = r.bytes();
        let ghost start = r.position();
        let mut path_tokens: Vec<String> = Vec::new();
        let mut token = String::new();
        let mut nested = false;
        assert(strings_view(path_tokens@) =~= Seq::empty());
        loop
            invariant_except_break
                r.bytes() == s,
                s == old(r).bytes(),
                start == old(r).position(),
                spec_scan_path(s, start, Seq::empty(), Seq::empty()) == spec_scan_path(
                    s,
                    r.position(),
                    strings_view(path_tokens@),
                    token@,
                ),
            ensures
                r.bytes() == s,
                spec_scan_path(s, start, Seq::empty(), Seq::empty()) == (
                    Ok::<PathScan, ClassPathErrorView>(
                        PathScan {
                            tokens: close_token(strings_view(path_tokens@), token@),
                            nested,
                        },
                    ),
                    r.position(),
                ),
            decreases r.remaining(),
        {
            let byte = match r.read_u8() {
                Ok(b) => b,
                Err(_) => {
                    nested = false;
                    break ;
                },
            };
            let curr = byte as char;
            if !is_alphanumeric(curr) && curr != '/' {
                nested = curr == '$';
                break ;
            }
            if curr != '/' {
                push_char(&mut token, curr);
                continue ;
            }
            if token.as_str().is_empty() {
                let reason = if path_tokens.len() == 0 {
                    STARTS_WITH_SEPARATOR
                } else {
                    CONSECUTIVE_SEPARATORS
                };
                return Err(ClassPathError::InvalidIdentifier { identifier: token, reason });
            }
            if is_numeric(token.as_str().get_char(0)) {
                return Err(
                    ClassPathError::InvalidIdentifier {
                        identifier: token,
                        reason: STARTS_WITH_DIGIT,
                    },
                );
            }
            let ghost before = path_tokens@;
            path_tokens.push(token);
            token = String::new();
            assert(strings_view(path_tokens@) =~= strings_view(before).push(
                path_tokens@.last()@,
            ));
        }
        if !token.as_str().is_empty() {
            let ghost before = path_tokens@;
            path_tokens.push(token);
            assert(strings_view(path_tokens@) =~= strings_view(before).push(
                path_tokens@.last()@,
            ));
        }
        let name = match path_tokens.pop() {
            Some(name) => name,
            None => {
                return Err(
                    ClassPathError::InvalidIdentifier {
                        identifier: String::new(),
                        reason: NO_NAME,
                    },
                );
            },
        };
        let ghost tokens = spec_scan_path(s, start, Seq::empty(), Seq::empty()).0->Ok_0.tokens;
        assert(strings_view(path_tokens@) =~= tokens.drop_last());
        if !nested {
            let outer_classes: Vec<String> = Vec::new();
            return Ok(ClassPath { package: path_tokens, outer_classes, name });
        }
        let ghost from = r.position();
        let mut classes: Vec<String> = Vec::new();
        classes.push(name);
        let mut inner = String::new();
        assert(strings_view(classes@) =~= seq![tokens.last()]);
        loop
            invariant_except_break
                r.bytes() == s,
                classes@.len() >= 1,
                spec_scan_nested(s, from, seq![tokens.last()], Seq::empty()) == spec_scan_nested(
                    s,
                    r.position(),
                    strings_view(classes@),
                    inner@,
                ),
            ensures
                r.bytes() == s,
                classes@.len() >= 1,
                spec_scan_nested(s, from, seq![tokens.last()], Seq::empty()) == (
                    close_token(strings_view(classes@), inner@),
                    r.position(),
                ),
            decreases r.remaining(),
        {
            let byte = match r.read_u8() {
                Ok(b) => b,
                Err(_) => {
                    break ;
                },
            };
            let curr = byte as char;
            if curr == '$' {
                let ghost before = classes@;
                classes.push(inner);
                inner = String::new();
                assert(strings_view(classes@) =~= strings_view(before).push(classes@.last()@));
            } else if is_alphanumeric(curr) {
                push_char(&mut inner, curr);
            } else {
                break ;
            }
        }
        if !inner.as_str().is_empty() {
            let ghost before = classes@;
            classes.push(inner);
            assert(strings_view(classes@) =~= strings_view(before).push(classes@.last()@));
        }
        let ghost names = strings_view(classes@);
        let name = match classes.pop() {
            Some(name) => name,
            None => vstd::pervasive::unreached(),
        };
        assert(strings_view(classes@) =~= names.drop_last());
        Ok(ClassPath { package: path_tokens, outer_classes: classes, name })
    }

    /// Splits `name` into a class path without checking it: the pieces
    /// between `/` are the package and the class, and the pieces of the class
    /// between `$` are the enclosing classes and the simple name.
    pub fn from_string(name: &str) -> (r: ClassPath)
        ensures
            r@ == spec_split_class_path(name@),
    {
        let mut package = split(name, '/');
        let class = match package.pop() {
            Some(class) => class,
            None => {
                proof {
                    lemma_split_not_empty(name@, '/', 0, Seq::empty(), Seq::empty());
                }
                vstd::pervasive::unreached()
            },
        };
        let ghost segments = spec_split(name@, '/');
        assert(strings_view(package@) =~= segments.drop_last());
        let mut outer_classes = split(class.as_str(), '$');
        let name = match outer_classes.pop() {
            Some(name) => name,
            None => {
                proof {
                    lemma_split_not_empty(class@, '$', 0, Seq::empty(), Seq::empty());
                }
                vstd::pervasive::unreached()
            },
        };
        assert(strings_view(outer_classes@) =~= spec_split(segments.last(), '$').drop_last());
        ClassPath { package, outer_classes, name }
    }

    /// Parses the class path that `name` spells, from the start of its UTF-8
    /// bytes; what follows the path is ignored.
    pub fn parse(name: &str) -> (out: Result<ClassPath, ClassPathError>)
        ensures
            result_view(out) == spec_parse_class_path(name@),
    {
        let mut cursor = ByteCursor::new(name.as_bytes());
        ClassPath::read_from(&mut cursor)
    }

    /// The class path that the text constant `value` spells; a constant of
    /// another kind is an unexpected-type failure.
    pub fn from_constant(value: &Constant) -> (out: Result<ClassPath, ClassPathError>)
        ensures
            result_view(out) == spec_path_of_constant(value@),
    {
        match value {
            Constant::Utf8 { value } => ClassPath::parse(value.as_str()),
            other => Err(
                ClassPathError::ConstantPool(
                    ConstantPoolError::UnexpectedType {
                        found: other.tag(),
                        expected: ConstantTag::Utf8,
                    },
                ),
            ),
        }
    }

    /// The package segments joined by `.`.
    pub fn package_path(&self) -> (r: String)
        ensures
            r@ == self@.package_path(),
    {
        join_strings(&self.package, ".")
    }

    /// The class names from the outermost inwards, ending in the simple name.
    fn class_names(&self) -> (r: Vec<String>)
        ensures
            strings_view(r@) == self@.class_names(),
    {
        let mut names = clone_strings(&self.outer_classes);
        names.push(self.name.clone());
        names
    }

    /// The archive rendering: the package segments joined by `/`, a `/`
    /// after them unless there are none, the class names joined by `$`, and
    /// `.class`.
    pub fn jar_path(&self) -> (r: String)
        ensures
            r@ == self@.jar_path(),
    {
        let mut builder = join_strings(&self.package, "/");
        if !builder.as_str().is_empty() {
            builder.append("/");
        }
        let names = self.class_names();
        let classes = join_strings(&names, "$");
        builder.append(classes.as_str());
        builder.append(".class");
        builder
    }

    /// The dotted rendering: the package path, a `.` after it unless it is
    /// empty, and the class names joined by `.`.
    pub fn full_path(&self) -> (r: String)
        ensures
            r@ == self@.full_path(),
    {
        let mut builder = join_strings(&self.package, ".");
        if !builder.as_str().is_empty() {
            builder.append(".");
        }
        let names = self.class_names();
        let classes = join_strings(&names, ".");
        builder.append(classes.as_str());
        builder
    }

    /// Whether the package is `java.lang`.
    pub fn is_in_java_lang(&self) -> (r: bool)
        ensures
            r == self@.is_in_java_lang(),
    {
        if self.package.len() != 2 {
            assert(seq!["java"@, "lang"@].len() == 2);
            return false;
        }
        let r = str_eq(self.package[0].as_str(), "java") && str_eq(
            self.package[1].as_str(),
            "lang",
        );
        proof {
            let want = seq!["java"@, "lang"@];
            let have = strings_view(self.package@);
            if r {
                assert(have =~= want);
            }
        }
        r
    }

    /// Whether the path names `java.lang.Object`.
    pub fn is_object(&self) -> (r: bool)
        ensures
            r == self@.is_object(),
    {
        self.is_in_java_lang() && self.outer_classes.len() == 0 && str_eq(
            self.name.as_str(),
            "Object",
        )
    }

    /// Whether `other` is the same class path.
    pub fn same_as(&self, other: &ClassPath) -> (r: bool)
        ensures
            r == (self@ == other@),
    {
        strings_eq(&self.package, &other.package) && strings_eq(
            &self.outer_classes,
            &other.outer_classes,
        ) && str_eq(self.name.as_str(), other.name.as_str())
    }

    /// The top-level class `name` of the package `java.lang`.
    pub fn java_lang_class(name: &str) -> (r: ClassPath)
        ensures
            r@ == ClassPathView::java_lang_class(name@),
    {
        let mut package: Vec<String> = Vec::new();
        package.push("java".to_owned());
        package.push("lang".to_owned());
        let outer_classes: Vec<String> = Vec::new();
        let r = ClassPath { package, outer_classes, name: name.to_owned() };
        assert(r@.package =~= seq!["java"@, "lang"@]);
        assert(r@.outer_classes =~= Seq::empty());
        r
    }
}

/// The class path that splitting `name` gives, without any check: the
/// pieces between `/` are the package and the class, and the pieces of the
/// class between `$` are the enclosing classes and the simple name.
pub open spec fn spec_split_class_path(name: Seq<char>) -> ClassPathView {
    let segments = spec_split(name, '/');
    let names = spec_split(segments.last(), '$');
    ClassPathView {
        package: segments.drop_last(),
        outer_classes: names.drop_last(),
        name: names.last(),
    }
}

/// The text `p` with every `/` replaced by `x`.
pub open spec fn separated(p: Seq<char>, x: char) -> Seq<char> {
    p.map_values(
        |c: char|
            if c == '/' {
                x
            } else {
                c
            },
    )
}

/// The text `p` with every `/` replaced by `.`.
pub open spec fn dotted(p: Seq<char>) -> Seq<char> {
    separated(p, '.')
}

/// Whether a segment of `p` starts at index `i`.
pub open spec fn starts_segment(p: Seq<char>, i: int) -> bool {
    i == 0 || p[i - 1] == '/'
}

/// Whether `p` is a class path without nested classes in its plainest form:
/// ASCII text made of alphanumeric characters and `/`, not empty, without a
/// `/` at either end or next to another, and without a numeric character at
/// the start of a package segment.
pub open spec fn is_plain_class_path(p: Seq<char>) -> bool {
    &&& p.len() > 0
    &&& is_ascii_chars(p)
    &&& forall|i: int| 0 <= i < p.len() ==> p[i] == '/' || char_is_alphanumeric(#[trigger] p[i])
    &&& p[0] != '/'
    &&& p.last() != '/'
    &&& forall|i: int| 0 < i < p.len() ==> !(p[i - 1] == '/' && #[trigger] p[i] == '/')
    &&& forall|i: int, j: int|
        0 <= i < j < p.len() && starts_segment(p, i) && #[trigger] p[j] == '/'
            ==> !char_is_numeric(#[trigger] p[i])
}

/// The same in ASCII terms alone: text made of ASCII letters, ASCII digits
/// and `/`, not empty, without a `/` at either end or next to another, and
/// without a digit at the start of a package segment.
pub open spec fn is_plain_ascii(p: Seq<char>) -> bool {
    &&& p.len() > 0
    &&& forall|i: int|
        0 <= i < p.len() ==> #[trigger] p[i] == '/' || is_ascii_letter(p[i]) || is_ascii_digit(
            p[i],
        )
    &&& p[0] != '/'
    &&& p.last() != '/'
    &&& forall|i: int| 0 < i < p.len() ==> !(p[i - 1] == '/' && #[trigger] p[i] == '/')
    &&& forall|i: int, j: int|
        0 <= i < j < p.len() && starts_segment(p, i) && #[trigger] p[j] == '/' ==> !is_ascii_digit(
            #[trigger] p[i],
        )
}

/// Whether `p` is found again in both renderings of what it parses to:
/// parsing succeeds and finds no enclosing classes, the dotted rendering is
/// `p` with `.` in place of every `/`, and the archive rendering is `p`
/// followed by `.class`.
pub open spec fn round_trips(p: Seq<char>) -> bool {
    spec_parse_class_path(p) matches Ok(path) && path.outer_classes.len() == 0
        && path.full_path() == dotted(p) && path.jar_path() == p + ".class"@
}

/// Adding a character to the last segment adds it to the joined text.
proof fn lemma_join_push_char(parts: Seq<Seq<char>>, last: Seq<char>, sep: Seq<char>, c: char)
    ensures
        join(parts.push(last.push(c)), sep) == join(parts.push(last), sep).push(c),
{
    let a = parts.push(last.push(c));
    let b = parts.push(last);
    assert(a.drop_last() =~= parts);
    assert(b.drop_last() =~= parts);
    assert(join(a, sep) =~= join(b, sep).push(c));
}

/// Opening a new, empty segment adds the separator to the joined text.
proof fn lemma_join_push_empty(parts: Seq<Seq<char>>, sep: Seq<char>)
    requires
        parts.len() > 0,
    ensures
        join(parts.push(Seq::empty()), sep) == join(parts, sep) + sep,
{
    let a = parts.push(Seq::<char>::empty());
    assert(a.drop_last() =~= parts);
    assert(join(a, sep) =~= join(parts, sep) + sep);
}

/// Segments that are not empty join to a text that is not empty.
proof fn lemma_join_not_empty(parts: Seq<Seq<char>>, sep: Seq<char>)
    requires
        parts.len() > 0,
        forall|i: int| 0 <= i < parts.len() ==> (#[trigger] parts[i]).len() > 0,
    ensures
        join(parts, sep).len() > 0,
{
    if parts.len() > 1 {
        assert(join(parts, sep) == join(parts.drop_last(), sep) + sep + parts.last());
        assert(parts.last().len() > 0);
    }
}

/// The scan of a plain class path: from any position, with the segments
/// closed so far and the open segment spelling the text read so far, it
/// reaches the end, and its segments joined by `x` spell the whole text with
/// `x` in place of every `/`.
proof fn lemma_scan_plain_path(
    s: Seq<u8>,
    p: Seq<char>,
    pos: int,
    tokens: Seq<Seq<char>>,
    token: Seq<char>,
    x: char,
)
    requires
        is_plain_class_path(p),
        s.len() == p.len(),
        forall|i: int| 0 <= i < p.len() ==> byte_char(#[trigger] s[i]) == p[i],
        0 <= pos <= p.len(),
        token.len() <= pos,
        token.len() == 0 <==> (pos == 0 || p[pos - 1] == '/'),
        token.len() > 0 ==> token[0] == p[pos - token.len()],
        pos - token.len() == 0 || p[pos - token.len() - 1] == '/',
        forall|i: int| 0 <= i < tokens.len() ==> (#[trigger] tokens[i]).len() > 0,
        join(tokens.push(token), seq![x]) == separated(p.take(pos), x),
    ensures
        spec_scan_path(s, pos, tokens, token).1 == s.len(),
        spec_scan_path(s, pos, tokens, token).0 matches Ok(scan) && !scan.nested
            && scan.tokens.len() > 0 && join(scan.tokens, seq![x]) == separated(p, x)
            && forall|i: int|
            0 <= i < scan.tokens.len() ==> (#[trigger] scan.tokens[i]).len() > 0,
    decreases p.len() - pos,
{
    if pos == p.len() {
        assert(p.take(pos) =~= p);
        assert(token.len() > 0);
        let all = tokens.push(token);
        assert forall|i: int| 0 <= i < all.len() implies (#[trigger] all[i]).len() > 0 by {
            if i < tokens.len() {
                assert(all[i] == tokens[i]);
            }
        }
    } else {
        let c = byte_char(s[pos]);
        assert(c == p[pos]);
        assert(p.take(pos + 1) =~= p.take(pos).push(c));
        if c != '/' {
            assert(char_is_alphanumeric(c));
            lemma_join_push_char(tokens, token, seq![x], c);
            assert(separated(p.take(pos + 1), x) =~= separated(p.take(pos), x).push(c));
            lemma_scan_plain_path(s, p, pos + 1, tokens, token.push(c), x);
        } else {
            assert(pos > 0);
            assert(p[pos - 1] != '/');
            assert(token.len() > 0);
            let start = pos - token.len();
            assert(starts_segment(p, start));
            assert(!char_is_numeric(p[start]));
            let next = tokens.push(token);
            lemma_join_push_empty(next, seq![x]);
            assert(separated(p.take(pos + 1), x) =~= separated(p.take(pos), x) + seq![x]);
            assert forall|i: int| 0 <= i < next.len() implies (#[trigger] next[i]).len() > 0 by {
                if i < tokens.len() {
                    assert(next[i] == tokens[i]);
                }
            }
            lemma_scan_plain_path(s, p, pos + 1, next, Seq::empty(), x);
        }
    }
}

/// A plain class path is found again in both renderings: parsing it
/// succeeds and finds no enclosing classes, the dotted rendering of the
/// result is the text itself with every `/` replaced by `.`, and the archive
/// rendering is the text itself followed by `.class`.
pub proof fn lemma_plain_path_round_trip(p: Seq<char>)
    requires
        is_plain_class_path(p),
    ensures
        round_trips(p),
{
    reveal_strlit(".");
    reveal_strlit("/");
    reveal_strlit("$");
    assert("."@ =~= seq!['.']);
    assert("/"@ =~= seq!['/']);
    let s = encode_utf8(p);
    is_ascii_chars_encode_utf8(p);
    assert forall|i: int| 0 <= i < p.len() implies byte_char(#[trigger] s[i]) == p[i] by {
        assert(p[i] as u8 == s[i]);
        assert('\0' <= p[i] <= '\u{7f}');
    }
    let none = Seq::<Seq<char>>::empty();
    assert(p.take(0) =~= Seq::<char>::empty());
    assert(join(none.push(Seq::empty()), seq!['.']) =~= separated(p.take(0), '.'));
    assert(join(none.push(Seq::empty()), seq!['/']) =~= separated(p.take(0), '/'));
    lemma_scan_plain_path(s, p, 0, none, Seq::empty(), '.');
    lemma_scan_plain_path(s, p, 0, none, Seq::empty(), '/');
    assert(separated(p, '/') =~= p);
    let scan = spec_scan_path(s, 0, none, Seq::empty()).0->Ok_0;
    let path = spec_parse_class_path(p)->Ok_0;
    let names = path.class_names();
    assert(names =~= seq![scan.tokens.last()]);
    assert(join(names, "."@) == scan.tokens.last());
    assert(join(names, "$"@) == scan.tokens.last());
    if scan.tokens.len() > 1 {
        let package = scan.tokens.drop_last();
        assert forall|i: int| 0 <= i < package.len() implies (#[trigger] package[i]).len() > 0 by {
            assert(package[i] == scan.tokens[i]);
        }
        lemma_join_not_empty(package, "."@);
        lemma_join_not_empty(package, "/"@);
        assert(join(scan.tokens, "."@) == join(package, "."@) + "."@ + scan.tokens.last());
        assert(join(scan.tokens, "/"@) == join(package, "/"@) + "/"@ + scan.tokens.last());
        assert(path.full_path() =~= join(scan.tokens, "."@));
        assert(path.jar_path() =~= join(scan.tokens, "/"@) + ".class"@);
    } else {
        assert(path.package =~= Seq::<Seq<char>>::empty());
        assert(path.full_path() =~= join(scan.tokens, "."@));
        assert(path.jar_path() =~= join(scan.tokens, "/"@) + ".class"@);
    }
}

/// Whether `p` is a plain class path. Where it is, parsing it succeeds, and
/// both renderings of the result give the text back: the dotted one with `.`
/// in place of every `/`, the archive one with `.class` after it.
pub fn is_plain(p: &str) -> (r: bool)
    ensures
        r == is_plain_class_path(p@),
        r == is_plain_ascii(p@),
        r ==> round_trips(p@),
{
    let chars = chars_of(p);
    let n = chars.len();
    if n == 0 {
        return false;
    }
    if chars[0] == '/' || chars[n - 1] == '/' {
        return false;
    }
    let mut last_sep: usize = 0;
    let mut i: usize = 0;
    while i < n
        invariant
            i <= n,
            n == chars@.len(),
            n > 0,
            chars@ == p@,
            chars@[0] != '/',
            last_sep < n,
            last_sep == 0 || chars@[last_sep as int] == '/',
            forall|k: int| 0 <= k < i && chars@[k] == '/' ==> k <= last_sep,
            forall|k: int| 0 <= k < i ==> '\0' <= #[trigger] chars@[k] <= '\u{7f}',
            forall|k: int|
                0 <= k < i ==> chars@[k] == '/' || char_is_alphanumeric(#[trigger] chars@[k]),
            forall|k: int|
                0 <= k < i ==> #[trigger] chars@[k] == '/' || is_ascii_letter(chars@[k])
                    || is_ascii_digit(chars@[k]),
            forall|k: int| 0 < k < i ==> !(chars@[k - 1] == '/' && #[trigger] chars@[k] == '/'),
        decreases n - i,
    {
        let c = chars[i];
        if c > '\u{7f}' {
            assert(!is_ascii_letter(c) && !is_ascii_digit(c) && c != '/');
            return false;
        }
        if c != '/' && !is_alphanumeric(c) {
            return false;
        }
        if c == '/' {
            if chars[i - 1] == '/' {
                return false;
            }
            last_sep = i;
        }
        i += 1;
    }
    let mut j: usize = 0;
    while j < last_sep
        invariant
            j <= last_sep < n,
            n == chars@.len(),
            chars@ == p@,
            chars@[0] != '/',
            chars@[n - 1] != '/',
            last_sep == 0 || chars@[last_sep as int] == '/',
            forall|k: int| 0 <= k < n && chars@[k] == '/' ==> k <= last_sep,
            forall|k: int| 0 <= k < n ==> '\0' <= #[trigger] chars@[k] <= '\u{7f}',
            forall|k: int|
                0 <= k < n ==> chars@[k] == '/' || char_is_alphanumeric(#[trigger] chars@[k]),
            forall|k: int|
                0 <= k < n ==> #[trigger] chars@[k] == '/' || is_ascii_letter(chars@[k])
                    || is_ascii_digit(chars@[k]),
            forall|k: int| 0 < k < n ==> !(chars@[k - 1] == '/' && #[trigger] chars@[k] == '/'),
            forall|k: int|
                0 <= k < j && starts_segment(chars@, k) ==> !char_is_numeric(#[trigger] chars@[k])
                    && !is_ascii_digit(chars@[k]),
        decreases last_sep - j,
    {
        if (j == 0 || chars[j - 1] == '/') && is_numeric(chars[j]) {
            assert(starts_segment(chars@, j as int));
            assert(chars@[last_sep as int] == '/');
            return false;
        }
        j += 1;
    }
    proof {
        assert(is_plain_class_path(p@));
        lemma_plain_path_round_trip(p@);
    }
    true
}

} // verus!
