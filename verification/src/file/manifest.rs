//! The manifest of an archive: a main section of attributes and named
//! entries, each a section of its own.

use crate::text::{chars_of, push_char, spec_split, split, str_eq, strings_view, text_of};
use vstd::prelude::*;

verus! {

/// Why the text of a manifest cannot be read.
#[derive(Debug, Clone, Copy, PartialEq, Eq, Structural)]
pub enum ManifestParseError {
    /// A continuation line stands where no attribute can be continued.
    MisplacedContinuation,
    /// A header field is malformed.
    InvalidHeader,
    /// A section after the main one has no `Name`.
    InvalidEntry,
}

/// The mathematical value of a section: its attributes as pairs of key and
/// value, in the order in which the keys were first met.
pub type SectionView = Seq<(Seq<char>, Seq<char>)>;

/// The mathematical value of the named entries of a manifest.
pub type EntriesView = Seq<(Seq<char>, SectionView)>;

/// The index of the first pair of `section` at or after `from` whose key is
/// `key`.
pub open spec fn spec_find(section: SectionView, key: Seq<char>, from: int) -> Option<int>
    decreases section.len() - from,
{
    if from < 0 || from >= section.len() {
        None
    } else if section[from].0 == key {
        Some(from)
    } else {
        spec_find(section, key, from + 1)
    }
}

/// The value that `section` holds for `key`.
pub open spec fn spec_get(section: SectionView, key: Seq<char>) -> Option<Seq<char>> {
    match spec_find(section, key, 0) {
        Some(i) => Some(section[i].1),
        None => None,
    }
}

/// The section after `value` was stored for `key`: in place of the value
/// that was there, or at the end.
pub open spec fn spec_put(section: SectionView, key: Seq<char>, value: Seq<char>) -> SectionView {
    match spec_find(section, key, 0) {
        Some(i) => section.update(i, (key, value)),
        None => section.push((key, value)),
    }
}

/// The index of the first entry of `entries` at or after `from` that is
/// named `name`.
pub open spec fn spec_find_entry(entries: EntriesView, name: Seq<char>, from: int) -> Option<int>
    decreases entries.len() - from,
{
    if from < 0 || from >= entries.len() {
        None
    } else if entries[from].0 == name {
        Some(from)
    } else {
        spec_find_entry(entries, name, from + 1)
    }
}

/// The entries after `section` was stored under `name`: in place of the
/// entry that was there, or at the end.
pub open spec fn spec_put_entry(entries: EntriesView, name: Seq<char>, section: SectionView) -> EntriesView {
    match spec_find_entry(entries, name, 0) {
        Some(i) => entries.update(i, (name, section)),
        None => entries.push((name, section)),
    }
}

/// The attributes of one section of a manifest.
#[derive(Debug, Clone, PartialEq, Eq)]
pub struct Attributes {
    pub entries: Vec<(String, String)>,
}

impl View for Attributes {
    type V = SectionView;

    open spec fn view(&self) -> SectionView {
        self.entries@.map_values(|pair: (String, String)| (pair.0@, pair.1@))
    }
}

impl Attributes {
    /// A section without attributes.
    pub fn new() -> (r: Attributes)
        ensures
            r@ == SectionView::empty(),
    {
        let r = Attributes { entries: Vec::new() };
        r
    }

    /// The index of the first attribute with the key `key`.
    fn position(&self, key: &str) -> (r: Option<usize>)
        ensures
            match r {
                Some(i) => i < self.entries@.len() && spec_find(self@, key@, 0) == Some(i as int),
                None => spec_find(self@, key@, 0) is None,
            },
    {
        let mut i: usize = 0;
        while i < self.entries.len()
            invariant
                i <= self.entries@.len(),
                spec_find(self@, key@, 0) == spec_find(self@, key@, i as int),
            decreases self.entries.len() - i,
        {
            if str_eq(self.entries[i].0.as_str(), key) {
                return Some(i);
            }
            i += 1;
        }
        None
    }

    /// The value of the attribute with the key `key`.
    pub fn get(&self, key: &str) -> (r: Option<&str>)
        ensures
            match r {
                Some(value) => spec_get(self@, key@) == Some(value@),
                None => spec_get(self@, key@) is None,
            },
    {
        match self.position(key) {
            Some(i) => Some(self.entries[i].1.as_str()),
            None => None,
        }
    }

    /// Stores `value` for `key`: in place of the value that was there, or at
    /// the end.
    pub fn insert(&mut self, key: String, value: String)
        ensures
            final(self)@ == spec_put(old(self)@, key@, value@),
    {
        match self.position(key.as_str()) {
            Some(i) => {
                self.entries.set(i, (key, value));
            },
            None => {
                self.entries.push((key, value));
            },
        }
    }

    /// A copy of the section.
    pub fn copy(&self) -> (r: Attributes)
        ensures
            r@ == self@,
    {
        let mut entries: Vec<(String, String)> = Vec::new();
        let mut i: usize = 0;
        while i < self.entries.len()
            invariant
                i <= self.entries@.len(),
                entries@.len() == i,
                forall|j: int|
                    0 <= j < i ==> (#[trigger] entries@[j]).0@ == self.entries@[j].0@
                        && entries@[j].1@ == self.entries@[j].1@,
            decreases self.entries.len() - i,
        {
            entries.push((self.entries[i].0.clone(), self.entries[i].1.clone()));
            i += 1;
        }
        let r = Attributes { entries };
        r
    }
}

/// The view of the named entries `entries`.
pub open spec fn entries_view(entries: Seq<(String, Attributes)>) -> EntriesView {
    entries.map_values(|entry: (String, Attributes)| (entry.0@, entry.1@))
}

/// A manifest: the main section and the named entries.
#[derive(Debug, Clone, PartialEq, Eq)]
pub struct Manifest {
    pub main_section: Attributes,
    pub entries: Vec<(String, Attributes)>,
}

/// The mathematical value of a [`Manifest`].
pub struct ManifestView {
    pub main_section: SectionView,
    pub entries: EntriesView,
}

impl View for Manifest {
    type V = ManifestView;

    open spec fn view(&self) -> ManifestView {
        ManifestView { main_section: self.main_section@, entries: entries_view(self.entries@) }
    }
}

/// What is known in the middle of a manifest: the main section once it is
/// closed, the attributes met so far, the entries closed so far, and the key
/// that a continuation line would continue.
pub struct Progress {
    pub main_section: Option<SectionView>,
    pub section: SectionView,
    pub entries: EntriesView,
    pub last_key: Option<Seq<char>>,
}

/// The key and the value of an attribute line, scanning from `pos`: the key
/// is what stands before the first `: `, the value is what follows it with
/// every further `: ` left out.
pub open spec fn spec_key_value(
    line: Seq<char>,
    pos: int,
    in_value: bool,
    key: Seq<char>,
    value: Seq<char>,
) -> (Seq<char>, Seq<char>)
    decreases line.len() - pos,
{
    if pos < 0 || pos >= line.len() {
        (key, value)
    } else if line[pos] == ':' && pos + 1 < line.len() && line[pos + 1] == ' ' {
        spec_key_value(line, pos + 2, true, key, value)
    } else if in_value {
        spec_key_value(line, pos + 1, in_value, key, value.push(line[pos]))
    } else {
        spec_key_value(line, pos + 1, in_value, key.push(line[pos]), value)
    }
}

/// What closing a section does: the first section closed is the main one,
/// every later one is stored as the entry that its `Name` names and must
/// have one. The attributes met so far stay as they are.
pub open spec fn spec_close(progress: Progress) -> Result<Progress, ManifestParseError> {
    match progress.main_section {
        None => Ok(
            Progress {
                main_section: Some(progress.section),
                section: progress.section,
                entries: progress.entries,
                last_key: progress.last_key,
            },
        ),
        Some(_) => match spec_get(progress.section, "Name"@) {
            None => Err(ManifestParseError::InvalidEntry),
            Some(name) => Ok(
                Progress {
                    main_section: progress.main_section,
                    section: progress.section,
                    entries: spec_put_entry(progress.entries, name, progress.section),
                    last_key: progress.last_key,
                },
            ),
        },
    }
}

/// What one line does: an empty line closes a section, a line that starts
/// with `#` is a comment, a line that starts with a space continues the
/// value of the last key, and any other line sets an attribute.
pub open spec fn spec_line(progress: Progress, line: Seq<char>) -> Result<
    Progress,
    ManifestParseError,
> {
    if line.len() == 0 {
        spec_close(progress)
    } else if line[0] == '#' {
        Ok(progress)
    } else if line[0] == ' ' {
        match progress.last_key {
            None => Err(ManifestParseError::MisplacedContinuation),
            Some(key) => {
                let so_far = match spec_get(progress.section, key) {
                    Some(value) => value,
                    None => Seq::empty(),
                };
                Ok(
                    Progress {
                        main_section: progress.main_section,
                        section: spec_put(progress.section, key, so_far + line.skip(1)),
                        entries: progress.entries,
                        last_key: progress.last_key,
                    },
                )
            },
        }
    } else {
        let pair = spec_key_value(line, 0, false, Seq::empty(), Seq::empty());
        Ok(
            Progress {
                main_section: progress.main_section,
                section: spec_put(progress.section, pair.0, pair.1),
                entries: progress.entries,
                last_key: Some(pair.0),
            },
        )
    }
}

/// What the lines of `lines` from `pos` on do.
pub open spec fn spec_lines_from(lines: Seq<Seq<char>>, pos: int, progress: Progress) -> Result<
    Progress,
    ManifestParseError,
>
    decreases lines.len() - pos,
{
    if pos < 0 || pos >= lines.len() {
        Ok(progress)
    } else {
        match spec_line(progress, lines[pos]) {
            Err(e) => Err(e),
            Ok(next) => spec_lines_from(lines, pos + 1, next),
        }
    }
}

/// The manifest that the lines `lines` spell: the end of the text closes the
/// last section.
pub open spec fn spec_parse_lines(lines: Seq<Seq<char>>) -> Result<
    ManifestView,
    ManifestParseError,
> {
    let start = Progress {
        main_section: None,
        section: Seq::empty(),
        entries: Seq::empty(),
        last_key: None,
    };
    match spec_lines_from(lines, 0, start) {
        Err(e) => Err(e),
        Ok(read) => match spec_close(read) {
            Err(e) => Err(e),
            Ok(closed) => Ok(
                ManifestView {
                    main_section: closed.main_section->Some_0,
                    entries: closed.entries,
                },
            ),
        },
    }
}

/// `line` without the carriage return at its end, if it has one.
pub open spec fn spec_strip_return(line: Seq<char>) -> Seq<char> {
    if line.len() > 0 && line.last() == '\r' {
        line.drop_last()
    } else {
        line
    }
}

/// The lines of `text`: the pieces between line feeds, each without the
/// carriage return before its line feed; what follows the last line feed is
/// a line only if it is not empty.
pub open spec fn spec_text_lines(text: Seq<char>) -> Seq<Seq<char>> {
    let pieces = spec_split(text, '\n');
    let ended = pieces.drop_last().map_values(|line: Seq<char>| spec_strip_return(line));
    if pieces.last().len() > 0 {
        ended.push(pieces.last())
    } else {
        ended
    }
}

/// The key and the value of an attribute line.
fn key_value(line: &Vec<char>) -> (r: (String, String))
    ensures
        (r.0@, r.1@) == spec_key_value(line@, 0, false, Seq::empty(), Seq::empty()),
{
    let mut key = String::new();
    let mut value = String::new();
    let mut in_value = false;
    let mut i: usize = 0;
    while i < line.len()
        invariant
            i <= line@.len(),
            spec_key_value(line@, 0, false, Seq::empty(), Seq::empty()) == spec_key_value(
                line@,
                i as int,
                in_value,
                key@,
                value@,
            ),
        decreases line.len() - i,
    {
        if line[i] == ':' && i + 1 < line.len() && line[i + 1] == ' ' {
            in_value = true;
            i += 2;
        } else if in_value {
            push_char(&mut value, line[i]);
            i += 1;
        } else {
            push_char(&mut key, line[i]);
            i += 1;
        }
    }
    (key, value)
}

/// The lines of `text`.
pub fn text_lines(text: &str) -> (r: Vec<String>)
    ensures
        strings_view(r@) == spec_text_lines(text@),
{
    let mut pieces = split(text, '\n');
    let last = match pieces.pop() {
        Some(last) => last,
        None => {
            proof {
                crate::text::lemma_split_not_empty(
                    text@,
                    '\n',
                    0,
                    Seq::empty(),
                    Seq::empty(),
                );
            }
            vstd::pervasive::unreached()
        },
    };
    let mut lines: Vec<String> = Vec::new();
    let mut i: usize = 0;
    while i < pieces.len()
        invariant
            i <= pieces@.len(),
            lines@.len() == i,
            forall|j: int|
                0 <= j < i ==> (#[trigger] lines@[j])@ == spec_strip_return(pieces@[j]@),
        decreases pieces.len() - i,
    {
        let chars = chars_of(pieces[i].as_str());
        let line = if chars.len() > 0 && chars[chars.len() - 1] == '\r' {
            let kept = text_of(&chars, 0, chars.len() - 1);
            kept
        } else {
            pieces[i].clone()
        };
        lines.push(line);
        i += 1;
    }
    if !last.as_str().is_empty() {
        lines.push(last);
    }
    lines
}

/// The manifest being read.
struct Reading {
    main_section: Option<Attributes>,
    section: Attributes,
    entries: Vec<(String, Attributes)>,
    last_key: Option<String>,
}

impl Reading {
    spec fn progress(self) -> Progress {
        Progress {
            main_section: match self.main_section {
                Some(section) => Some(section@),
                None => None,
            },
            section: self.section@,
            entries: entries_view(self.entries@),
            last_key: match self.last_key {
                Some(key) => Some(key@),
                None => None,
            },
        }
    }

    /// The index of the first entry named `name`.
    fn entry_position(&self, name: &str) -> (r: Option<usize>)
        ensures
            match r {
                Some(i) => i < self.entries@.len() && spec_find_entry(
                    entries_view(self.entries@),
                    name@,
                    0,
                ) == Some(i as int),
                None => spec_find_entry(entries_view(self.entries@), name@, 0) is None,
            },
    {
        let mut i: usize = 0;
        while i < self.entries.len()
            invariant
                i <= self.entries@.len(),
                spec_find_entry(entries_view(self.entries@), name@, 0) == spec_find_entry(
                    entries_view(self.entries@),
                    name@,
                    i as int,
                ),
            decreases self.entries.len() - i,
        {
            if str_eq(self.entries[i].0.as_str(), name) {
                return Some(i);
            }
            i += 1;
        }
        None
    }

    /// Closes the section that is being read.
    fn close(&mut self) -> (r: Result<(), ManifestParseError>)
        ensures
            match r {
                Ok(_) => spec_close(old(self).progress()) == Ok::<Progress, ManifestParseError>(
                    final(self).progress(),
                ),
                Err(e) => spec_close(old(self).progress()) == Err::<Progress, ManifestParseError>(
                    e,
                ),
            },
    {
        if self.main_section.is_none() {
            self.main_section = Some(self.section.copy());
            return Ok(());
        }
        let name = match self.section.get("Name") {
            Some(name) => name.to_owned(),
            None => return Err(ManifestParseError::InvalidEntry),
        };
        let section = self.section.copy();
        let ghost before = entries_view(self.entries@);
        let ghost n = name@;
        let ghost s = section@;
        match self.entry_position(name.as_str()) {
            Some(i) => {
                self.entries.set(i, (name, section));
                assert(entries_view(self.entries@) =~= before.update(i as int, (n, s)));
            },
            None => {
                self.entries.push((name, section));
                assert(entries_view(self.entries@) =~= before.push((n, s)));
            },
        }
        Ok(())
    }

    /// Reads one line.
    fn line(&mut self, line: &str) -> (r: Result<(), ManifestParseError>)
        ensures
            match r {
                Ok(_) => spec_line(old(self).progress(), line@) == Ok::<
                    Progress,
                    ManifestParseError,
                >(final(self).progress()),
                Err(e) => spec_line(old(self).progress(), line@) == Err::<
                    Progress,
                    ManifestParseError,
                >(e),
            },
    {
        let chars = chars_of(line);
        if chars.len() == 0 {
            return self.close();
        }
        if chars[0] == '#' {
            return Ok(());
        }
        if chars[0] == ' ' {
            let key = match &self.last_key {
                None => return Err(ManifestParseError::MisplacedContinuation),
                Some(key) => key.clone(),
            };
            let mut value = match self.section.get(key.as_str()) {
                Some(value) => value.to_owned(),
                None => String::new(),
            };
            let appended = text_of(&chars, 1, chars.len());
            value.append(appended.as_str());
            self.section.insert(key, value);
            return Ok(());
        }
        let (key, value) = key_value(&chars);
        self.last_key = Some(key.clone());
        self.section.insert(key, value);
        Ok(())
    }
}

impl Manifest {
    /// Reads a manifest from its lines.
    pub fn parse_lines(lines: &Vec<String>) -> (r: Result<Manifest, ManifestParseError>)
        ensures
            match r {
                Ok(manifest) => spec_parse_lines(strings_view(lines@)) == Ok::<
                    ManifestView,
                    ManifestParseError,
                >(manifest@),
                Err(e) => spec_parse_lines(strings_view(lines@)) == Err::<
                    ManifestView,
                    ManifestParseError,
                >(e),
            },
    {
        let mut reading = Reading {
            main_section: None,
            section: Attributes::new(),
            entries: Vec::new(),
            last_key: None,
        };
        let ghost start = reading.progress();
        assert(start.entries =~= Seq::empty());
        let mut i: usize = 0;
        while i < lines.len()
            invariant
                i <= lines@.len(),
                spec_lines_from(strings_view(lines@), 0, start) == spec_lines_from(
                    strings_view(lines@),
                    i as int,
                    reading.progress(),
                ),
                start == (Progress {
                    main_section: None,
                    section: Seq::empty(),
                    entries: Seq::empty(),
                    last_key: None,
                }),
            decreases lines.len() - i,
        {
            match reading.line(lines[i].as_str()) {
                Ok(_) => {},
                Err(e) => return Err(e),
            }
            i += 1;
        }
        match reading.close() {
            Ok(_) => {},
            Err(e) => return Err(e),
        }
        match reading.main_section {
            Some(main_section) => Ok(Manifest { main_section, entries: reading.entries }),
            None => vstd::pervasive::unreached(),
        }
    }

    /// Reads a manifest from its text.
    pub fn read_from(text: &str) -> (r: Result<Manifest, ManifestParseError>)
        ensures
            match r {
                Ok(manifest) => spec_parse_lines(spec_text_lines(text@)) == Ok::<
                    ManifestView,
                    ManifestParseError,
                >(manifest@),
                Err(e) => spec_parse_lines(spec_text_lines(text@)) == Err::<
                    ManifestView,
                    ManifestParseError,
                >(e),
            },
    {
        let lines = text_lines(text);
        Manifest::parse_lines(&lines)
    }

    /// The value that the main section holds for `key`.
    pub fn get(&self, key: &str) -> (r: Option<&str>)
        ensures
            match r {
                Some(value) => spec_get(self@.main_section, key@) == Some(value@),
                None => spec_get(self@.main_section, key@) is None,
            },
    {
        self.main_section.get(key)
    }

    /// The value that the entry named `entry` holds for `key`.
    pub fn entry_get(&self, entry: &str, key: &str) -> (r: Option<&str>)
        ensures
            match r {
                Some(value) => spec_find_entry(self@.entries, entry@, 0) matches Some(i)
                    && spec_get(self@.entries[i].1, key@) == Some(value@),
                None => match spec_find_entry(self@.entries, entry@, 0) {
                    Some(i) => spec_get(self@.entries[i].1, key@) is None,
                    None => true,
                },
            },
    {
        let mut i: usize = 0;
        while i < self.entries.len()
            invariant
                i <= self.entries@.len(),
                spec_find_entry(self@.entries, entry@, 0) == spec_find_entry(
                    self@.entries,
                    entry@,
                    i as int,
                ),
            decreases self.entries.len() - i,
        {
            if str_eq(self.entries[i].0.as_str(), entry) {
                return self.entries[i].1.get(key);
            }
            i += 1;
        }
        None
    }
}

} // verus!
