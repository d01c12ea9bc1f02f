//! A text sink that indents every new line by a fixed amount.

use crate::text::{push_char, repeat_str, spec_repeat};
use vstd::prelude::*;

verus! {

/// The character that indentation is made of.
#[derive(Debug, Copy, Clone, PartialEq, Eq, Structural)]
pub enum Indent {
    Space,
    Tab,
}

impl Indent {
    /// The character repeated `count` times.
    pub open spec fn spec_repeat(self, count: nat) -> Seq<char> {
        match self {
            Indent::Space => spec_repeat(" "@, count),
            Indent::Tab => spec_repeat("\t"@, count),
        }
    }

    /// The character repeated `count` times.
    pub fn repeat(&self, count: usize) -> (r: String)
        ensures
            r@ == self.spec_repeat(count as nat),
    {
        match self {
            Indent::Space => repeat_str(" ", count),
            Indent::Tab => repeat_str("\t", count),
        }
    }
}

/// The text `out` after the characters of `s` from `pos` on were written to
/// it: every line break is followed by `indent`.
pub open spec fn spec_write_str_from(s: Seq<char>, pos: int, out: Seq<char>, indent: Seq<char>) -> Seq<char>
    decreases s.len() - pos,
{
    if pos < 0 || pos >= s.len() {
        out
    } else if s[pos] == '\n' {
        spec_write_str_from(s, pos + 1, out.push('\n') + indent, indent)
    } else {
        spec_write_str_from(s, pos + 1, out.push(s[pos]), indent)
    }
}

/// A text sink that indents every new line.
pub struct CodeWriter {
    pub inner: String,
    pub state_indent: usize,
    pub indent_kind: Indent,
    pub indent_level_count: usize,
}

impl CodeWriter {
    /// A sink over `writer` that indents by four spaces.
    pub fn new(writer: String) -> (r: CodeWriter)
        ensures
            r.inner@ == writer@,
            r.state_indent == 0,
            r.indent_kind == Indent::Space,
            r.indent_level_count == 4,
    {
        CodeWriter {
            inner: writer,
            state_indent: 0,
            indent_kind: Indent::Space,
            indent_level_count: 4,
        }
    }

    /// Enters a block: one level deeper.
    pub fn enter_block(&mut self)
        requires
            old(self).state_indent < usize::MAX,
        ensures
            final(self).state_indent == old(self).state_indent + 1,
            final(self).inner@ == old(self).inner@,
            final(self).indent_kind == old(self).indent_kind,
            final(self).indent_level_count == old(self).indent_level_count,
    {
        self.state_indent += 1;
    }

    /// Leaves a block: one level less, but never below 0.
    pub fn exit_block(&mut self)
        ensures
            final(self).state_indent == if old(self).state_indent > 0 {
                old(self).state_indent - 1
            } else {
                0
            },
            final(self).inner@ == old(self).inner@,
            final(self).indent_kind == old(self).indent_kind,
            final(self).indent_level_count == old(self).indent_level_count,
    {
        if self.state_indent > 0 {
            self.state_indent -= 1;
        }
    }

    /// The text that follows every line break: the indent character, once
    /// per unit of the level count.
    pub fn indent_string(&self) -> (r: String)
        ensures
            r@ == self.indent_kind.spec_repeat(self.indent_level_count as nat),
    {
        self.indent_kind.repeat(self.indent_level_count)
    }

    /// Writes `s` to the sink, every line break followed by the indentation.
    pub fn write_str(&mut self, s: &str)
        ensures
            final(self).inner@ == spec_write_str_from(
                s@,
                0,
                old(self).inner@,
                old(self).indent_kind.spec_repeat(old(self).indent_level_count as nat),
            ),
            final(self).state_indent == old(self).state_indent,
            final(self).indent_kind == old(self).indent_kind,
            final(self).indent_level_count == old(self).indent_level_count,
    {
        let indent = self.indent_string();
        for c in it: s.chars()
            invariant
                it.seq() == s@,
                self.state_indent == old(self).state_indent,
                self.indent_kind == old(self).indent_kind,
                self.indent_level_count == old(self).indent_level_count,
                indent@ == self.indent_kind.spec_repeat(self.indent_level_count as nat),
                spec_write_str_from(s@, 0, old(self).inner@, indent@) == spec_write_str_from(
                    s@,
                    it.index() as int,
                    self.inner@,
                    indent@,
                ),
        {
            if c == '\n' {
                push_char(&mut self.inner, '\n');
                self.inner.append(indent.as_str());
            } else {
                push_char(&mut self.inner, c);
            }
        }
    }

    /// Gives the text back.
    pub fn into_inner(self) -> (r: String)
        ensures
            r@ == self.inner@,
    {
        self.inner
    }
}

} // verus!
