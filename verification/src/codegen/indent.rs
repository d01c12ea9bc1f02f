//! A byte sink that indents what is written to it, one level per open block.

use crate::text::{repeat_str, spec_repeat};
use std::collections::HashSet;
use vstd::prelude::*;
use vstd::utf8::encode_utf8;

verus! {

broadcast use vstd::std_specs::hash::group_hash_axioms;

/// The unit of indentation: a number of spaces, or one tab.
#[derive(Debug, Copy, Clone, PartialEq, Eq, Structural)]
pub enum IndentKind {
    Space(usize),
    Tab,
}

impl IndentKind {
    /// The text of one level of indentation.
    pub open spec fn spec_unit(self) -> Seq<char> {
        match self {
            IndentKind::Space(count) => spec_repeat(" "@, count as nat),
            IndentKind::Tab => "\t"@,
        }
    }

    /// The text of one level of indentation.
    pub fn to_string(&self) -> (r: String)
        ensures
            r@ == self.spec_unit(),
    {
        match self {
            IndentKind::Space(count) => repeat_str(" ", *count),
            IndentKind::Tab => "\t".to_owned(),
        }
    }
}

/// The level after leaving a block at level `level`: one less, but never
/// below 0.
pub open spec fn spec_exit(level: int) -> int {
    if level > 0 {
        level - 1
    } else {
        0
    }
}

/// The text that follows every line break at level `level`: nothing at level
/// 0, the unit of `indent` once per level otherwise.
pub open spec fn spec_indent_string(indent: IndentKind, level: int) -> Seq<char> {
    if level <= 0 {
        Seq::empty()
    } else {
        spec_repeat(indent.spec_unit(), level as nat)
    }
}

/// The output and the level after the bytes of `buf` from `pos` on were
/// written to the output `out` at level `level`.
///
/// A line break is followed by the indentation of the current level. A byte
/// of `enter` raises the level after it is checked against the line break,
/// a byte of `exit` lowers it, and each is written as it is, as is every
/// other byte.
pub open spec fn spec_write_from(
    buf: Seq<u8>,
    pos: int,
    out: Seq<u8>,
    level: int,
    indent: IndentKind,
    enter: Set<u8>,
    exit: Set<u8>,
) -> (Seq<u8>, int)
    decreases buf.len() - pos,
{
    if pos < 0 || pos >= buf.len() {
        (out, level)
    } else {
        let byte = buf[pos];
        if byte == 10 {
            spec_write_from(
                buf,
                pos + 1,
                out.push(byte) + encode_utf8(spec_indent_string(indent, level)),
                level,
                indent,
                enter,
                exit,
            )
        } else if enter.contains(byte) {
            spec_write_from(buf, pos + 1, out.push(byte), level + 1, indent, enter, exit)
        } else if exit.contains(byte) {
            spec_write_from(buf, pos + 1, out.push(byte), spec_exit(level), indent, enter, exit)
        } else {
            spec_write_from(buf, pos + 1, out.push(byte), level, indent, enter, exit)
        }
    }
}

/// Writing never loses a byte: the output grows by at least the number of
/// bytes written.
pub proof fn lemma_write_keeps_every_byte(
    buf: Seq<u8>,
    pos: int,
    out: Seq<u8>,
    level: int,
    indent: IndentKind,
    enter: Set<u8>,
    exit: Set<u8>,
)
    requires
        0 <= pos <= buf.len(),
    ensures
        spec_write_from(buf, pos, out, level, indent, enter, exit).0.len() >= out.len() + buf.len()
            - pos,
    decreases buf.len() - pos,
{
    if pos < buf.len() {
        let byte = buf[pos];
        if byte == 10 {
            lemma_write_keeps_every_byte(
                buf,
                pos + 1,
                out.push(byte) + encode_utf8(spec_indent_string(indent, level)),
                level,
                indent,
                enter,
                exit,
            );
        } else if enter.contains(byte) {
            lemma_write_keeps_every_byte(buf, pos + 1, out.push(byte), level + 1, indent, enter, exit);
        } else if exit.contains(byte) {
            lemma_write_keeps_every_byte(
                buf,
                pos + 1,
                out.push(byte),
                spec_exit(level),
                indent,
                enter,
                exit,
            );
        } else {
            lemma_write_keeps_every_byte(buf, pos + 1, out.push(byte), level, indent, enter, exit);
        }
    }
}

/// The failure of a write that reached the output only in part.
#[derive(Debug, Clone, Copy, PartialEq, Eq, Structural)]
pub struct ShortWrite;

/// A byte sink that indents what is written to it.
pub struct Indented {
    pub inner: Vec<u8>,
    pub level: usize,
    pub indent: IndentKind,
    pub enter_block_on: HashSet<u8>,
    pub exit_block_on: HashSet<u8>,
}

/// The set of the bytes of `bytes`.
fn byte_set(bytes: &[u8]) -> (r: HashSet<u8>)
    ensures
        r@ == bytes@.to_set(),
{
    let mut set: HashSet<u8> = HashSet::new();
    let mut i: usize = 0;
    while i < bytes.len()
        invariant
            i <= bytes.len(),
            set@ == bytes@.take(i as int).to_set(),
        decreases bytes.len() - i,
    {
        set.insert(bytes[i]);
        proof {
            let before = bytes@.take(i as int);
            let after = bytes@.take(i + 1);
            assert forall|b: u8| after.to_set().contains(b) <==> before.to_set().insert(
                bytes@[i as int],
            ).contains(b) by {
                assert(after[i as int] == bytes@[i as int]);
            }
        }
        i += 1;
    }
    assert(bytes@.take(bytes@.len() as int) =~= bytes@);
    set
}

impl Indented {
    /// A sink over `writer` at level `level`, where the bytes of
    /// `enter_block_on` open a block and the bytes of `exit_block_on` close
    /// one.
    pub fn new(
        writer: Vec<u8>,
        indent: IndentKind,
        level: usize,
        enter_block_on: &[u8],
        exit_block_on: &[u8],
    ) -> (r: Indented)
        ensures
            r.inner@ == writer@,
            r.level == level,
            r.indent == indent,
            r.enter_block_on@ == enter_block_on@.to_set(),
            r.exit_block_on@ == exit_block_on@.to_set(),
    {
        Indented {
            inner: writer,
            level,
            indent,
            enter_block_on: byte_set(enter_block_on),
            exit_block_on: byte_set(exit_block_on),
        }
    }

    /// Enters a block: one level deeper.
    pub fn enter_block(&mut self)
        requires
            old(self).level < usize::MAX,
        ensures
            final(self).level == old(self).level + 1,
            final(self).inner@ == old(self).inner@,
            final(self).indent == old(self).indent,
            final(self).enter_block_on == old(self).enter_block_on,
            final(self).exit_block_on == old(self).exit_block_on,
    {
        self.level += 1;
    }

    /// Leaves a block: one level less, but never below 0.
    pub fn exit_block(&mut self)
        ensures
            final(self).level == spec_exit(old(self).level as int),
            final(self).inner@ == old(self).inner@,
            final(self).indent == old(self).indent,
            final(self).enter_block_on == old(self).enter_block_on,
            final(self).exit_block_on == old(self).exit_block_on,
    {
        if self.level > 0 {
            self.level -= 1;
        }
    }

    /// The text that follows every line break at the current level.
    pub fn indent_string(&self) -> (r: String)
        ensures
            r@ == spec_indent_string(self.indent, self.level as int),
    {
        if self.level == 0 {
            return String::new();
        }
        let unit = self.indent.to_string();
        repeat_str(unit.as_str(), self.level)
    }

    /// Writes `buf` to the sink and gives the number of bytes that reached
    /// the output, indentation included.
    pub fn write(&mut self, buf: &[u8]) -> (total: usize)
        requires
            old(self).level + buf@.len() <= usize::MAX,
        ensures
            (final(self).inner@, final(self).level as int) == spec_write_from(
                buf@,
                0,
                old(self).inner@,
                old(self).level as int,
                old(self).indent,
                old(self).enter_block_on@,
                old(self).exit_block_on@,
            ),
            final(self).inner@.len() == old(self).inner@.len() + total,
            final(self).indent == old(self).indent,
            final(self).enter_block_on == old(self).enter_block_on,
            final(self).exit_block_on == old(self).exit_block_on,
    {
        let start = self.inner.len();
        let mut i: usize = 0;
        while i < buf.len()
            invariant
                i <= buf.len(),
                self.indent == old(self).indent,
                self.enter_block_on == old(self).enter_block_on,
                self.exit_block_on == old(self).exit_block_on,
                self.level <= old(self).level + i,
                old(self).level + buf@.len() <= usize::MAX,
                self.inner@.len() >= start,
                start == old(self).inner@.len(),
                spec_write_from(
                    buf@,
                    0,
                    old(self).inner@,
                    old(self).level as int,
                    old(self).indent,
                    old(self).enter_block_on@,
                    old(self).exit_block_on@,
                ) == spec_write_from(
                    buf@,
                    i as int,
                    self.inner@,
                    self.level as int,
                    self.indent,
                    self.enter_block_on@,
                    self.exit_block_on@,
                ),
            decreases buf.len() - i,
        {
            let byte = buf[i];
            let ghost before = self.inner@;
            if byte == 10 {
                let indent = self.indent_string();
                self.inner.push(byte);
                self.inner.extend_from_slice(indent.as_str().as_bytes());
                assert(self.inner@ =~= before.push(byte) + encode_utf8(
                    spec_indent_string(self.indent, self.level as int),
                ));
            } else if self.enter_block_on.contains(&byte) {
                self.enter_block();
                self.inner.push(byte);
            } else if self.exit_block_on.contains(&byte) {
                self.exit_block();
                self.inner.push(byte);
            } else {
                self.inner.push(byte);
            }
            i += 1;
        }
        self.inner.len() - start
    }

    /// Writes all of `buf` to the sink. The output is in memory, so every
    /// byte reaches it and the write never falls short.
    pub fn write_all(&mut self, buf: &[u8]) -> (r: Result<(), ShortWrite>)
        requires
            old(self).level + buf@.len() <= usize::MAX,
        ensures
            r is Ok,
            (final(self).inner@, final(self).level as int) == spec_write_from(
                buf@,
                0,
                old(self).inner@,
                old(self).level as int,
                old(self).indent,
                old(self).enter_block_on@,
                old(self).exit_block_on@,
            ),
            final(self).indent == old(self).indent,
            final(self).enter_block_on == old(self).enter_block_on,
            final(self).exit_block_on == old(self).exit_block_on,
    {
        proof {
            lemma_write_keeps_every_byte(
                buf@,
                0,
                self.inner@,
                self.level as int,
                self.indent,
                self.enter_block_on@,
                self.exit_block_on@,
            );
        }
        let written = self.write(buf);
        if written < buf.len() {
            return Err(ShortWrite);
        }
        Ok(())
    }

    /// Gives the output back.
    pub fn into_inner(self) -> (r: Vec<u8>)
        ensures
            r@ == self.inner@,
    {
        self.inner
    }
}

} // verus!
