//! An archive of classes: what is known of it, and the walk over its
//! entries.

use crate::file::manifest::Manifest;
use crate::text::{chars_of, str_eq, text_of};
use vstd::prelude::*;

verus! {

/// What is known of an archive once it was opened: where it lies, its
/// manifest if it could be read, its main class if the manifest names one,
/// and the number of its entries.
#[derive(Debug)]
pub struct Jar {
    pub path: String,
    pub manifest: Option<Manifest>,
    pub main_class: Option<String>,
    pub file_count: usize,
}

/// The walk over the entries of an archive, in search of classes.
pub struct Classes<'a> {
    pub over: &'a Jar,
    pub last: usize,
    pub current: usize,
}

impl Jar {
    /// A walk over the entries of the archive from the first to the last.
    pub fn classes(&self) -> (r: Classes)
        requires
            self.file_count > 0,
        ensures
            r.over == self,
            r.last == self.file_count - 1,
            r.current == 0,
    {
        Classes { last: self.file_count - 1, current: 0, over: self }
    }
}

/// Whether the entry named `name` holds a class: its name ends in `.class`.
pub open spec fn spec_is_class_entry(name: Seq<char>) -> bool {
    name.len() >= 6 && name.subrange(name.len() - 6, name.len() as int) == ".class"@
}

/// Whether the entry named `name` holds a class.
pub fn is_class_entry(name: &str) -> (r: bool)
    ensures
        r == spec_is_class_entry(name@),
{
    let chars = chars_of(name);
    if chars.len() < 6 {
        return false;
    }
    let tail = text_of(&chars, chars.len() - 6, chars.len());
    str_eq(tail.as_str(), ".class")
}

impl<'a> Classes<'a> {
    /// The index of the next entry to look at, or none once the last entry
    /// was looked at.
    pub fn next_index(&mut self) -> (r: Option<usize>)
        requires
            old(self).last < usize::MAX,
        ensures
            final(self).over == old(self).over,
            final(self).last == old(self).last,
            old(self).current > old(self).last ==> {
                &&& r is None
                &&& final(self).current == old(self).current
            },
            old(self).current <= old(self).last ==> {
                &&& r == Some(old(self).current)
                &&& final(self).current == old(self).current + 1
            },
    {
        if self.current > self.last {
            return None;
        }
        let index = self.current;
        self.current += 1;
        Some(index)
    }
}

} // verus!
