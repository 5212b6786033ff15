//! Indentation for writing the events of a parser as text, one line each.

use vstd::prelude::*;
use crate::elements::parser::Event;

verus! {

/// Lays out the events of a parser as an indented tree for a writer: the
/// lines of an element's content are indented one step more than the
/// lines of its beginning and end.
pub struct DebugPrint<W> {
    ctr: i32,
    indent: usize,
    w: W,
}

/// A layout for the writer `w`.
pub fn debug_logger<W>(w: W) -> (d: DebugPrint<W>)
    ensures
        d.spec_indent() == 0,
        d.spec_count() == 0,
        d.writer() == w,
{
    DebugPrint { ctr: 0, indent: 0, w: w }
}

impl<W> DebugPrint<W> {
    /// The current indentation.
    pub closed spec fn spec_indent(&self) -> usize {
        self.indent
    }

    /// The number of events seen (modulo 2^32, as an `i32`).
    pub closed spec fn spec_count(&self) -> i32 {
        self.ctr
    }

    /// The writer.
    pub closed spec fn writer(&self) -> W {
        self.w
    }

    /// The writer, to write a line to.
    pub fn borrow_writer_mut(&mut self) -> (w: &mut W)
        ensures
            *w == old(self).writer(),
            final(self).writer() == *final(w),
            final(self).spec_indent() == old(self).spec_indent(),
            final(self).spec_count() == old(self).spec_count(),
    {
        &mut self.w
    }

    /// The writer, taken back.
    pub fn into_writer(self) -> (w: W)
        ensures
            w == self.writer(),
    {
        self.w
    }

    /// The current indentation.
    pub fn indent(&self) -> (i: usize)
        ensures
            i == self.spec_indent(),
    {
        self.indent
    }

    /// Notes an event; returns the indentation of its line. An `End` is one
    /// step out (never below zero), and after a `Begin` the lines are one
    /// step in.
    pub fn note(&mut self, e: &Event) -> (line_indent: usize)
        requires
            old(self).spec_indent() < usize::MAX,
        ensures
            line_indent == (if e is End && old(self).spec_indent() > 0 {
                old(self).spec_indent() - 1
            } else {
                old(self).spec_indent() as int
            }),
            final(self).spec_indent() == (if e is Begin { line_indent + 1 } else { line_indent as int }),
            final(self).spec_count() == old(self).spec_count().wrapping_add(1),
            final(self).writer() == old(self).writer(),
    {
        match e {
            Event::End(_) => {
                if self.indent > 0 {
                    self.indent -= 1
                }
            },
            _ => (),
        }
        let line_indent = self.indent;
        match e {
            Event::Begin(_) => self.indent += 1,
            _ => (),
        }
        self.ctr = self.ctr.wrapping_add(1);
        line_indent
    }
}

} // verus!
