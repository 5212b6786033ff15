//! Indentation for logging the events of a parser, one line each.

use vstd::prelude::*;
use super::Event;

verus! {

/// The level of the log records that `DebugPrint` is for.
#[verifier::external_type_specification]
#[verifier::external_body]
pub struct ExLogLevel(log::LogLevel);

/// Lays out the events of a parser as an indented tree, one line each:
/// the lines of an element's content are indented one step more than the
/// lines of its beginning and end.
pub struct DebugPrint {
    ctr: i32,
    indent: usize,
    ll: log::LogLevel,
}

impl DebugPrint {
    /// The current indentation.
    pub closed spec fn spec_indent(&self) -> usize {
        self.indent
    }

    /// The number of events seen (modulo 2^32, as an `i32`).
    pub closed spec fn spec_count(&self) -> i32 {
        self.ctr
    }

    /// The level of the log records.
    pub closed spec fn spec_level(&self) -> log::LogLevel {
        self.ll
    }

    pub fn new(log_level: log::LogLevel) -> (d: Self)
        ensures
            d.spec_indent() == 0,
            d.spec_count() == 0,
            d.spec_level() == log_level,
    {
        DebugPrint { ctr: 0, indent: 0, ll: log_level }
    }

    /// The level of the log records.
    pub fn level(&self) -> (l: &log::LogLevel)
        ensures
            *l == self.spec_level(),
    {
        &self.ll
    }

    /// The current indentation.
    pub fn indent(&self) -> (i: usize)
        ensures
            i == self.spec_indent(),
    {
        self.indent
    }

    /// Notes an event; returns the indentation of its line. An `End` is one
    /// step out (never below zero), and after a `Begin` the lines are one
    /// step in.
    pub fn note(&mut self, e: &Event) -> (line_indent: usize)
        requires
            old(self).spec_indent() < usize::MAX,
        ensures
            line_indent == (if e is End && old(self).spec_indent() > 0 {
                old(self).spec_indent() - 1
            } else {
                old(self).spec_indent() as int
            }),
            final(self).spec_indent() == (if e is Begin { line_indent + 1 } else { line_indent as int }),
            final(self).spec_count() == old(self).spec_count().wrapping_add(1),
            final(self).spec_level() == old(self).spec_level(),
    {
        match e {
            Event::End(_) => {
                if self.indent > 0 {
                    self.indent -= 1
                }
            },
            _ => (),
        }
        let line_indent = self.indent;
        match e {
            Event::Begin(_) => self.indent += 1,
            _ => (),
        }
        self.ctr = self.ctr.wrapping_add(1);
        line_indent
    }
}

} // verus!
