//! Line width of the standard output streams (standard output and standard error).

use std::marker::PhantomData;
use vstd::prelude::*;

pub mod cache;
mod private;
pub mod resolution;
pub mod width;

pub use width::DEFAULT_LINE_WIDTH;

use cache::CacheCell;
use private::StdStream;
use width::{choose_width, chosen_width};

verus! {

/// Information about a standard output stream (standard output or standard error).
///
/// Each value carries the cache of its own stream: the line width is asked of
/// the terminal when it is first wanted, and remembered from then on.
pub struct OutputInfo<S: StdStream> {
    /// The line width resolved so far.
    line_width: CacheCell,
    /// Phantom data to mark type `S` as used.
    phantom: PhantomData<S>,
}

impl<S: StdStream> OutputInfo<S> {
    /// Returns the information about the stream `S`, with no line width
    /// resolved yet.
    pub fn new() -> OutputInfo<S> {
        OutputInfo { line_width: CacheCell::new(), phantom: PhantomData }
    }

    /// Returns the line width that has been resolved, or `None` while none has.
    pub fn cached_line_width(&self) -> (slot: Option<u16>)
        ensures
            slot matches Some(width) ==> width >= 1,
    {
        self.line_width.load()
    }

    /// Resolves the line width from the answer `query` of the terminal,
    /// remembers it, and returns it.
    ///
    /// Whatever was remembered before gives way: the last answer wins.
    pub fn resolve_from(&self, query: Option<(u16, u16)>) -> (width: u16)
        ensures
            width == chosen_width(query),
    {
        let width: u16 = choose_width(query);
        self.line_width.store(width);
        width
    }

    /// Returns the number of columns in a line.
    ///
    /// If the stream refers to a terminal, the terminal width is returned. If the stream does not
    /// refer to a terminal, or the terminal width cannot be determined, [`DEFAULT_LINE_WIDTH`] is
    /// returned. The terminal is asked only while no width is remembered.
    ///
    /// Calls that race for a width not yet remembered may each ask the terminal
    /// and each store what they chose; the last store wins. That is intended:
    /// the answers of one terminal within so short a time are alike, and no
    /// lock is worth its cost here. Whichever way a call goes, it returns at
    /// least one column.
    pub fn get_line_width(&self) -> (width: u16)
        ensures
            width >= 1,
    {
        match self.line_width.load() {
            Some(width) => width,
            None => self.resolve_from(S::terminal_size_of(S::get_stream())),
        }
    }
}

} // verus!
