//! The cache cell of a resolver: one machine word that holds either nothing
//! yet or the line width that was resolved.

use std::sync::atomic::AtomicU16;
use std::sync::atomic::Ordering;
use vstd::prelude::*;

verus! {

/// The word that a cache cell holds while no width has been stored in it.
///
/// No resolved width is zero, so a zero in the cell can only mean that the
/// width is still to be resolved.
pub const UNRESOLVED: u16 = 0;

/// The width that the word `word` of a cache cell stands for: none for
/// [`UNRESOLVED`], and the word itself otherwise.
pub open spec fn cached(word: u16) -> Option<u16> {
    if word == UNRESOLVED {
        None
    } else {
        Some(word)
    }
}

/// Returns the width that the word `word` of a cache cell stands for.
pub fn cached_width(word: u16) -> (slot: Option<u16>)
    ensures
        slot == cached(word),
{
    if word == UNRESOLVED {
        None
    } else {
        Some(word)
    }
}

/// A cache cell: a single word, read and written atomically, that starts out
/// unresolved and from then on only ever receives resolved widths.
///
/// The cell is shared between threads, so its content at one moment says
/// nothing about its content at the next: the contracts below speak of the
/// values that go in and come out, never of what the cell holds.
pub(crate) struct CacheCell {
    word: AtomicU16,
}

impl CacheCell {
    /// Returns a cell that holds no width yet.
    pub(crate) fn new() -> CacheCell {
        CacheCell { word: AtomicU16::new(UNRESOLVED) }
    }

    /// Returns the width that the cell holds at this moment, if it holds one.
    ///
    /// A width that comes out of the cell is never zero.
    pub(crate) fn load(&self) -> (slot: Option<u16>)
        ensures
            slot matches Some(width) ==> width >= 1,
    {
        cached_width(self.word.load(Ordering::Relaxed))
    }

    /// Puts the resolved width `width` into the cell, over whatever it held.
    pub(crate) fn store(&self, width: u16)
        requires
            width != UNRESOLVED,
    {
        self.word.store(width, Ordering::Relaxed);
    }
}

} // verus!
