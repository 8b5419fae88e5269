//! What the calls of one resolver return, one after another, told from the word
//! that each call finds in the cache cell and the answer that the terminal
//! would give it.

use crate::cache::{cached, UNRESOLVED};
use crate::width::chosen_width;
use vstd::prelude::*;

verus! {

/// The width that a call returns when it finds `word` in the cache cell and the
/// terminal, if asked, answers `query`: the cached width where there is one,
/// and otherwise the width chosen from the answer.
///
/// This is also the word that the call leaves in the cell, if no other call
/// writes in between: a hit leaves the cell alone, a miss stores what it returns.
pub open spec fn resolved(word: u16, query: Option<(u16, u16)>) -> u16 {
    match cached(word) {
        Some(width) => width,
        None => chosen_width(query),
    }
}

/// The widths that a run of calls returns, one call after the other, when the
/// first finds `word` in the cache cell and the terminal would answer the
/// calls, in their order, with `queries`.
pub open spec fn widths_returned(word: u16, queries: Seq<Option<(u16, u16)>>) -> Seq<u16>
    decreases queries.len(),
{
    if queries.len() == 0 {
        Seq::empty()
    } else {
        let width = resolved(word, queries.first());
        seq![width].add(widths_returned(width, queries.drop_first()))
    }
}

/// A width chosen from a terminal's answer is never zero, so the cache cell
/// that holds it reads as resolved, with that very width.
pub proof fn lemma_chosen_width_reads_back(query: Option<(u16, u16)>)
    ensures
        chosen_width(query) >= 1,
        chosen_width(query) != UNRESOLVED,
        cached(chosen_width(query)) == Some(chosen_width(query)),
{
}

/// Whatever a call finds in the cache cell and whatever the terminal answers,
/// the width it returns is at least one column.
pub proof fn lemma_resolved_is_positive(word: u16, query: Option<(u16, u16)>)
    ensures
        resolved(word, query) >= 1,
{
}

/// Once a call has resolved the width, a later call returns the same width and
/// leaves it in the cell, whatever the terminal would answer by then.
pub proof fn lemma_resolution_is_stable(
    word: u16,
    first: Option<(u16, u16)>,
    later: Option<(u16, u16)>,
)
    ensures
        resolved(resolved(word, first), later) == resolved(word, first),
{
}

/// All calls of a run return what the first of them returned: there are as
/// many widths as calls, and each equals the width resolved by the first call.
pub proof fn lemma_calls_agree(word: u16, queries: Seq<Option<(u16, u16)>>)
    ensures
        widths_returned(word, queries).len() == queries.len(),
        forall|i: int|
            0 <= i < queries.len() ==> #[trigger] widths_returned(word, queries)[i] == resolved(
                word,
                queries[0],
            ),
    decreases queries.len(),
{
    if queries.len() > 0 {
        let width = resolved(word, queries.first());
        let rest = queries.drop_first();
        lemma_calls_agree(width, rest);
        assert forall|i: int| 0 <= i < queries.len() implies #[trigger] widths_returned(
            word,
            queries,
        )[i] == width by {
            if i > 0 {
                assert(widths_returned(word, queries)[i] == widths_returned(width, rest)[i - 1]);
                assert(rest[0] == queries[1]);
                lemma_resolution_is_stable(word, queries[0], rest[0]);
            }
        }
    }
}

/// Calls that race for an unresolved cell agree too, where the terminal gives
/// them all the same answer: a call that finds the cell still unresolved, or
/// already written by another such call, returns the width chosen from that
/// answer, and that is what it leaves in the cell.
pub proof fn lemma_racing_calls_agree(word: u16, query: Option<(u16, u16)>)
    requires
        word == UNRESOLVED || word == chosen_width(query),
    ensures
        resolved(word, query) == chosen_width(query),
{
}

} // verus!
