//! Finding the first mark on a line.
//!
//! Diagnostics and breakpoints are kept in the order in which they were
//! reported. Where several sit on one line, a gutter draws the first.

use vstd::prelude::*;

verus! {

/// Whether position `i` of `lines` holds `line` and no earlier position
/// does.
pub open spec fn is_first_at(lines: Seq<usize>, line: usize, i: int) -> bool {
    &&& 0 <= i < lines.len()
    &&& lines[i] == line
    &&& forall|j: int| 0 <= j < i ==> lines[j] != line
}

/// The first position of `lines` that holds `line`, if any does.
pub open spec fn first_at(lines: Seq<usize>, line: usize) -> Option<int> {
    if exists|i: int| is_first_at(lines, line, i) {
        Some(choose|i: int| is_first_at(lines, line, i))
    } else {
        None
    }
}

/// At most one position is the first to hold `line`, and `first_at` names
/// it.
pub proof fn lemma_first_at_found(lines: Seq<usize>, line: usize, i: int)
    requires
        is_first_at(lines, line, i),
    ensures
        first_at(lines, line) == Some(i),
{
    let k = choose|k: int| is_first_at(lines, line, k);
    assert(is_first_at(lines, line, k));
    if k < i {
        assert(lines[k] != line);
    } else if i < k {
        assert(lines[i] != line);
    }
}

/// `first_at` finds a position exactly when some position holds `line`.
pub proof fn lemma_first_at_none(lines: Seq<usize>, line: usize)
    ensures
        first_at(lines, line) is None <==> forall|j: int|
            0 <= j < lines.len() ==> lines[j] != line,
{
    if first_at(lines, line) is None {
        assert forall|j: int| 0 <= j < lines.len() implies lines[j] != line by {
            if lines[j] == line {
                lemma_some_position_is_first(lines, line, j);
            }
        }
    } else {
        let k = choose|k: int| is_first_at(lines, line, k);
        assert(lines[k] == line);
    }
}

/// Where a position holds `line`, some position at or before it is the
/// first to do so.
proof fn lemma_some_position_is_first(lines: Seq<usize>, line: usize, j: int)
    requires
        0 <= j < lines.len(),
        lines[j] == line,
    ensures
        exists|i: int| is_first_at(lines, line, i),
    decreases j,
{
    if exists|k: int| 0 <= k < j && lines[k] == line {
        let k = choose|k: int| 0 <= k < j && lines[k] == line;
        lemma_some_position_is_first(lines, line, k);
    } else {
        assert(is_first_at(lines, line, j));
    }
}

} // verus!
