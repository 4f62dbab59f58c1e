//! Physical outputs and the rule that picks the one the user selected.

use vstd::prelude::*;

verus! {

/// One display as the compositor reports it.
#[derive(Clone, Copy, Debug, PartialEq, Eq, Structural)]
pub struct Output {
    /// Where the top-left corner of the output lies in the global space.
    pub x: i32,
    pub y: i32,
    /// The size of the output in pixels.
    pub width: i32,
    pub height: i32,
}

impl Output {
    /// Whether the top-left corner of the output lies exactly at `(x, y)`.
    pub open spec fn spec_is_at(self, x: i32, y: i32) -> bool {
        self.x == x && self.y == y
    }

    #[verifier::when_used_as_spec(spec_is_at)]
    pub fn is_at(self, x: i32, y: i32) -> (at: bool)
        ensures
            at == self.spec_is_at(x, y),
    {
        self.x == x && self.y == y
    }
}

/// Whether `outputs[i]` lies at `(x, y)` and none before it does.
pub open spec fn is_first_output_at(outputs: Seq<Output>, x: i32, y: i32, i: int) -> bool {
    &&& 0 <= i < outputs.len()
    &&& outputs[i].spec_is_at(x, y)
    &&& forall|j: int| 0 <= j < i ==> !(#[trigger] outputs[j]).spec_is_at(x, y)
}

/// Whether none of `outputs` lies at `(x, y)`.
pub open spec fn no_output_at(outputs: Seq<Output>, x: i32, y: i32) -> bool {
    forall|j: int| 0 <= j < outputs.len() ==> !(#[trigger] outputs[j]).spec_is_at(x, y)
}

/// Only one place can be the first, and there is none if no output lies at
/// `(x, y)`.
pub proof fn lemma_first_output_is_unique(outputs: Seq<Output>, x: i32, y: i32, i: int, j: int)
    requires
        is_first_output_at(outputs, x, y, i),
    ensures
        is_first_output_at(outputs, x, y, j) ==> i == j,
        !no_output_at(outputs, x, y),
{
}

/// Picks the output that the user meant by selecting `(x, y)`: the first one
/// whose top-left corner lies exactly there. Outputs that merely cover the
/// point do not count, and of several at the same place the earliest wins.
pub fn find_output(outputs: &[Output], x: i32, y: i32) -> (found: Option<usize>)
    ensures
        match found {
            Some(i) => is_first_output_at(outputs@, x, y, i as int),
            None => no_output_at(outputs@, x, y),
        },
{
    let mut i: usize = 0;
    while i < outputs.len()
        invariant
            i <= outputs.len(),
            forall|j: int| 0 <= j < i ==> !(#[trigger] outputs[j]).spec_is_at(x, y),
        decreases outputs.len() - i,
    {
        if outputs[i].is_at(x, y) {
            return Some(i);
        }
        i += 1;
    }
    None
}

} // verus!
