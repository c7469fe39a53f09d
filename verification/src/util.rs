//! Small helpers on slices.

use vstd::prelude::*;
use vstd::std_specs::cmp::PartialEqSpec;
use crate::piece::Piece;

verus! {

/// A sequence is uniform when it is not empty and every item after the
/// first equals the first.
pub open spec fn uniform<T: PartialEq>(s: Seq<T>) -> bool {
    s.len() > 0 && forall|i: int| 1 <= i < s.len() ==> (#[trigger] s[i]).eq_spec(&s[0])
}

/// Whether the slice is not empty and all its items equal the first. The
/// result is stated for every type whose `==` has a meaning in contracts;
/// pieces and cells are among them.
pub fn all_equal<T>(s: &[T]) -> (r: bool) where T: PartialEq
    ensures
        T::obeys_eq_spec() ==> r == uniform(s@),
        s@.len() == 0 ==> !r,
        s@.len() == 1 ==> r,
{
    if s.len() == 0 {
        return false;
    }
    let mut i: usize = 1;
    while i < s.len()
        invariant
            1 <= i <= s@.len(),
            T::obeys_eq_spec() ==> forall|j: int| 1 <= j < i ==> (#[trigger] s@[j]).eq_spec(&s@[0]),
        decreases s@.len() - i,
    {
        if !s[i].eq(&s[0]) {
            return false;
        }
        i += 1;
    }
    true
}

/// Cells are uniform exactly when there is at least one and all hold the
/// same content: all are empty, or all hold the same piece.
pub proof fn uniform_cells_are_alike(s: Seq<Option<Piece>>)
    ensures
        uniform(s) <==> s.len() > 0 && forall|i: int|
            0 <= i < s.len() ==> (#[trigger] s[i]) == s[0],
{
    if s.len() > 0 {
        assert forall|i: int| 0 <= i < s.len() implies ((#[trigger] s[i]).eq_spec(&s[0]) <==> s[i]
            == s[0]) by {}
    }
}

} // verus!
