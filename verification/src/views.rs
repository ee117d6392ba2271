//! Bridging lemmas between the deep view of line storage (`Vec<Vec<u8>>`,
//! `Vec<u8>`) and the element-wise views the contracts are written over.

use vstd::prelude::*;

verus! {

/// A byte vector's deep view is its ordinary view.
pub broadcast proof fn lemma_bytes_deep_view(v: Vec<u8>)
    ensures
        #[trigger] v.deep_view() == v@,
{
    assert(v.deep_view() =~= v@);
}

/// Indexing the deep view of a vector of lines reads the indexed line's view.
pub broadcast proof fn lemma_lines_deep_view_index(v: Vec<Vec<u8>>, i: int)
    requires
        0 <= i < v@.len(),
    ensures
        #[trigger] v.deep_view()[i] == v@[i]@,
        v.deep_view().len() == v@.len(),
{
    lemma_bytes_deep_view(v@[i]);
}

} // verus!
