//! Facts about the views of the library's containers.
use vstd::prelude::*;

verus! {

/// The deep view of a character vector is its view.
pub broadcast proof fn lemma_char_vec_deep_view(v: Vec<char>)
    ensures
        #[trigger] v.deep_view() == v@,
{
    assert(v.deep_view() =~= v@);
}

pub broadcast group group_view_lemmas {
    lemma_char_vec_deep_view,
}

} // verus!
