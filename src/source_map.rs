use vstd::prelude::*;

verus! {

/// The source name that a source map of a script bundle records for a source whose path
/// relative to the project root is `rel`: that path behind a leading `/`.
pub fn remap_source(rel: &str) -> (r: String)
    ensures
        r@ == seq!['/'] + rel@,
{
    proof { reveal_strlit("/"); }
    String::from_str("/").concat(rel)
}

} // verus!
