use vstd::prelude::*;

verus! {

/// The version of this crate, as `MAJOR.MINOR.PATCH`.
pub open spec fn version_text() -> Seq<char> {
    seq!['0', '.', '1', '3', '.', '1']
}

/// Returns the version of this crate in the format `MAJOR.MINOR.PATCH`.
pub fn version() -> (r: &'static str)
    ensures
        r@ == version_text(),
{
    let r = "0.13.1";
    proof {
        reveal_strlit("0.13.1");
    }
    r
}

} // verus!
