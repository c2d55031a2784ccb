//! The values a setting takes when the document does not give it.

use vstd::prelude::*;

verus! {

/// The characters of `d2`, the name shared by the renderer binary and the
/// output directory.
pub open spec fn d2() -> Seq<char> {
    seq!['d', '2']
}

/// Where the renderer is looked for when no `path` is given: the bare program
/// name, left for the host to resolve at the time it runs the renderer.
pub fn bin_path() -> (path: String)
    ensures
        path@ == d2(),
{
    proof {
        reveal_strlit("d2");
    }
    let path = "d2".to_owned();
    assert(path@ =~= d2());
    path
}

/// The directory that rendered diagrams go to when no `output-dir` is given.
pub fn output_dir() -> (dir: String)
    ensures
        dir@ == d2(),
{
    proof {
        reveal_strlit("d2");
    }
    let dir = "d2".to_owned();
    assert(dir@ =~= d2());
    dir
}

/// Whether diagrams are embedded inline when `inline` is not given.
pub fn inline() -> (flag: bool)
    ensures
        flag,
{
    true
}

} // verus!
