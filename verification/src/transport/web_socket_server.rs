//! The WebSocket server: which metrics a client has asked for.

use vstd::prelude::*;

verus! {

/// Whether a client that connected under `path` gets the metric with the
/// name `name`.
///
/// The path `/` asks for every metric. Any other path asks for the one
/// metric whose name is the path without its first byte. The empty path asks
/// for nothing.
pub open spec fn spec_path_selects(path: Seq<u8>, name: Seq<u8>) -> bool {
    path.len() >= 1 && ((path.len() == 1 && path[0] == 0x2F) || path.subrange(
        1,
        path.len() as int,
    ) == name)
}

/// Whether a client that connected under `path` gets the metric with the
/// name `name`.
pub fn path_selects(path: &[u8], name: &[u8]) -> (selected: bool)
    ensures
        selected == spec_path_selects(path@, name@),
{
    if path.len() == 0 {
        return false;
    }
    if path.len() == 1 && path[0] == 0x2F {
        return true;
    }
    if path.len() - 1 != name.len() {
        assert(path@.subrange(1, path@.len() as int).len() != name@.len());
        return false;
    }
    let mut i: usize = 0;
    while i < name.len()
        invariant
            i <= name@.len(),
            path@.len() == name@.len() + 1,
            forall|j: int| 0 <= j < i ==> path@[j + 1] == name@[j],
        decreases name@.len() - i,
    {
        if path[i + 1] != name[i] {
            assert(path@.subrange(1, path@.len() as int)[i as int] != name@[i as int]);
            return false;
        }
        i += 1;
    }
    assert(path@.subrange(1, path@.len() as int) =~= name@);
    true
}

} // verus!
