//! Walking a directory tree that was read from disk.

use vstd::prelude::*;

verus! {

/// An entry of a directory as it was found on disk: its path and, where it is a
/// directory that could be read, its own entries in the order they were listed.
#[derive(Debug, PartialEq, Eq)]
pub struct DirNode {
    pub path: String,
    pub listing: Option<Vec<DirNode>>,
}

/// Why a walk did not begin.
#[derive(Debug, Clone, Copy, PartialEq, Eq, Structural)]
pub enum WalkError {
    /// The directory to walk could not be read.
    Unreadable,
}

/// The paths below the entries of `entries`: each entry's own path, followed at once by
/// the paths below it, entry after entry.
pub open spec fn paths_of(entries: Seq<DirNode>) -> Seq<Seq<char>>
    decreases entries, 0int,
{
    if entries.len() == 0 {
        Seq::empty()
    } else {
        paths_of(entries.drop_last()).push(entries.last().path@) + paths_below(entries.last())
    }
}

/// The paths below `node`: none where it is not a directory that could be read.
pub open spec fn paths_below(node: DirNode) -> Seq<Seq<char>>
    decreases node, 1int,
{
    match node.listing {
        Some(children) => paths_of(children@),
        None => Seq::empty(),
    }
}

/// Visits everything below `dir`, parents before their entries and entries in listing
/// order, and appends each path to `visited`. Fails, leaving `visited` as it was, where
/// `dir` itself could not be read; what cannot be read further down is visited but not
/// entered.
pub fn walk_dir_recursively(dir: &DirNode, visited: &mut Vec<String>) -> (outcome: Result<
    (),
    WalkError,
>)
    ensures
        dir.listing is Some ==> outcome is Ok && final(visited).deep_view() == old(
            visited,
        ).deep_view() + paths_below(*dir),
        dir.listing is None ==> outcome == Err::<(), WalkError>(WalkError::Unreadable)
            && *final(visited) == *old(visited),
    decreases *dir,
{
    match &dir.listing {
        None => Err(WalkError::Unreadable),
        Some(children) => {
            let mut index: usize = 0;
            assert(children@.take(0) == Seq::<DirNode>::empty());
            while index < children.len()
                invariant
                    index <= children.len(),
                    dir.listing == Some(*children),
                    visited.deep_view() == old(visited).deep_view() + paths_of(
                        children@.take(index as int),
                    ),
                decreases children.len() - index,
            {
                let child = &children[index];
                let ghost before = visited.deep_view();
                visited.push(child.path.clone());
                assert(visited.deep_view() == before.push(child.path@));
                let ghost entered = visited.deep_view();
                assert(decreases_to!(*dir => *child)) by {
                    assert(decreases_to!(*dir => dir.listing));
                    assert(decreases_to!(dir.listing => dir.listing->0));
                    assert(decreases_to!(*children => children@));
                    assert(decreases_to!(children@ => children@[index as int]));
                }
                let _ = walk_dir_recursively(child, visited);
                proof {
                    let seen = children@.take(index + 1);
                    assert(seen.drop_last() == children@.take(index as int));
                    assert(seen.last() == *child);
                    assert(visited.deep_view() == entered + paths_below(*child));
                }
                index += 1;
            }
            assert(children@.take(index as int) == children@);
            Ok(())
        },
    }
}

} // verus!
