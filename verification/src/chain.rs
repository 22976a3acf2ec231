//! Commit chain writer: appends a snapshot's root tree as a new commit on
//! the dedicated history reference, with the reference's current target (if
//! any) as the sole parent. The chain this builds is strictly linear.

use vstd::prelude::*;
use crate::errors::WatchError;
use crate::ids::ObjectId;
use crate::store::{self, commit_message_of, commit_parents_of, commit_tree_of};

verus! {

/// One commit of the history chain, as plain id bytes.
pub struct ChainLink {
    pub id: Seq<u8>,
    pub parent: Option<Seq<u8>>,
}

/// A strictly linear chain: the first commit is parentless and every later
/// commit's sole parent is its predecessor.
pub open spec fn linear_chain(c: Seq<ChainLink>) -> bool {
    &&& (c.len() > 0 ==> c[0].parent is None)
    &&& (forall|i: int| 0 < i < c.len() ==> (#[trigger] c[i]).parent == Some(c[i - 1].id))
}

/// The parent the chain writer picks: the current head, or none for the
/// chain root.
pub open spec fn head_parent(c: Seq<ChainLink>) -> Option<Seq<u8>> {
    if c.len() == 0 {
        None
    } else {
        Some(c[c.len() - 1].id)
    }
}

/// The history reference chain stays strictly linear: appending a commit
/// whose sole parent is the reference's current target (none when the
/// reference is unborn) turns a linear chain into a longer linear chain, so
/// the Nth commit's sole parent is always the (N-1)th.
pub proof fn lemma_chain_append_linear(c: Seq<ChainLink>, link: ChainLink)
    requires
        linear_chain(c),
        link.parent == head_parent(c),
    ensures
        linear_chain(c.push(link)),
{
    let c2 = c.push(link);
    assert forall|i: int| 0 < i < c2.len() implies (#[trigger] c2[i]).parent == Some(
        c2[i - 1].id,
    ) by {
        if i < c.len() {
            assert(c2[i] == c[i]);
            assert(c2[i - 1] == c[i - 1]);
        } else {
            assert(c2[i] == link);
            assert(c2[i - 1] == c[c.len() - 1]);
        }
    }
    if c2.len() > 0 {
        if c.len() > 0 {
            assert(c2[0] == c[0]);
        } else {
            assert(c2[0] == link);
        }
    }
}

/// Append `tree` as a new commit on the dedicated history reference. The
/// reference's current target, when it resolves, becomes the sole parent;
/// otherwise the new commit is the parentless chain root. Returns the new
/// commit's id and the parent used: the written commit holds exactly the
/// given tree, the fixed message, and exactly the returned parent option as
/// its parent list.
pub fn write_gb_commit(repo: &git2::Repository, tree: &ObjectId) -> (r: Result<
    (ObjectId, Option<ObjectId>),
    WatchError,
>)
    requires
        tree.wf(),
    ensures
        r matches Ok(p) ==> p.0.wf() && commit_tree_of(p.0@) == tree@ && commit_message_of(p.0@)
            == "gitbutler check"@ && (match p.1 {
            Some(parent) => parent.wf() && commit_parents_of(p.0@) == seq![parent@],
            None => commit_parents_of(p.0@) == Seq::<Seq<u8>>::empty(),
        }),
{
    let parent = match store::resolve_ref_target(repo, "refs/gitbutler/current") {
        Ok(id) => Some(id),
        Err(_) => None,
    };
    match parent {
        Some(p) => {
            match store::commit_child(repo, "refs/gitbutler/current", "gitbutler check", tree, &p) {
                Ok(c) => Ok((c, Some(p))),
                Err(e) => Err(WatchError::GitError(e)),
            }
        },
        None => {
            match store::commit_root(repo, "refs/gitbutler/current", "gitbutler check", tree) {
                Ok(c) => Ok((c, None)),
                Err(e) => Err(WatchError::GitError(e)),
            }
        },
    }
}

} // verus!
