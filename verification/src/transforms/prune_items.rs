//! Item pruning: delete one whole declaration or method, at any nesting depth.  Outer declarations are enumerated before their children, so a removable module is tried whole before its members are decomposed one by one.

use vstd::prelude::*;

use crate::transforms::engine::{fixed, run_pass, stepped, PassKind};
use crate::tree::{self_contained, DeclList, SourceFile};
use crate::Runnable;

verus! {

/// Run the pass to its fixpoint.
///
/// Running the pass to fixpoint is idempotent: the fixpoint clauses
/// say that no remaining target yields a mutation the oracle would
/// accept, and that a tree already at the fixpoint comes back
/// unchanged with nothing accepted.  The ghost log holds every
/// accepted candidate: each was verified interesting by the oracle at
/// the moment it was accepted, each arises from its predecessor (or
/// from the input) by one step of this pass, and the final tree is
/// the last of them (or the input, where none was accepted).
pub fn prune_items<R: Runnable>(file: &mut SourceFile, runnable: &R) -> (log: Ghost<
    Seq<DeclList>,
>)
    ensures
        fixed(PassKind::Prune, final(file).decls, runnable),
        fixed(PassKind::Prune, old(file).decls, runnable) ==> *final(file) == *old(file)
            && log@.len() == 0,
        log@.len() == 0 ==> *final(file) == *old(file),
        log@.len() > 0 ==> final(file).decls == log@.last(),
        forall|i: int|
            0 <= i < log@.len() ==> runnable.interesting(SourceFile { decls: #[trigger] log@[i] }),
        forall|i: int|
            0 <= i < log@.len() ==> stepped(
                if i == 0 {
                    old(file).decls
                } else {
                    log@[i - 1]
                },
                PassKind::Prune,
                #[trigger] log@[i],
            ),
        *final(file) == *old(file) || runnable.interesting(*final(file)),
        self_contained(old(file).decls) ==> self_contained(final(file).decls),
{
    run_pass(file, PassKind::Prune, runnable)
}

} // verus!
