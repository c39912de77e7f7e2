//! A verified core for an automated test-case reducer.
//!
//! Given the declaration tree of a source file and an oracle that decides
//! whether a candidate tree is still "interesting", the reducer inlines
//! referenced sub-modules and then runs a fixed pipeline of transform
//! passes, each a greedy oracle-checked search for deletable or
//! simplifiable structure.

pub mod inliner;
pub mod transforms;
pub mod tree;

use vstd::prelude::*;

use crate::inliner::{all_missing_absent, inline_modules, spec_inline, ModRefList, ModStore};
use crate::transforms::privatiser::{priv_fixed, privatise_items};
use crate::tree::{self_contained, SourceFile};

verus! {

/// The oracle: an external verdict on whether a candidate tree still
/// exhibits the behaviour being hunted.
///
/// Implementations live outside the verified core (they typically
/// write the candidate to the file an external command reads, run the
/// command, and classify its output).  The contract models the oracle
/// as a fixed predicate over trees: `run` answers `Ok` exactly on the
/// trees the oracle holds interesting.  Every guarantee proved through
/// this trait holds only of implementations that honour that contract;
/// a command that answers inconsistently between invocations (a flaky
/// test, a time-dependent check) is outside the model, and the
/// reduction guarantees — idempotence included — presuppose consistent
/// answers, as the reduction properties themselves do.
pub trait Runnable {
    /// The oracle's judgment of a candidate tree.
    spec fn interesting(&self, t: SourceFile) -> bool;

    /// Directory the oracle command runs in.
    fn root(&self) -> &str;

    /// Path of the working file the oracle reads.
    fn get_path(&self) -> &str;

    /// Persist the candidate where the oracle expects it and ask for a
    /// verdict.  `Err` carries a human-readable cause.
    fn run(&self, t: &SourceFile) -> (r: Result<(), String>)
        ensures
            r is Ok <==> self.interesting(*t),
    ;
}

/// Why a reduction run aborted before any pass could do work.
#[derive(Debug, PartialEq, Eq)]
pub enum ReduceError {
    /// The freshly inlined, unmodified tree was not interesting; the
    /// message is the oracle's cause.
    NotInteresting(String),
    /// Module references with no backing source: all of them, each
    /// with the file and line of its declaring reference.
    UnresolvedModules(ModRefList),
}

/// The reduction driver: inline all referenced sub-modules, verify
/// that the inlined tree is interesting, then run the six transform
/// passes in their fixed order, each to a local fixpoint.
///
/// The run aborts with `UnresolvedModules` exactly when inlining
/// (`spec_inline`) leaves references unresolved; the reported list is
/// the inliner's complete one — every reference with no backing
/// source, each with the file and line of its declaring reference —
/// and no pass runs.  When everything resolves, the run fails with
/// `NotInteresting` exactly when the freshly inlined tree is not
/// interesting.  On success the returned tree is interesting,
/// self-contained, and at a fixpoint of the final (visibility
/// demotion) pass.
pub fn reduce<R: Runnable>(runnable: &R, entry: SourceFile, sources: ModStore) -> (res: Result<
    SourceFile,
    ReduceError,
>)
    ensures
        res matches Ok(t) ==> runnable.interesting(t) && self_contained(t.decls) && priv_fixed(
            t.decls,
            runnable,
        ),
        res matches Err(ReduceError::UnresolvedModules(ms)) ==> ms == spec_inline(
            entry.decls,
            sources,
        ).1 && ms is Cons && all_missing_absent(ms, sources.entries),
        spec_inline(entry.decls, sources).1 is Cons <==> res matches Err(
            ReduceError::UnresolvedModules(_),
        ),
        spec_inline(entry.decls, sources).1 is Nil ==> ((res matches Err(e) ==> e matches
            ReduceError::NotInteresting(_)) && (res is Err <==> !runnable.interesting(
            SourceFile { decls: spec_inline(entry.decls, sources).0 },
        ))),
        self_contained(entry.decls) ==> ((res matches Err(e) ==> e matches
            ReduceError::NotInteresting(_)) && (res is Err <==> !runnable.interesting(entry))),
{
    let SourceFile { decls } = entry;
    let (inlined, missing) = inline_modules(decls, sources);
    if let ModRefList::Cons(first, rest) = missing {
        return Err(ReduceError::UnresolvedModules(ModRefList::Cons(first, rest)));
    }
    let mut file = SourceFile { decls: inlined };
    if let Err(msg) = runnable.run(&file) {
        return Err(ReduceError::NotInteresting(msg));
    }
    let _ = transforms::prune_items::prune_items(&mut file, runnable);
    let _ = transforms::remove_derive_attrs::remove_derive_attrs(&mut file, runnable);
    let _ = transforms::remove_doc_attrs::remove_doc_attrs(&mut file, runnable);
    let _ = transforms::empty_blocks::empty_blocks(&mut file, runnable);
    let _ = transforms::clear_blocks::clear_blocks(&mut file, runnable);
    let _ = privatise_items(&mut file, runnable);
    Ok(file)
}

} // verus!
