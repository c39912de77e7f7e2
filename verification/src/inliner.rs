//! The module inliner: resolve every external module reference by
//! substituting the referenced source's declarations in place,
//! recursively, so that the tree handed to the passes is one
//! self-contained program.
//!
//! Sources are keyed by module path (the chain of module names from
//! the crate root).  Inlining is specified by the recursive spec
//! functions `sinline_decl` / `sinline_decls`, and the executable
//! inliner returns exactly their value.  A reference with no backing
//! source is collected — all of them, not just the first — with the
//! file and line of its declaring reference, and reported as fatal by
//! the driver.  References under a test-only configuration are
//! attributes like any other and are inlined the same way, never
//! skipped.

use vstd::prelude::*;

use crate::tree::{
    decl_self_contained, decl_size, dup_decls, self_contained, tree_size, Declaration, DeclList,
    NameList,
};

verus! {

/// One unresolved module reference: the module's name, where the
/// declaring reference stands, and the module path it was resolved
/// against.
#[derive(Debug, PartialEq, Eq)]
pub struct ModRef {
    pub name: String,
    pub file: String,
    pub line: u64,
    pub chain: NameList,
}

#[derive(Debug, PartialEq, Eq)]
pub enum ModRefList {
    Nil,
    Cons(ModRef, Box<ModRefList>),
}

/// One source file's declarations, keyed by its module path.
#[derive(Debug, PartialEq, Eq)]
pub struct ModSource {
    pub chain: NameList,
    pub decls: DeclList,
}

#[derive(Debug, PartialEq, Eq)]
pub enum ModSourceList {
    Nil,
    Cons(ModSource, Box<ModSourceList>),
}

/// The sources available for inlining.
#[derive(Debug, PartialEq, Eq)]
pub struct ModStore {
    pub entries: ModSourceList,
}

pub open spec fn mlen(l: ModRefList) -> nat
    decreases l,
{
    match l {
        ModRefList::Nil => 0,
        ModRefList::Cons(_, rest) => 1 + mlen(*rest),
    }
}

pub open spec fn chain_len(c: NameList) -> nat
    decreases c,
{
    match c {
        NameList::Nil => 0,
        NameList::Cons(_, rest) => 1 + chain_len(*rest),
    }
}

/// Two module paths name the same source: same names in the same
/// order.
pub open spec fn names_match(a: NameList, b: NameList) -> bool
    decreases a,
{
    match (a, b) {
        (NameList::Nil, NameList::Nil) => true,
        (NameList::Cons(x, xs), NameList::Cons(y, ys)) => x@ == y@ && names_match(*xs, *ys),
        _ => false,
    }
}

pub open spec fn chain_in_store(c: NameList, s: ModSourceList) -> bool
    decreases s,
{
    match s {
        ModSourceList::Nil => false,
        ModSourceList::Cons(e, rest) => names_match(e.chain, c) || chain_in_store(c, *rest),
    }
}

/// No collected reference has a backing source in the store.
pub open spec fn all_missing_absent(m: ModRefList, s: ModSourceList) -> bool
    decreases m,
{
    match m {
        ModRefList::Nil => true,
        ModRefList::Cons(r, rest) => !chain_in_store(r.chain, s) && all_missing_absent(*rest, s),
    }
}

pub open spec fn schain_with(c: NameList, s: String) -> NameList
    decreases c,
{
    match c {
        NameList::Nil => NameList::Cons(s, Box::new(NameList::Nil)),
        NameList::Cons(h, t) => NameList::Cons(h, Box::new(schain_with(*t, s))),
    }
}

/// The declarations of the first source whose path matches, if any.
pub open spec fn sstore_find(s: ModSourceList, c: NameList) -> Option<DeclList>
    decreases s,
{
    match s {
        ModSourceList::Nil => Option::None,
        ModSourceList::Cons(e, rest) => if names_match(e.chain, c) {
            Option::Some(e.decls)
        } else {
            sstore_find(*rest, c)
        },
    }
}

/// How many sources have a path strictly longer than `k`.  Resolving
/// a reference descends to a path one name longer, and the matched
/// source no longer counts: the count shrinks, which is what bounds
/// the inlining recursion.
pub open spec fn longer_count(s: ModSourceList, k: nat) -> nat
    decreases s,
{
    match s {
        ModSourceList::Nil => 0,
        ModSourceList::Cons(e, rest) => (if chain_len(e.chain) > k {
            1nat
        } else {
            0nat
        }) + longer_count(*rest, k),
    }
}

proof fn lemma_names_match_len(a: NameList, b: NameList)
    requires
        names_match(a, b),
    ensures
        chain_len(a) == chain_len(b),
    decreases a,
{
    match (a, b) {
        (NameList::Cons(_, xs), NameList::Cons(_, ys)) => {
            lemma_names_match_len(*xs, *ys);
        },
        _ => {},
    }
}

proof fn lemma_schain_len(c: NameList, s: String)
    ensures
        chain_len(schain_with(c, s)) == chain_len(c) + 1,
    decreases c,
{
    match c {
        NameList::Nil => {},
        NameList::Cons(_, t) => {
            lemma_schain_len(*t, s);
        },
    }
}

proof fn lemma_longer_count_mono(s: ModSourceList, k: nat)
    ensures
        longer_count(s, (k + 1) as nat) <= longer_count(s, k),
    decreases s,
{
    match s {
        ModSourceList::Nil => {},
        ModSourceList::Cons(_, rest) => {
            lemma_longer_count_mono(*rest, k);
        },
    }
}

proof fn lemma_found_count_shrinks(s: ModSourceList, c: NameList)
    requires
        sstore_find(s, c) is Some,
        chain_len(c) >= 1,
    ensures
        longer_count(s, chain_len(c)) < longer_count(s, (chain_len(c) - 1) as nat),
    decreases s,
{
    match s {
        ModSourceList::Nil => {},
        ModSourceList::Cons(e, rest) => {
            if names_match(e.chain, c) {
                lemma_names_match_len(e.chain, c);
                lemma_longer_count_mono(*rest, (chain_len(c) - 1) as nat);
            } else {
                lemma_found_count_shrinks(*rest, c);
            }
        },
    }
}

proof fn lemma_find_none_absent(s: ModSourceList, c: NameList)
    ensures
        sstore_find(s, c) is None <==> !chain_in_store(c, s),
    decreases s,
{
    match s {
        ModSourceList::Nil => {},
        ModSourceList::Cons(_, rest) => {
            lemma_find_none_absent(*rest, c);
        },
    }
}

/// What inlining one declaration returns: a module reference whose
/// path has a backing source is substituted with that source's
/// declarations, themselves inlined at the extended path; one without
/// is left unresolved and prepended to the missing list; everything
/// else is untouched.
pub open spec fn sinline_decl(
    d: Declaration,
    chain: NameList,
    store: ModSourceList,
    miss: ModRefList,
) -> (Declaration, ModRefList)
    decreases longer_count(store, chain_len(chain)), 1 + decl_size(d), 0int,
        via sinline_decl_dec
{
    match d {
        Declaration::Module { name, attrs, file, line, content } => {
            let child = schain_with(chain, name);
            match content {
                Option::Some(inner) => {
                    let (c2, m1) = sinline_decls(*inner, child, store, miss);
                    (
                        Declaration::Module {
                            name,
                            attrs,
                            file,
                            line,
                            content: Option::Some(Box::new(c2)),
                        },
                        m1,
                    )
                },
                Option::None => match sstore_find(store, child) {
                    Option::Some(ds) => {
                        let (c2, m1) = sinline_decls(ds, child, store, miss);
                        (
                            Declaration::Module {
                                name,
                                attrs,
                                file,
                                line,
                                content: Option::Some(Box::new(c2)),
                            },
                            m1,
                        )
                    },
                    Option::None => (
                        Declaration::Module { name, attrs, file, line, content: Option::None },
                        ModRefList::Cons(
                            ModRef { name, file, line, chain: child },
                            Box::new(miss),
                        ),
                    ),
                },
            }
        },
        _ => (d, miss),
    }
}

#[via_fn]
proof fn sinline_decl_dec(d: Declaration, chain: NameList, store: ModSourceList, miss: ModRefList) {
    match d {
        Declaration::Module { name, content, .. } => {
            let child = schain_with(chain, name);
            lemma_schain_len(chain, name);
            lemma_longer_count_mono(store, chain_len(chain));
            if content is None && sstore_find(store, child) is Some {
                lemma_found_count_shrinks(store, child);
            }
        },
        _ => {},
    }
}

pub open spec fn sinline_decls(
    l: DeclList,
    chain: NameList,
    store: ModSourceList,
    miss: ModRefList,
) -> (DeclList, ModRefList)
    decreases longer_count(store, chain_len(chain)), tree_size(l), 1int,
{
    match l {
        DeclList::Nil => (DeclList::Nil, miss),
        DeclList::Cons(d, rest) => {
            let (d2, m1) = sinline_decl(d, chain, store, miss);
            let (r2, m2) = sinline_decls(*rest, chain, store, m1);
            (DeclList::Cons(d2, Box::new(r2)), m2)
        },
    }
}

pub fn names_eq(a: &NameList, b: &NameList) -> (r: bool)
    ensures
        r == names_match(*a, *b),
    decreases *a,
{
    match (a, b) {
        (NameList::Nil, NameList::Nil) => true,
        (NameList::Cons(x, xs), NameList::Cons(y, ys)) => if *x == *y {
            names_eq(xs, ys)
        } else {
            false
        },
        _ => false,
    }
}

/// The module path of a sub-module: the current path extended by its
/// name.
pub fn chain_with(chain: &NameList, name: &String) -> (r: NameList)
    ensures
        r == schain_with(*chain, *name),
    decreases *chain,
{
    match chain {
        NameList::Nil => NameList::Cons(name.clone(), Box::new(NameList::Nil)),
        NameList::Cons(h, t) => NameList::Cons(h.clone(), Box::new(chain_with(t, name))),
    }
}

/// Look the source for a module path up in the store.
pub fn store_find<'a>(s: &'a ModSourceList, chain: &NameList) -> (r: Option<&'a DeclList>)
    ensures
        r matches Some(ds) ==> sstore_find(*s, *chain) == Option::Some(*ds),
        r is None ==> sstore_find(*s, *chain) is None,
    decreases *s,
{
    match s {
        ModSourceList::Nil => Option::None,
        ModSourceList::Cons(e, rest) => {
            if names_eq(&e.chain, chain) {
                Option::Some(&e.decls)
            } else {
                store_find(rest, chain)
            }
        },
    }
}

pub fn inline_decl(d: Declaration, chain: &NameList, store: &ModSourceList, miss: ModRefList) -> (r:
    (Declaration, ModRefList))
    ensures
        r == sinline_decl(d, *chain, *store, miss),
        mlen(miss) <= mlen(r.1),
        decl_self_contained(d) ==> r.0 == d && r.1 == miss,
        mlen(r.1) == mlen(miss) <==> decl_self_contained(r.0),
        all_missing_absent(miss, *store) ==> all_missing_absent(r.1, *store),
    decreases longer_count(*store, chain_len(*chain)), 1 + decl_size(d), 0int,
{
    match d {
        Declaration::Module { name, attrs, file, line, content } => {
            let child = chain_with(chain, &name);
            proof {
                lemma_schain_len(*chain, name);
                lemma_longer_count_mono(*store, chain_len(*chain));
            }
            match content {
                Option::Some(inner) => {
                    let (c2, m1) = inline_decls(*inner, &child, store, miss);
                    (
                        Declaration::Module {
                            name,
                            attrs,
                            file,
                            line,
                            content: Option::Some(Box::new(c2)),
                        },
                        m1,
                    )
                },
                Option::None => match store_find(store, &child) {
                    Option::Some(ds) => {
                        proof {
                            lemma_found_count_shrinks(*store, child);
                        }
                        let src = dup_decls(ds);
                        let (c2, m1) = inline_decls(src, &child, store, miss);
                        (
                            Declaration::Module {
                                name,
                                attrs,
                                file,
                                line,
                                content: Option::Some(Box::new(c2)),
                            },
                            m1,
                        )
                    },
                    Option::None => {
                        proof {
                            lemma_find_none_absent(*store, child);
                        }
                        let r = ModRef {
                            name: name.clone(),
                            file: file.clone(),
                            line,
                            chain: child,
                        };
                        (
                            Declaration::Module { name, attrs, file, line, content: Option::None },
                            ModRefList::Cons(r, Box::new(miss)),
                        )
                    },
                },
            }
        },
        _ => (d, miss),
    }
}

pub fn inline_decls(l: DeclList, chain: &NameList, store: &ModSourceList, miss: ModRefList) -> (r:
    (DeclList, ModRefList))
    ensures
        r == sinline_decls(l, *chain, *store, miss),
        mlen(miss) <= mlen(r.1),
        self_contained(l) ==> r.0 == l && r.1 == miss,
        mlen(r.1) == mlen(miss) <==> self_contained(r.0),
        all_missing_absent(miss, *store) ==> all_missing_absent(r.1, *store),
    decreases longer_count(*store, chain_len(*chain)), tree_size(l), 1int,
{
    match l {
        DeclList::Nil => (DeclList::Nil, miss),
        DeclList::Cons(d, rest) => {
            let (d2, m1) = inline_decl(d, chain, store, miss);
            let (r2, m2) = inline_decls(*rest, chain, store, m1);
            (DeclList::Cons(d2, Box::new(r2)), m2)
        },
    }
}

/// What a whole run of the inliner returns for an entry tree and a
/// store: the inlined tree and the unresolved references, newest
/// first.
pub open spec fn spec_inline(decls: DeclList, sources: ModStore) -> (DeclList, ModRefList) {
    sinline_decls(decls, NameList::Nil, sources.entries, ModRefList::Nil)
}

/// Resolve every module reference in the tree against the store,
/// recursively: the result is exactly `spec_inline`.
///
/// Inlining a tree that already has no external module references is
/// a no-op: the tree comes back unchanged and nothing is reported
/// missing.  The result is self-contained exactly when the returned
/// list of unresolved references is empty, and every collected
/// reference really has no backing source in the store — so whenever
/// every referenced module path is backed, everything is resolved.
pub fn inline_modules(decls: DeclList, sources: ModStore) -> (r: (DeclList, ModRefList))
    ensures
        r == spec_inline(decls, sources),
        self_contained(decls) ==> r.0 == decls && r.1 is Nil,
        r.1 is Nil <==> self_contained(r.0),
        all_missing_absent(r.1, sources.entries),
{
    let ModStore { entries } = sources;
    let root = NameList::Nil;
    let (inlined, missing) = inline_decls(decls, &root, &entries, ModRefList::Nil);
    proof {
        if mlen(missing) == 0 {
            assert(missing is Nil) by {
                if missing is Cons {
                    assert(mlen(missing) >= 1);
                }
            };
        }
    }
    (inlined, missing)
}

} // verus!
