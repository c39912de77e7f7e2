//! Visibility demotion ("privatisation"): flip one `Public` marker to
//! `Private`, on a top-level or nested function, a named struct field,
//! or a method of an impl block.
//!
//! Targets live at heterogeneous nesting depths, so they are addressed
//! by a (level, index) pair: `level` is the nesting depth being
//! scanned, and `index` linearizes a depth-first walk of that level
//! into one counter that is decremented through each container in
//! traversal order.  Shallow visibility is exhausted before any deeper
//! level is touched.  Struct fields and methods are recursion leaves,
//! bottomed out past a fixed level threshold; the scan does not
//! descend into enum variants.

use vstd::prelude::*;

use crate::tree::{
    decl_pub_count, decl_self_contained, dup_attrs, dup_block, dup_decl, dup_decls, dup_fields,
    dup_impl_items, fields_pub_count, impl_pub_count, pub_count, self_contained, Declaration,
    DeclList, Field, FieldList, Fields, ImplItem, ImplItemList, SourceFile, Vis,
};
use crate::Runnable;

verus! {

/// The level threshold past which field and method leaves are no
/// longer addressed.
pub open spec fn leaf_limit() -> nat {
    5
}

pub open spec fn fields_len(l: FieldList) -> nat
    decreases l,
{
    match l {
        FieldList::Nil => 0,
        FieldList::Cons(_, rest) => 1 + fields_len(*rest),
    }
}

pub open spec fn items_len(l: ImplItemList) -> nat
    decreases l,
{
    match l {
        ImplItemList::Nil => 0,
        ImplItemList::Cons(_, rest) => 1 + items_len(*rest),
    }
}

// ---------------------------------------------------------------------
// Address counts: how many (level, index) addresses a level holds.
// At level 0 every sibling declaration is one address, privatisable or
// not; deeper levels recurse into module contents, struct fields and
// impl items.
// ---------------------------------------------------------------------

pub open spec fn acount_fields(l: FieldList, lvl: usize) -> nat {
    if lvl < leaf_limit() {
        fields_len(l)
    } else {
        0
    }
}

pub open spec fn acount_items(l: ImplItemList, lvl: usize) -> nat {
    if lvl < leaf_limit() {
        items_len(l)
    } else {
        0
    }
}

pub open spec fn acount_in_decl(d: Declaration, lvl: usize) -> nat
    decreases d,
{
    match d {
        Declaration::Module { content: Option::Some(inner), .. } => acount_decls(*inner, lvl),
        Declaration::Struct { fields: Fields::Named(fl), .. } => acount_fields(fl, lvl),
        Declaration::Impl { items, .. } => acount_items(items, lvl),
        _ => 0,
    }
}

pub open spec fn acount_decls(l: DeclList, lvl: usize) -> nat
    decreases l,
{
    match l {
        DeclList::Nil => 0,
        DeclList::Cons(d, rest) => if lvl == 0 {
            1 + acount_decls(*rest, 0)
        } else {
            acount_in_decl(d, (lvl - 1) as usize) + acount_decls(*rest, lvl)
        },
    }
}

// ---------------------------------------------------------------------
// Depth bound: no level at or beyond it holds any address.
// ---------------------------------------------------------------------

pub open spec fn adepth_in_decl(d: Declaration) -> nat
    decreases d,
{
    match d {
        Declaration::Module { content: Option::Some(inner), .. } => adepth_decls(*inner),
        Declaration::Struct { fields: Fields::Named(fl), .. } => if fl is Cons {
            leaf_limit()
        } else {
            0
        },
        Declaration::Impl { items, .. } => if items is Cons {
            leaf_limit()
        } else {
            0
        },
        _ => 0,
    }
}

pub open spec fn adepth_decls(l: DeclList) -> nat
    decreases l,
{
    match l {
        DeclList::Nil => 0,
        DeclList::Cons(d, rest) => {
            let a = 1 + adepth_in_decl(d);
            let b = adepth_decls(*rest);
            if a >= b {
                a
            } else {
                b
            }
        },
    }
}

pub proof fn lemma_no_addresses_past_depth(l: DeclList, lvl: usize)
    requires
        lvl >= adepth_decls(l),
    ensures
        acount_decls(l, lvl) == 0,
    decreases l,
{
    match l {
        DeclList::Nil => {},
        DeclList::Cons(d, rest) => {
            lemma_no_addresses_in_decl_past_depth(d, (lvl - 1) as usize);
            lemma_no_addresses_past_depth(*rest, lvl);
        },
    }
}

pub proof fn lemma_no_addresses_in_decl_past_depth(d: Declaration, lvl: usize)
    requires
        lvl >= adepth_in_decl(d),
    ensures
        acount_in_decl(d, lvl) == 0,
    decreases d,
{
    match d {
        Declaration::Module { content: Option::Some(inner), .. } => {
            lemma_no_addresses_past_depth(*inner, lvl);
        },
        _ => {},
    }
}

/// Saturating executable form of the depth bound.
pub fn depth_bound(l: &DeclList) -> (r: usize)
    ensures
        adepth_decls(*l) <= usize::MAX ==> r == adepth_decls(*l),
        adepth_decls(*l) > usize::MAX ==> r == usize::MAX,
    decreases *l,
{
    match l {
        DeclList::Nil => 0,
        DeclList::Cons(d, rest) => {
            let di = depth_bound_in_decl(d);
            let a = if di == usize::MAX {
                usize::MAX
            } else {
                di + 1
            };
            let b = depth_bound(rest);
            if a >= b {
                a
            } else {
                b
            }
        },
    }
}

pub fn depth_bound_in_decl(d: &Declaration) -> (r: usize)
    ensures
        adepth_in_decl(*d) <= usize::MAX ==> r == adepth_in_decl(*d),
        adepth_in_decl(*d) > usize::MAX ==> r == usize::MAX,
    decreases *d,
{
    match d {
        Declaration::Module { content, .. } => match content {
            Option::Some(inner) => depth_bound(inner),
            Option::None => 0,
        },
        Declaration::Struct { fields, .. } => match fields {
            Fields::Named(fl) => match fl {
                FieldList::Cons(_, _) => 5,
                FieldList::Nil => 0,
            },
            Fields::Opaque(_) => 0,
        },
        Declaration::Impl { items, .. } => match items {
            ImplItemList::Cons(_, _) => 5,
            ImplItemList::Nil => 0,
        },
        _ => 0,
    }
}

// ---------------------------------------------------------------------
// One demotion attempt at a (level, index) address.
//
// `Changed` flips exactly one `Public` marker to `Private`; `NoOp`
// means the address exists but holds nothing demotable (most often an
// already-private item, which is left untouched and costs no oracle
// call); `Past(k)` means the container ran out of addresses with `k`
// of the index left over.
// ---------------------------------------------------------------------

pub enum PrivFields {
    Changed(FieldList),
    NoOp,
    Past(usize),
}

pub enum PrivItems {
    Changed(ImplItemList),
    NoOp,
    Past(usize),
}

pub enum PrivDecl {
    Changed(Declaration),
    NoOp,
    Past(usize),
}

pub enum PrivDecls {
    Changed(DeclList),
    NoOp,
    Past(usize),
}

pub open spec fn spriv_fields(l: FieldList, lvl: usize, n: usize) -> PrivFields
    decreases l,
{
    if lvl >= leaf_limit() {
        PrivFields::Past(n)
    } else {
        match l {
            FieldList::Nil => PrivFields::Past(n),
            FieldList::Cons(f, rest) => if n == 0 {
                if f.vis is Public {
                    PrivFields::Changed(
                        FieldList::Cons(
                            Field { name: f.name, vis: Vis::Private, attrs: f.attrs, ty: f.ty },
                            rest,
                        ),
                    )
                } else {
                    PrivFields::NoOp
                }
            } else {
                match spriv_fields(*rest, lvl, (n - 1) as usize) {
                    PrivFields::Changed(r2) => PrivFields::Changed(
                        FieldList::Cons(f, Box::new(r2)),
                    ),
                    PrivFields::NoOp => PrivFields::NoOp,
                    PrivFields::Past(m) => PrivFields::Past(m),
                }
            },
        }
    }
}

pub open spec fn spriv_items(l: ImplItemList, lvl: usize, n: usize) -> PrivItems
    decreases l,
{
    if lvl >= leaf_limit() {
        PrivItems::Past(n)
    } else {
        match l {
            ImplItemList::Nil => PrivItems::Past(n),
            ImplItemList::Cons(it, rest) => if n == 0 {
                match it {
                    ImplItem::Method { sig, vis: Vis::Public, body } => PrivItems::Changed(
                        ImplItemList::Cons(
                            ImplItem::Method { sig, vis: Vis::Private, body },
                            rest,
                        ),
                    ),
                    _ => PrivItems::NoOp,
                }
            } else {
                match spriv_items(*rest, lvl, (n - 1) as usize) {
                    PrivItems::Changed(r2) => PrivItems::Changed(
                        ImplItemList::Cons(it, Box::new(r2)),
                    ),
                    PrivItems::NoOp => PrivItems::NoOp,
                    PrivItems::Past(m) => PrivItems::Past(m),
                }
            },
        }
    }
}

pub open spec fn spriv_in_decl(d: Declaration, lvl: usize, n: usize) -> PrivDecl
    decreases d,
{
    match d {
        Declaration::Module { name, attrs, file, line, content: Option::Some(inner) } => match
            spriv_decls(*inner, lvl, n) {
            PrivDecls::Changed(c2) => PrivDecl::Changed(
                Declaration::Module {
                    name,
                    attrs,
                    file,
                    line,
                    content: Option::Some(Box::new(c2)),
                },
            ),
            PrivDecls::NoOp => PrivDecl::NoOp,
            PrivDecls::Past(m) => PrivDecl::Past(m),
        },
        Declaration::Struct { sig, vis, attrs, fields: Fields::Named(fl) } => match spriv_fields(
            fl,
            lvl,
            n,
        ) {
            PrivFields::Changed(f2) => PrivDecl::Changed(
                Declaration::Struct { sig, vis, attrs, fields: Fields::Named(f2) },
            ),
            PrivFields::NoOp => PrivDecl::NoOp,
            PrivFields::Past(m) => PrivDecl::Past(m),
        },
        Declaration::Impl { sig, items } => match spriv_items(items, lvl, n) {
            PrivItems::Changed(i2) => PrivDecl::Changed(Declaration::Impl { sig, items: i2 }),
            PrivItems::NoOp => PrivDecl::NoOp,
            PrivItems::Past(m) => PrivDecl::Past(m),
        },
        _ => PrivDecl::Past(n),
    }
}

pub open spec fn spriv_decls(l: DeclList, lvl: usize, n: usize) -> PrivDecls
    decreases l,
{
    match l {
        DeclList::Nil => PrivDecls::Past(n),
        DeclList::Cons(d, rest) => if lvl == 0 {
            if n == 0 {
                match d {
                    Declaration::Function { sig, vis: Vis::Public, attrs, body } => {
                        PrivDecls::Changed(
                            DeclList::Cons(
                                Declaration::Function { sig, vis: Vis::Private, attrs, body },
                                rest,
                            ),
                        )
                    },
                    _ => PrivDecls::NoOp,
                }
            } else {
                match spriv_decls(*rest, 0, (n - 1) as usize) {
                    PrivDecls::Changed(r2) => PrivDecls::Changed(
                        DeclList::Cons(d, Box::new(r2)),
                    ),
                    PrivDecls::NoOp => PrivDecls::NoOp,
                    PrivDecls::Past(m) => PrivDecls::Past(m),
                }
            }
        } else {
            match spriv_in_decl(d, (lvl - 1) as usize, n) {
                PrivDecl::Changed(d2) => PrivDecls::Changed(DeclList::Cons(d2, rest)),
                PrivDecl::NoOp => PrivDecls::NoOp,
                PrivDecl::Past(n2) => match spriv_decls(*rest, lvl, n2) {
                    PrivDecls::Changed(r2) => PrivDecls::Changed(
                        DeclList::Cons(d, Box::new(r2)),
                    ),
                    PrivDecls::NoOp => PrivDecls::NoOp,
                    PrivDecls::Past(j) => PrivDecls::Past(j),
                },
            }
        },
    }
}

pub fn priv_step_fields(l: &FieldList, lvl: usize, n: usize) -> (r: PrivFields)
    ensures
        r == spriv_fields(*l, lvl, n),
        r matches PrivFields::Changed(c) ==> n < acount_fields(*l, lvl) && fields_len(c)
            == fields_len(*l) && fields_pub_count(c) + 1 == fields_pub_count(*l),
        r is NoOp ==> n < acount_fields(*l, lvl),
        r matches PrivFields::Past(m) ==> m + acount_fields(*l, lvl) == n,
    decreases *l,
{
    if lvl >= 5 {
        return PrivFields::Past(n);
    }
    match l {
        FieldList::Nil => PrivFields::Past(n),
        FieldList::Cons(f, rest) => {
            if n == 0 {
                if f.vis == Vis::Public {
                    PrivFields::Changed(
                        FieldList::Cons(
                            Field {
                                name: f.name.clone(),
                                vis: Vis::Private,
                                attrs: dup_attrs(&f.attrs),
                                ty: f.ty.clone(),
                            },
                            Box::new(dup_fields(rest)),
                        ),
                    )
                } else {
                    PrivFields::NoOp
                }
            } else {
                match priv_step_fields(rest, lvl, n - 1) {
                    PrivFields::Changed(r2) => PrivFields::Changed(
                        FieldList::Cons(
                            Field {
                                name: f.name.clone(),
                                vis: f.vis,
                                attrs: dup_attrs(&f.attrs),
                                ty: f.ty.clone(),
                            },
                            Box::new(r2),
                        ),
                    ),
                    PrivFields::NoOp => PrivFields::NoOp,
                    PrivFields::Past(m) => PrivFields::Past(m),
                }
            }
        },
    }
}

pub fn priv_step_items(l: &ImplItemList, lvl: usize, n: usize) -> (r: PrivItems)
    ensures
        r == spriv_items(*l, lvl, n),
        r matches PrivItems::Changed(c) ==> n < acount_items(*l, lvl) && items_len(c) == items_len(
            *l,
        ) && impl_pub_count(c) + 1 == impl_pub_count(*l),
        r is NoOp ==> n < acount_items(*l, lvl),
        r matches PrivItems::Past(m) ==> m + acount_items(*l, lvl) == n,
    decreases *l,
{
    if lvl >= 5 {
        return PrivItems::Past(n);
    }
    match l {
        ImplItemList::Nil => PrivItems::Past(n),
        ImplItemList::Cons(it, rest) => {
            if n == 0 {
                match it {
                    ImplItem::Method { sig, vis, body } => {
                        if *vis == Vis::Public {
                            PrivItems::Changed(
                                ImplItemList::Cons(
                                    ImplItem::Method {
                                        sig: sig.clone(),
                                        vis: Vis::Private,
                                        body: dup_block(body),
                                    },
                                    Box::new(dup_impl_items(rest)),
                                ),
                            )
                        } else {
                            PrivItems::NoOp
                        }
                    },
                    ImplItem::Other(_) => PrivItems::NoOp,
                }
            } else {
                let i2 = match it {
                    ImplItem::Method { sig, vis, body } => ImplItem::Method {
                        sig: sig.clone(),
                        vis: *vis,
                        body: dup_block(body),
                    },
                    ImplItem::Other(s) => ImplItem::Other(s.clone()),
                };
                match priv_step_items(rest, lvl, n - 1) {
                    PrivItems::Changed(r2) => PrivItems::Changed(
                        ImplItemList::Cons(i2, Box::new(r2)),
                    ),
                    PrivItems::NoOp => PrivItems::NoOp,
                    PrivItems::Past(m) => PrivItems::Past(m),
                }
            }
        },
    }
}

pub fn priv_step_in_decl(d: &Declaration, lvl: usize, n: usize) -> (r: PrivDecl)
    ensures
        r == spriv_in_decl(*d, lvl, n),
        r matches PrivDecl::Changed(d2) ==> n < acount_in_decl(*d, lvl) && acount_in_decl(d2, lvl)
            == acount_in_decl(*d, lvl) && adepth_in_decl(d2) == adepth_in_decl(*d)
            && decl_pub_count(d2) + 1 == decl_pub_count(*d) && (decl_self_contained(*d)
            ==> decl_self_contained(d2)),
        r is NoOp ==> n < acount_in_decl(*d, lvl),
        r matches PrivDecl::Past(m) ==> m + acount_in_decl(*d, lvl) == n,
    decreases *d,
{
    match d {
        Declaration::Module { name, attrs, file, line, content: Option::Some(inner) } => {
            match priv_step_decls(inner, lvl, n) {
                PrivDecls::Changed(c2) => PrivDecl::Changed(
                    Declaration::Module {
                        name: name.clone(),
                        attrs: dup_attrs(attrs),
                        file: file.clone(),
                        line: *line,
                        content: Option::Some(Box::new(c2)),
                    },
                ),
                PrivDecls::NoOp => PrivDecl::NoOp,
                PrivDecls::Past(m) => PrivDecl::Past(m),
            }
        },
        Declaration::Struct { sig, vis, attrs, fields: Fields::Named(fl) } => {
            match priv_step_fields(fl, lvl, n) {
                PrivFields::Changed(f2) => PrivDecl::Changed(
                    Declaration::Struct {
                        sig: sig.clone(),
                        vis: *vis,
                        attrs: dup_attrs(attrs),
                        fields: Fields::Named(f2),
                    },
                ),
                PrivFields::NoOp => PrivDecl::NoOp,
                PrivFields::Past(m) => PrivDecl::Past(m),
            }
        },
        Declaration::Impl { sig, items } => match priv_step_items(items, lvl, n) {
            PrivItems::Changed(i2) => PrivDecl::Changed(
                Declaration::Impl { sig: sig.clone(), items: i2 },
            ),
            PrivItems::NoOp => PrivDecl::NoOp,
            PrivItems::Past(m) => PrivDecl::Past(m),
        },
        _ => PrivDecl::Past(n),
    }
}

pub fn priv_step_decls(l: &DeclList, lvl: usize, n: usize) -> (r: PrivDecls)
    ensures
        r == spriv_decls(*l, lvl, n),
        r matches PrivDecls::Changed(c) ==> n < acount_decls(*l, lvl) && acount_decls(c, lvl)
            == acount_decls(*l, lvl) && adepth_decls(c) == adepth_decls(*l) && pub_count(c) + 1
            == pub_count(*l) && (self_contained(*l) ==> self_contained(c)),
        r is NoOp ==> n < acount_decls(*l, lvl),
        r matches PrivDecls::Past(m) ==> m + acount_decls(*l, lvl) == n,
    decreases *l,
{
    match l {
        DeclList::Nil => PrivDecls::Past(n),
        DeclList::Cons(d, rest) => {
            if lvl == 0 {
                if n == 0 {
                    match d {
                        Declaration::Function { sig, vis, attrs, body } => {
                            if *vis == Vis::Public {
                                let flipped = Declaration::Function {
                                    sig: sig.clone(),
                                    vis: Vis::Private,
                                    attrs: dup_attrs(attrs),
                                    body: dup_block(body),
                                };
                                proof {
                                    assert(decl_pub_count(flipped) == 0);
                                    assert(decl_pub_count(*d) == 1);
                                    assert(decl_self_contained(flipped));
                                    assert(adepth_in_decl(flipped) == adepth_in_decl(*d));
                                    assert(acount_in_decl(flipped, (lvl - 1) as usize)
                                        == acount_in_decl(*d, (lvl - 1) as usize));
                                }
                                PrivDecls::Changed(
                                    DeclList::Cons(flipped, Box::new(dup_decls(rest))),
                                )
                            } else {
                                PrivDecls::NoOp
                            }
                        },
                        _ => PrivDecls::NoOp,
                    }
                } else {
                    match priv_step_decls(rest, 0, n - 1) {
                        PrivDecls::Changed(r2) => PrivDecls::Changed(
                            DeclList::Cons(dup_decl(d), Box::new(r2)),
                        ),
                        PrivDecls::NoOp => PrivDecls::NoOp,
                        PrivDecls::Past(m) => PrivDecls::Past(m),
                    }
                }
            } else {
                match priv_step_in_decl(d, lvl - 1, n) {
                    PrivDecl::Changed(d2) => PrivDecls::Changed(
                        DeclList::Cons(d2, Box::new(dup_decls(rest))),
                    ),
                    PrivDecl::NoOp => PrivDecls::NoOp,
                    PrivDecl::Past(n2) => match priv_step_decls(rest, lvl, n2) {
                        PrivDecls::Changed(r2) => PrivDecls::Changed(
                            DeclList::Cons(dup_decl(d), Box::new(r2)),
                        ),
                        PrivDecls::NoOp => PrivDecls::NoOp,
                        PrivDecls::Past(j) => PrivDecls::Past(j),
                    },
                }
            }
        },
    }
}

pub proof fn lemma_priv_fields_past_all_addresses(l: FieldList, lvl: usize, n: usize)
    requires
        n >= acount_fields(l, lvl),
    ensures
        spriv_fields(l, lvl, n) == PrivFields::Past((n - acount_fields(l, lvl)) as usize),
    decreases l,
{
    if lvl < leaf_limit() {
        match l {
            FieldList::Nil => {},
            FieldList::Cons(_, rest) => {
                lemma_priv_fields_past_all_addresses(*rest, lvl, (n - 1) as usize);
            },
        }
    }
}

pub proof fn lemma_priv_items_past_all_addresses(l: ImplItemList, lvl: usize, n: usize)
    requires
        n >= acount_items(l, lvl),
    ensures
        spriv_items(l, lvl, n) == PrivItems::Past((n - acount_items(l, lvl)) as usize),
    decreases l,
{
    if lvl < leaf_limit() {
        match l {
            ImplItemList::Nil => {},
            ImplItemList::Cons(_, rest) => {
                lemma_priv_items_past_all_addresses(*rest, lvl, (n - 1) as usize);
            },
        }
    }
}

pub proof fn lemma_priv_in_decl_past_all_addresses(d: Declaration, lvl: usize, n: usize)
    requires
        n >= acount_in_decl(d, lvl),
    ensures
        spriv_in_decl(d, lvl, n) == PrivDecl::Past((n - acount_in_decl(d, lvl)) as usize),
    decreases d,
{
    match d {
        Declaration::Module { content: Option::Some(inner), .. } => {
            lemma_priv_decls_past_all_addresses(*inner, lvl, n);
        },
        Declaration::Struct { fields: Fields::Named(fl), .. } => {
            lemma_priv_fields_past_all_addresses(fl, lvl, n);
        },
        Declaration::Impl { items, .. } => {
            lemma_priv_items_past_all_addresses(items, lvl, n);
        },
        _ => {},
    }
}

/// Past a level's address count the scan proposes nothing: the step
/// only passes the leftover index through.
pub proof fn lemma_priv_decls_past_all_addresses(l: DeclList, lvl: usize, n: usize)
    requires
        n >= acount_decls(l, lvl),
    ensures
        spriv_decls(l, lvl, n) == PrivDecls::Past((n - acount_decls(l, lvl)) as usize),
    decreases l,
{
    match l {
        DeclList::Nil => {},
        DeclList::Cons(d, rest) => {
            if lvl == 0 {
                lemma_priv_decls_past_all_addresses(*rest, 0, (n - 1) as usize);
            } else {
                lemma_priv_in_decl_past_all_addresses(d, (lvl - 1) as usize, n);
                lemma_priv_decls_past_all_addresses(
                    *rest,
                    lvl,
                    (n - acount_in_decl(d, (lvl - 1) as usize)) as usize,
                );
            }
        },
    }
}

// ---------------------------------------------------------------------
// What demotion may change: `demoted_decls(a, b)` says `b` is `a`
// with some `Public` markers (on functions, named struct fields and
// methods) turned `Private`, and nothing else: no declaration, field,
// item, attribute or body added, removed, reordered or rewritten, and
// opaque declarations verbatim.
// ---------------------------------------------------------------------

pub open spec fn demoted_vis(a: Vis, b: Vis) -> bool {
    a == b || (a == Vis::Public && b == Vis::Private)
}

pub open spec fn demoted_fields(a: FieldList, b: FieldList) -> bool
    decreases a,
{
    match (a, b) {
        (FieldList::Nil, FieldList::Nil) => true,
        (FieldList::Cons(f1, r1), FieldList::Cons(f2, r2)) => f1.name == f2.name && f1.attrs
            == f2.attrs && f1.ty == f2.ty && demoted_vis(f1.vis, f2.vis) && demoted_fields(
            *r1,
            *r2,
        ),
        _ => false,
    }
}

pub open spec fn demoted_items(a: ImplItemList, b: ImplItemList) -> bool
    decreases a,
{
    match (a, b) {
        (ImplItemList::Nil, ImplItemList::Nil) => true,
        (ImplItemList::Cons(i1, r1), ImplItemList::Cons(i2, r2)) => (match (i1, i2) {
            (
                ImplItem::Method { sig: s1, vis: v1, body: b1 },
                ImplItem::Method { sig: s2, vis: v2, body: b2 },
            ) => s1 == s2 && b1 == b2 && demoted_vis(v1, v2),
            (ImplItem::Other(x), ImplItem::Other(y)) => x == y,
            _ => false,
        }) && demoted_items(*r1, *r2),
        _ => false,
    }
}

pub open spec fn demoted_decl(a: Declaration, b: Declaration) -> bool
    decreases a,
{
    match (a, b) {
        (
            Declaration::Module { name: n1, attrs: a1, file: f1, line: l1, content: c1 },
            Declaration::Module { name: n2, attrs: a2, file: f2, line: l2, content: c2 },
        ) => n1 == n2 && a1 == a2 && f1 == f2 && l1 == l2 && (match (c1, c2) {
            (Option::Some(x), Option::Some(y)) => demoted_decls(*x, *y),
            (Option::None, Option::None) => true,
            _ => false,
        }),
        (
            Declaration::Function { sig: s1, vis: v1, attrs: a1, body: b1 },
            Declaration::Function { sig: s2, vis: v2, attrs: a2, body: b2 },
        ) => s1 == s2 && a1 == a2 && b1 == b2 && demoted_vis(v1, v2),
        (
            Declaration::Struct { sig: s1, vis: v1, attrs: a1, fields: f1 },
            Declaration::Struct { sig: s2, vis: v2, attrs: a2, fields: f2 },
        ) => s1 == s2 && v1 == v2 && a1 == a2 && (match (f1, f2) {
            (Fields::Named(x), Fields::Named(y)) => demoted_fields(x, y),
            (Fields::Opaque(x), Fields::Opaque(y)) => x == y,
            _ => false,
        }),
        (Declaration::Enum { .. }, Declaration::Enum { .. }) => a == b,
        (Declaration::Impl { sig: s1, items: i1 }, Declaration::Impl { sig: s2, items: i2 }) => s1
            == s2 && demoted_items(i1, i2),
        (Declaration::Other(x), Declaration::Other(y)) => x == y,
        _ => false,
    }
}

pub open spec fn demoted_decls(a: DeclList, b: DeclList) -> bool
    decreases a,
{
    match (a, b) {
        (DeclList::Nil, DeclList::Nil) => true,
        (DeclList::Cons(d1, r1), DeclList::Cons(d2, r2)) => demoted_decl(d1, d2) && demoted_decls(
            *r1,
            *r2,
        ),
        _ => false,
    }
}

pub proof fn lemma_demoted_refl(a: DeclList)
    ensures
        demoted_decls(a, a),
    decreases a,
{
    match a {
        DeclList::Nil => {},
        DeclList::Cons(d, rest) => {
            lemma_demoted_decl_refl(d);
            lemma_demoted_refl(*rest);
        },
    }
}

pub proof fn lemma_demoted_decl_refl(a: Declaration)
    ensures
        demoted_decl(a, a),
    decreases a,
{
    match a {
        Declaration::Module { content: Option::Some(inner), .. } => {
            lemma_demoted_refl(*inner);
        },
        Declaration::Struct { fields: Fields::Named(fl), .. } => {
            lemma_demoted_fields_refl(fl);
        },
        Declaration::Impl { items, .. } => {
            lemma_demoted_items_refl(items);
        },
        _ => {},
    }
}

pub proof fn lemma_demoted_fields_refl(a: FieldList)
    ensures
        demoted_fields(a, a),
    decreases a,
{
    match a {
        FieldList::Nil => {},
        FieldList::Cons(_, rest) => {
            lemma_demoted_fields_refl(*rest);
        },
    }
}

pub proof fn lemma_demoted_items_refl(a: ImplItemList)
    ensures
        demoted_items(a, a),
    decreases a,
{
    match a {
        ImplItemList::Nil => {},
        ImplItemList::Cons(_, rest) => {
            lemma_demoted_items_refl(*rest);
        },
    }
}

pub proof fn lemma_demoted_trans(a: DeclList, b: DeclList, c: DeclList)
    requires
        demoted_decls(a, b),
        demoted_decls(b, c),
    ensures
        demoted_decls(a, c),
    decreases a,
{
    match (a, b, c) {
        (DeclList::Cons(d1, r1), DeclList::Cons(d2, r2), DeclList::Cons(d3, r3)) => {
            lemma_demoted_decl_trans(d1, d2, d3);
            lemma_demoted_trans(*r1, *r2, *r3);
        },
        _ => {},
    }
}

pub proof fn lemma_demoted_decl_trans(a: Declaration, b: Declaration, c: Declaration)
    requires
        demoted_decl(a, b),
        demoted_decl(b, c),
    ensures
        demoted_decl(a, c),
    decreases a,
{
    match (a, b, c) {
        (
            Declaration::Module { content: Option::Some(x), .. },
            Declaration::Module { content: Option::Some(y), .. },
            Declaration::Module { content: Option::Some(z), .. },
        ) => {
            lemma_demoted_trans(*x, *y, *z);
        },
        (
            Declaration::Struct { fields: Fields::Named(x), .. },
            Declaration::Struct { fields: Fields::Named(y), .. },
            Declaration::Struct { fields: Fields::Named(z), .. },
        ) => {
            lemma_demoted_fields_trans(x, y, z);
        },
        (
            Declaration::Impl { items: x, .. },
            Declaration::Impl { items: y, .. },
            Declaration::Impl { items: z, .. },
        ) => {
            lemma_demoted_items_trans(x, y, z);
        },
        _ => {},
    }
}

pub proof fn lemma_demoted_fields_trans(a: FieldList, b: FieldList, c: FieldList)
    requires
        demoted_fields(a, b),
        demoted_fields(b, c),
    ensures
        demoted_fields(a, c),
    decreases a,
{
    match (a, b, c) {
        (FieldList::Cons(_, r1), FieldList::Cons(_, r2), FieldList::Cons(_, r3)) => {
            lemma_demoted_fields_trans(*r1, *r2, *r3);
        },
        _ => {},
    }
}

pub proof fn lemma_demoted_items_trans(a: ImplItemList, b: ImplItemList, c: ImplItemList)
    requires
        demoted_items(a, b),
        demoted_items(b, c),
    ensures
        demoted_items(a, c),
    decreases a,
{
    match (a, b, c) {
        (ImplItemList::Cons(_, r1), ImplItemList::Cons(_, r2), ImplItemList::Cons(_, r3)) => {
            lemma_demoted_items_trans(*r1, *r2, *r3);
        },
        _ => {},
    }
}

/// Every candidate the scan proposes is its input with exactly one
/// marker demoted, so in particular a demotion in the sense of
/// `demoted_decls`.
pub proof fn lemma_spriv_demotes(l: DeclList, lvl: usize, n: usize)
    ensures
        spriv_decls(l, lvl, n) matches PrivDecls::Changed(c) ==> demoted_decls(l, c),
    decreases l,
{
    match l {
        DeclList::Nil => {},
        DeclList::Cons(d, rest) => {
            if lvl == 0 {
                if n == 0 {
                    match d {
                        Declaration::Function { sig, vis: Vis::Public, attrs, body } => {
                            let flipped = Declaration::Function {
                                sig,
                                vis: Vis::Private,
                                attrs,
                                body,
                            };
                            assert(demoted_vis(Vis::Public, Vis::Private));
                            assert(demoted_decl(d, flipped));
                        },
                        _ => {},
                    }
                    lemma_demoted_refl(*rest);
                } else {
                    lemma_demoted_decl_refl(d);
                    lemma_spriv_demotes(*rest, 0, (n - 1) as usize);
                }
            } else {
                lemma_spriv_in_decl_demotes(d, (lvl - 1) as usize, n);
                lemma_demoted_refl(*rest);
                if let PrivDecl::Past(n2) = spriv_in_decl(d, (lvl - 1) as usize, n) {
                    lemma_demoted_decl_refl(d);
                    lemma_spriv_demotes(*rest, lvl, n2);
                }
            }
        },
    }
}

pub proof fn lemma_spriv_in_decl_demotes(d: Declaration, lvl: usize, n: usize)
    ensures
        spriv_in_decl(d, lvl, n) matches PrivDecl::Changed(d2) ==> demoted_decl(d, d2),
    decreases d,
{
    match d {
        Declaration::Module { content: Option::Some(inner), .. } => {
            lemma_spriv_demotes(*inner, lvl, n);
        },
        Declaration::Struct { fields: Fields::Named(fl), .. } => {
            lemma_spriv_fields_demotes(fl, lvl, n);
        },
        Declaration::Impl { items, .. } => {
            lemma_spriv_items_demotes(items, lvl, n);
        },
        _ => {},
    }
}

pub proof fn lemma_spriv_fields_demotes(l: FieldList, lvl: usize, n: usize)
    ensures
        spriv_fields(l, lvl, n) matches PrivFields::Changed(c) ==> demoted_fields(l, c),
    decreases l,
{
    if lvl < leaf_limit() {
        match l {
            FieldList::Nil => {},
            FieldList::Cons(_, rest) => {
                if n == 0 {
                    lemma_demoted_fields_refl(*rest);
                } else {
                    lemma_spriv_fields_demotes(*rest, lvl, (n - 1) as usize);
                }
            },
        }
    }
}

pub proof fn lemma_spriv_items_demotes(l: ImplItemList, lvl: usize, n: usize)
    ensures
        spriv_items(l, lvl, n) matches PrivItems::Changed(c) ==> demoted_items(l, c),
    decreases l,
{
    if lvl < leaf_limit() {
        match l {
            ImplItemList::Nil => {},
            ImplItemList::Cons(_, rest) => {
                if n == 0 {
                    lemma_demoted_items_refl(*rest);
                } else {
                    lemma_spriv_items_demotes(*rest, lvl, (n - 1) as usize);
                }
            },
        }
    }
}

/// Visibility demotion never changes an already-private item: every
/// candidate the scan can propose, at any level and index, flips
/// exactly one `Public` marker to `Private` — the pub count drops by
/// one — and a tree with nothing public left yields no candidate at
/// all.  (An address holding a private item is a no-op: it produces
/// no candidate, costs no oracle call, and is not counted as a
/// tree-altering mutation attempt.)
pub proof fn lemma_demotion_flips_one_public(l: DeclList, lvl: usize, n: usize)
    ensures
        spriv_decls(l, lvl, n) matches PrivDecls::Changed(c) ==> pub_count(c) + 1 == pub_count(l),
        pub_count(l) == 0 ==> !(spriv_decls(l, lvl, n) is Changed),
    decreases l,
{
    match l {
        DeclList::Nil => {},
        DeclList::Cons(d, rest) => {
            if lvl == 0 {
                if n == 0 {
                    match d {
                        Declaration::Function { sig, vis: Vis::Public, attrs, body } => {
                            let flipped = Declaration::Function {
                                sig,
                                vis: Vis::Private,
                                attrs,
                                body,
                            };
                            assert(decl_pub_count(flipped) == 0);
                            assert(decl_pub_count(d) == 1);
                        },
                        _ => {},
                    }
                } else {
                    lemma_demotion_flips_one_public(*rest, 0, (n - 1) as usize);
                }
            } else {
                lemma_demotion_in_decl_flips_one_public(d, (lvl - 1) as usize, n);
                if let PrivDecl::Past(n2) = spriv_in_decl(d, (lvl - 1) as usize, n) {
                    lemma_demotion_flips_one_public(*rest, lvl, n2);
                }
            }
        },
    }
}

pub proof fn lemma_demotion_in_decl_flips_one_public(d: Declaration, lvl: usize, n: usize)
    ensures
        spriv_in_decl(d, lvl, n) matches PrivDecl::Changed(d2) ==> decl_pub_count(d2) + 1
            == decl_pub_count(d),
    decreases d,
{
    match d {
        Declaration::Module { content: Option::Some(inner), .. } => {
            lemma_demotion_flips_one_public(*inner, lvl, n);
        },
        Declaration::Struct { fields: Fields::Named(fl), .. } => {
            lemma_demotion_fields_flips_one_public(fl, lvl, n);
        },
        Declaration::Impl { items, .. } => {
            lemma_demotion_items_flips_one_public(items, lvl, n);
        },
        _ => {},
    }
}

pub proof fn lemma_demotion_fields_flips_one_public(l: FieldList, lvl: usize, n: usize)
    ensures
        spriv_fields(l, lvl, n) matches PrivFields::Changed(c) ==> fields_pub_count(c) + 1
            == fields_pub_count(l),
    decreases l,
{
    if lvl < leaf_limit() {
        match l {
            FieldList::Nil => {},
            FieldList::Cons(_, rest) => {
                if n != 0 {
                    lemma_demotion_fields_flips_one_public(*rest, lvl, (n - 1) as usize);
                }
            },
        }
    }
}

pub proof fn lemma_demotion_items_flips_one_public(l: ImplItemList, lvl: usize, n: usize)
    ensures
        spriv_items(l, lvl, n) matches PrivItems::Changed(c) ==> impl_pub_count(c) + 1
            == impl_pub_count(l),
    decreases l,
{
    if lvl < leaf_limit() {
        match l {
            ImplItemList::Nil => {},
            ImplItemList::Cons(_, rest) => {
                if n != 0 {
                    lemma_demotion_items_flips_one_public(*rest, lvl, (n - 1) as usize);
                }
            },
        }
    }
}

/// The demotion fixpoint: no (level, index) address yields a flip the
/// oracle would accept.  Re-running the pass on such a tree accepts
/// nothing and returns the tree unchanged.  An already-private item is
/// never an accepted mutation: every `Changed` candidate flips a
/// `Public` marker, and a private item at an address is a no-op that
/// costs no oracle call and alters no tree.
pub open spec fn priv_fixed<R: Runnable>(t: DeclList, r: &R) -> bool {
    forall|lvl: usize, idx: usize|
        #![trigger spriv_decls(t, lvl, idx)]
        idx < acount_decls(t, lvl) ==> (spriv_decls(t, lvl, idx) matches PrivDecls::Changed(c)
            ==> !r.interesting(SourceFile { decls: c }))
}

/// At a demotion fixpoint, no (level, index) pair whatsoever — in or
/// out of the address range — yields a flip the oracle would accept.
pub proof fn lemma_priv_fixed_covers_all_addresses<R: Runnable>(
    t: DeclList,
    r: &R,
    lvl: usize,
    idx: usize,
)
    requires
        priv_fixed(t, r),
    ensures
        spriv_decls(t, lvl, idx) matches PrivDecls::Changed(c) ==> !r.interesting(
            SourceFile { decls: c },
        ),
{
    if idx >= acount_decls(t, lvl) {
        lemma_priv_decls_past_all_addresses(t, lvl, idx);
    }
}

/// One accepted flip: `t2` is a candidate the scan proposes from
/// `t1` at some (level, index) address.
pub open spec fn priv_stepped(t1: DeclList, t2: DeclList) -> bool {
    exists|lvl: usize, idx: usize| spriv_decls(t1, lvl, idx) == PrivDecls::Changed(t2)
}

/// One full scan: sweep every level from 0 up to the depth bound,
/// keeping oracle-accepted flips.  Carries the run's bookkeeping as
/// ghost state: `orig` is the tree the whole pass started from and
/// `log_in` the candidates accepted so far.
#[verifier::rlimit(100)]
#[verifier::spinoff_prover]
fn privatise_scan<R: Runnable>(
    file: &mut SourceFile,
    runnable: &R,
    Ghost(orig): Ghost<SourceFile>,
    Ghost(log_in): Ghost<Seq<DeclList>>,
) -> (r: (bool, Ghost<Seq<DeclList>>))
    requires
        log_in.len() == 0 ==> *old(file) == orig,
        log_in.len() > 0 ==> old(file).decls == log_in.last(),
        forall|i: int|
            0 <= i < log_in.len() ==> runnable.interesting(
                SourceFile { decls: #[trigger] log_in[i] },
            ),
        forall|i: int|
            0 <= i < log_in.len() ==> priv_stepped(
                if i == 0 {
                    orig.decls
                } else {
                    log_in[i - 1]
                },
                #[trigger] log_in[i],
            ),
        demoted_decls(orig.decls, old(file).decls),
        priv_fixed(orig.decls, runnable) ==> *old(file) == orig && log_in.len() == 0,
        self_contained(orig.decls) ==> self_contained(old(file).decls),
        pub_count(old(file).decls) <= pub_count(orig.decls),
    ensures
        r.1@.len() == 0 ==> *final(file) == orig,
        r.1@.len() > 0 ==> final(file).decls == r.1@.last(),
        forall|i: int|
            0 <= i < r.1@.len() ==> runnable.interesting(SourceFile { decls: #[trigger] r.1@[i] }),
        forall|i: int|
            0 <= i < r.1@.len() ==> priv_stepped(
                if i == 0 {
                    orig.decls
                } else {
                    r.1@[i - 1]
                },
                #[trigger] r.1@[i],
            ),
        demoted_decls(orig.decls, final(file).decls),
        priv_fixed(orig.decls, runnable) ==> *final(file) == orig && r.1@.len() == 0 && !r.0,
        self_contained(orig.decls) ==> self_contained(final(file).decls),
        pub_count(final(file).decls) <= pub_count(orig.decls),
        r.0 ==> pub_count(final(file).decls) < pub_count(old(file).decls),
        !r.0 ==> *final(file) == *old(file) && priv_fixed(final(file).decls, runnable),
{
    let ghost mut log_s: Seq<DeclList> = log_in;
    let mut any = false;
    let ghost enter = file.decls;
    let bound = depth_bound(&file.decls);
    let mut lvl: usize = 0;
    loop
        invariant
            log_s.len() == 0 ==> *file == orig,
            log_s.len() > 0 ==> file.decls == log_s.last(),
            forall|i: int|
                0 <= i < log_s.len() ==> runnable.interesting(
                    SourceFile { decls: #[trigger] log_s[i] },
                ),
            forall|i: int|
                0 <= i < log_s.len() ==> priv_stepped(
                    if i == 0 {
                        orig.decls
                    } else {
                        log_s[i - 1]
                    },
                    #[trigger] log_s[i],
                ),
            demoted_decls(orig.decls, file.decls),
            priv_fixed(orig.decls, runnable) ==> *file == orig && log_s.len() == 0
                && !any,
            self_contained(orig.decls) ==> self_contained(file.decls),
            pub_count(file.decls) <= pub_count(orig.decls),
            adepth_decls(file.decls) == adepth_decls(enter),
            adepth_decls(enter) <= usize::MAX ==> bound == adepth_decls(enter),
            adepth_decls(enter) > usize::MAX ==> bound == usize::MAX,
            lvl <= bound,
            !any ==> file.decls == enter,
            !any ==> forall|l2: usize, idx: usize|
                #![trigger spriv_decls(enter, l2, idx)]
                l2 < lvl && idx < acount_decls(enter, l2) ==> (spriv_decls(enter, l2, idx)
                    matches PrivDecls::Changed(c) ==> !runnable.interesting(
                    SourceFile { decls: c },
                )),
            any ==> pub_count(file.decls) < pub_count(enter),
        ensures
            any ==> pub_count(file.decls) < pub_count(enter),
            !any ==> file.decls == enter && priv_fixed(file.decls, runnable),
        decreases bound - lvl,
    {
        let mut n: usize = 0;
        loop
            invariant
                log_s.len() == 0 ==> *file == orig,
                log_s.len() > 0 ==> file.decls == log_s.last(),
                forall|i: int|
                    0 <= i < log_s.len() ==> runnable.interesting(
                        SourceFile { decls: #[trigger] log_s[i] },
                    ),
                forall|i: int|
                    0 <= i < log_s.len() ==> priv_stepped(
                        if i == 0 {
                            orig.decls
                        } else {
                            log_s[i - 1]
                        },
                        #[trigger] log_s[i],
                    ),
                demoted_decls(orig.decls, file.decls),
                priv_fixed(orig.decls, runnable) ==> *file == orig && log_s.len()
                    == 0 && !any,
                self_contained(orig.decls) ==> self_contained(file.decls),
                pub_count(file.decls) <= pub_count(orig.decls),
                adepth_decls(file.decls) == adepth_decls(enter),
                adepth_decls(enter) <= usize::MAX ==> bound == adepth_decls(enter),
                adepth_decls(enter) > usize::MAX ==> bound == usize::MAX,
                lvl <= bound,
                !any ==> file.decls == enter,
                !any ==> forall|l2: usize, idx: usize|
                    #![trigger spriv_decls(enter, l2, idx)]
                    l2 < lvl && idx < acount_decls(enter, l2) ==> (spriv_decls(enter, l2, idx)
                        matches PrivDecls::Changed(c) ==> !runnable.interesting(
                        SourceFile { decls: c },
                    )),
                !any ==> forall|idx: usize|
                    #![trigger spriv_decls(enter, lvl, idx)]
                    idx < n ==> (spriv_decls(enter, lvl, idx) matches PrivDecls::Changed(c)
                        ==> !runnable.interesting(SourceFile { decls: c })),
                any ==> pub_count(file.decls) < pub_count(enter),
                n <= acount_decls(file.decls, lvl),
            ensures
                any ==> pub_count(file.decls) < pub_count(enter),
                !any ==> file.decls == enter && forall|idx: usize|
                    #![trigger spriv_decls(enter, lvl, idx)]
                    idx < acount_decls(enter, lvl) ==> (spriv_decls(enter, lvl, idx) matches
                        PrivDecls::Changed(c) ==> !runnable.interesting(
                        SourceFile { decls: c },
                    )),
            decreases pub_count(file.decls), acount_decls(file.decls, lvl) - n,
        {
            let verdict = priv_step_decls(&file.decls, lvl, n);
            match verdict {
                PrivDecls::Past(_) => {
                    break ;
                },
                PrivDecls::NoOp => {
                    if n == usize::MAX {
                        break ;
                    }
                    n = n + 1;
                },
                PrivDecls::Changed(c) => {
                    let cand = SourceFile { decls: c };
                    let accepted = runnable.run(&cand).is_ok();
                    if accepted {
                        proof {
                            if priv_fixed(orig.decls, runnable) {
                                assert(spriv_decls(orig.decls, lvl, n) == verdict);
                                assert(false);
                            }
                        }
                        let ghost prev_t = file.decls;
                        *file = cand;
                        proof {
                            assert(spriv_decls(prev_t, lvl, n) == PrivDecls::Changed(
                                file.decls,
                            ));
                            assert(priv_stepped(prev_t, file.decls));
                            lemma_spriv_demotes(prev_t, lvl, n);
                            lemma_demoted_trans(orig.decls, prev_t, file.decls);
                            log_s = log_s.push(file.decls);
                        }
                        any = true;
                    } else {
                        if n == usize::MAX {
                            break ;
                        }
                        n = n + 1;
                    }
                },
            }
        }
        if lvl == bound {
            proof {
                if !any {
                    assert forall|l2: usize, idx: usize|
                        idx < acount_decls(enter, l2) implies (#[trigger] spriv_decls(
                        enter,
                        l2,
                        idx,
                    ) matches PrivDecls::Changed(c) ==> !runnable.interesting(
                        SourceFile { decls: c },
                    )) by {
                        if l2 > bound {
                            lemma_no_addresses_past_depth(enter, l2);
                        }
                    };
                }
            }
            break ;
        }
        lvl = lvl + 1;
    }
    (any, Ghost(log_s))
}

/// Run the visibility-demotion pass to its fixpoint.
///
/// Levels are scanned shallow-first: each level is swept index by
/// index to exhaustion before the next deeper level is touched, and
/// the whole scan repeats until a full scan accepts nothing.  Every
/// accepted flip demotes exactly one `Public` marker (the pub count
/// drops by one and nothing else changes), and the ghost log holds
/// every accepted candidate, each verified interesting by the oracle
/// when it was accepted.
#[verifier::rlimit(100)]
#[verifier::spinoff_prover]
pub fn privatise_items<R: Runnable>(file: &mut SourceFile, runnable: &R) -> (log: Ghost<
    Seq<DeclList>,
>)
    ensures
        priv_fixed(final(file).decls, runnable),
        priv_fixed(old(file).decls, runnable) ==> *final(file) == *old(file) && log@.len() == 0,
        log@.len() == 0 ==> *final(file) == *old(file),
        log@.len() > 0 ==> final(file).decls == log@.last(),
        forall|i: int|
            0 <= i < log@.len() ==> runnable.interesting(SourceFile { decls: #[trigger] log@[i] }),
        forall|i: int|
            0 <= i < log@.len() ==> priv_stepped(
                if i == 0 {
                    old(file).decls
                } else {
                    log@[i - 1]
                },
                #[trigger] log@[i],
            ),
        demoted_decls(old(file).decls, final(file).decls),
        *final(file) == *old(file) || runnable.interesting(*final(file)),
        self_contained(old(file).decls) ==> self_contained(final(file).decls),
        pub_count(final(file).decls) <= pub_count(old(file).decls),
{
    proof {
        lemma_demoted_refl(file.decls);
    }
    let ghost mut log_s: Seq<DeclList> = Seq::empty();
    loop
        invariant
            log_s.len() == 0 ==> *file == *old(file),
            log_s.len() > 0 ==> file.decls == log_s.last(),
            forall|i: int|
                0 <= i < log_s.len() ==> runnable.interesting(
                    SourceFile { decls: #[trigger] log_s[i] },
                ),
            forall|i: int|
                0 <= i < log_s.len() ==> priv_stepped(
                    if i == 0 {
                        old(file).decls
                    } else {
                        log_s[i - 1]
                    },
                    #[trigger] log_s[i],
                ),
            demoted_decls(old(file).decls, file.decls),
            priv_fixed(old(file).decls, runnable) ==> *file == *old(file) && log_s.len() == 0,
            self_contained(old(file).decls) ==> self_contained(file.decls),
            pub_count(file.decls) <= pub_count(old(file).decls),
        ensures
            priv_fixed(file.decls, runnable),
        decreases pub_count(file.decls),
    {
        let scan = privatise_scan(file, runnable, Ghost(*old(file)), Ghost(log_s));
        proof {
            log_s = scan.1@;
        }
        if !scan.0 {
            break ;
        }
    }
    Ghost(log_s)
}

} // verus!
