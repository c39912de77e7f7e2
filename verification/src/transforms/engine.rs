//! The shared transform-pass protocol.
//!
//! Every pass enumerates its mutation targets in a fixed order through
//! a single position counter.  For the current position it builds a
//! candidate tree, asks the oracle, keeps the candidate on acceptance
//! (resuming from the same position, since the accepted mutation
//! shifts later targets into the current slot), and otherwise advances.
//! A pass is done when a full sweep over all remaining targets accepts
//! nothing; the sweep is repeated until that happens, so the pass ends
//! at a fixpoint.

use vstd::prelude::*;

use crate::tree::{
    attrs_count, attr_count, decl_attr_count, decl_full_body_count, decl_size,
    decl_stmts_body_count, dup_attrs, dup_block, dup_decl, dup_decls, dup_fields, dup_impl_items,
    fields_attr_count, full_body_count, impl_full_body_count, impl_items_size,
    impl_stmts_body_count, self_contained, decl_self_contained, stmts_body_count, tree_size, Attr,
    AttrKind, AttrList, Block, Declaration, DeclList, Field, FieldList, Fields, ImplItem,
    ImplItemList, SourceFile,
};
use crate::Runnable;

verus! {

/// Which category of mutation a pass applies.
#[derive(Debug, PartialEq, Eq, Structural, Clone, Copy)]
pub enum PassKind {
    /// Delete one whole declaration or method.
    Prune,
    /// Remove one derive attribute.
    StripDerive,
    /// Remove one doc attribute.
    StripDoc,
    /// Replace one body with the empty block.
    EmptyBody,
    /// Replace one body with the placeholder statement.
    ClearBody,
}

pub open spec fn is_strip(p: PassKind) -> bool {
    p == PassKind::StripDerive || p == PassKind::StripDoc
}

pub open spec fn strip_kind(p: PassKind) -> AttrKind {
    match p {
        PassKind::StripDerive => AttrKind::Derive,
        PassKind::StripDoc => AttrKind::Doc,
        _ => AttrKind::Other,
    }
}

/// Declarations the pruning pass may delete: every modelled kind; an
/// opaque declaration is never mutated.
pub open spec fn prunable(d: Declaration) -> bool {
    !(d is Other)
}

// ---------------------------------------------------------------------
// Target counts: how many mutation targets a pass finds in a tree.
// ---------------------------------------------------------------------

pub open spec fn tcount_items(l: ImplItemList, p: PassKind) -> nat
    decreases l,
{
    match l {
        ImplItemList::Nil => 0,
        ImplItemList::Cons(it, rest) => (match it {
            ImplItem::Method { body, .. } => match p {
                PassKind::Prune => 1nat,
                PassKind::EmptyBody => if body is Empty {
                    0nat
                } else {
                    1nat
                },
                PassKind::ClearBody => if body is Stmts {
                    1nat
                } else {
                    0nat
                },
                _ => 0nat,
            },
            ImplItem::Other(_) => 0nat,
        }) + tcount_items(*rest, p),
    }
}

pub open spec fn tcount_decl(d: Declaration, p: PassKind) -> nat
    decreases d,
{
    match d {
        Declaration::Module { attrs, content, .. } => (if is_strip(p) {
            attrs_count(attrs, strip_kind(p))
        } else {
            0nat
        }) + (match content {
            Option::Some(inner) => tcount_decls(*inner, p),
            Option::None => 0nat,
        }),
        Declaration::Function { attrs, body, .. } => match p {
            PassKind::StripDerive | PassKind::StripDoc => attrs_count(attrs, strip_kind(p)),
            PassKind::EmptyBody => if body is Empty {
                0nat
            } else {
                1nat
            },
            PassKind::ClearBody => if body is Stmts {
                1nat
            } else {
                0nat
            },
            PassKind::Prune => 0nat,
        },
        Declaration::Struct { attrs, fields, .. } => if is_strip(p) {
            attrs_count(attrs, strip_kind(p)) + (match fields {
                Fields::Named(fl) => fields_attr_count(fl, strip_kind(p)),
                Fields::Opaque(_) => 0nat,
            })
        } else {
            0nat
        },
        Declaration::Impl { items, .. } => if is_strip(p) {
            0nat
        } else {
            tcount_items(items, p)
        },
        _ => 0nat,
    }
}

pub open spec fn tcount_decls(l: DeclList, p: PassKind) -> nat
    decreases l,
{
    match l {
        DeclList::Nil => 0,
        DeclList::Cons(d, rest) => (if p == PassKind::Prune && prunable(d) {
            1nat
        } else {
            0nat
        }) + tcount_decl(d, p) + tcount_decls(*rest, p),
    }
}

// ---------------------------------------------------------------------
// Pass measures: what an accepted mutation strictly shrinks.
// ---------------------------------------------------------------------

pub open spec fn decls_measure(l: DeclList, p: PassKind) -> nat {
    match p {
        PassKind::Prune => tree_size(l),
        PassKind::StripDerive => attr_count(l, AttrKind::Derive),
        PassKind::StripDoc => attr_count(l, AttrKind::Doc),
        PassKind::EmptyBody => full_body_count(l),
        PassKind::ClearBody => stmts_body_count(l),
    }
}

pub open spec fn decl_measure(d: Declaration, p: PassKind) -> nat {
    match p {
        PassKind::Prune => decl_size(d),
        PassKind::StripDerive => decl_attr_count(d, AttrKind::Derive),
        PassKind::StripDoc => decl_attr_count(d, AttrKind::Doc),
        PassKind::EmptyBody => decl_full_body_count(d),
        PassKind::ClearBody => decl_stmts_body_count(d),
    }
}

pub open spec fn items_measure(l: ImplItemList, p: PassKind) -> nat {
    match p {
        PassKind::Prune => impl_items_size(l),
        PassKind::StripDerive => 0nat,
        PassKind::StripDoc => 0nat,
        PassKind::EmptyBody => impl_full_body_count(l),
        PassKind::ClearBody => impl_stmts_body_count(l),
    }
}

// ---------------------------------------------------------------------
// One speculative mutation, addressed by a position counter.
//
// `Past(k)` means the list held fewer targets than the position asked
// for; `k` is the position left over after consuming them all.
// ---------------------------------------------------------------------

pub enum StepAttrs {
    Changed(AttrList),
    Past(usize),
}

pub enum StepFields {
    Changed(FieldList),
    Past(usize),
}

pub enum StepItems {
    Changed(ImplItemList),
    Past(usize),
}

pub enum StepDecl {
    Changed(Declaration),
    Past(usize),
}

pub enum StepDecls {
    Changed(DeclList),
    Past(usize),
}

pub open spec fn sstep_attrs(l: AttrList, k: AttrKind, n: usize) -> StepAttrs
    decreases l,
{
    match l {
        AttrList::Nil => StepAttrs::Past(n),
        AttrList::Cons(a, rest) => if a.kind == k {
            if n == 0 {
                StepAttrs::Changed(*rest)
            } else {
                match sstep_attrs(*rest, k, (n - 1) as usize) {
                    StepAttrs::Changed(r2) => StepAttrs::Changed(
                        AttrList::Cons(a, Box::new(r2)),
                    ),
                    StepAttrs::Past(m) => StepAttrs::Past(m),
                }
            }
        } else {
            match sstep_attrs(*rest, k, n) {
                StepAttrs::Changed(r2) => StepAttrs::Changed(AttrList::Cons(a, Box::new(r2))),
                StepAttrs::Past(m) => StepAttrs::Past(m),
            }
        },
    }
}

pub open spec fn sstep_fields(l: FieldList, k: AttrKind, n: usize) -> StepFields
    decreases l,
{
    match l {
        FieldList::Nil => StepFields::Past(n),
        FieldList::Cons(f, rest) => match sstep_attrs(f.attrs, k, n) {
            StepAttrs::Changed(a2) => StepFields::Changed(
                FieldList::Cons(Field { name: f.name, vis: f.vis, attrs: a2, ty: f.ty }, rest),
            ),
            StepAttrs::Past(n1) => match sstep_fields(*rest, k, n1) {
                StepFields::Changed(r2) => StepFields::Changed(
                    FieldList::Cons(f, Box::new(r2)),
                ),
                StepFields::Past(m) => StepFields::Past(m),
            },
        },
    }
}

pub open spec fn sstep_items(l: ImplItemList, p: PassKind, n: usize) -> StepItems
    decreases l,
{
    match l {
        ImplItemList::Nil => StepItems::Past(n),
        ImplItemList::Cons(it, rest) => match it {
            ImplItem::Method { sig, vis, body } => if p == PassKind::Prune {
                if n == 0 {
                    StepItems::Changed(*rest)
                } else {
                    match sstep_items(*rest, p, (n - 1) as usize) {
                        StepItems::Changed(r2) => StepItems::Changed(
                            ImplItemList::Cons(
                                ImplItem::Method { sig, vis, body },
                                Box::new(r2),
                            ),
                        ),
                        StepItems::Past(m) => StepItems::Past(m),
                    }
                }
            } else if p == PassKind::EmptyBody && !(body is Empty) {
                if n == 0 {
                    StepItems::Changed(
                        ImplItemList::Cons(
                            ImplItem::Method { sig, vis, body: Block::Empty },
                            rest,
                        ),
                    )
                } else {
                    match sstep_items(*rest, p, (n - 1) as usize) {
                        StepItems::Changed(r2) => StepItems::Changed(
                            ImplItemList::Cons(
                                ImplItem::Method { sig, vis, body },
                                Box::new(r2),
                            ),
                        ),
                        StepItems::Past(m) => StepItems::Past(m),
                    }
                }
            } else if p == PassKind::ClearBody && body is Stmts {
                if n == 0 {
                    StepItems::Changed(
                        ImplItemList::Cons(
                            ImplItem::Method { sig, vis, body: Block::Marker },
                            rest,
                        ),
                    )
                } else {
                    match sstep_items(*rest, p, (n - 1) as usize) {
                        StepItems::Changed(r2) => StepItems::Changed(
                            ImplItemList::Cons(
                                ImplItem::Method { sig, vis, body },
                                Box::new(r2),
                            ),
                        ),
                        StepItems::Past(m) => StepItems::Past(m),
                    }
                }
            } else {
                match sstep_items(*rest, p, n) {
                    StepItems::Changed(r2) => StepItems::Changed(
                        ImplItemList::Cons(ImplItem::Method { sig, vis, body }, Box::new(r2)),
                    ),
                    StepItems::Past(m) => StepItems::Past(m),
                }
            },
            ImplItem::Other(s) => match sstep_items(*rest, p, n) {
                StepItems::Changed(r2) => StepItems::Changed(
                    ImplItemList::Cons(ImplItem::Other(s), Box::new(r2)),
                ),
                StepItems::Past(m) => StepItems::Past(m),
            },
        },
    }
}

pub open spec fn sstep_decl(d: Declaration, p: PassKind, n: usize) -> StepDecl
    decreases d,
{
    match d {
        Declaration::Module { name, attrs, file, line, content } => {
            let a = if is_strip(p) {
                sstep_attrs(attrs, strip_kind(p), n)
            } else {
                StepAttrs::Past(n)
            };
            match a {
                StepAttrs::Changed(a2) => StepDecl::Changed(
                    Declaration::Module { name, attrs: a2, file, line, content },
                ),
                StepAttrs::Past(n1) => match content {
                    Option::Some(inner) => match sstep_decls(*inner, p, n1) {
                        StepDecls::Changed(c2) => StepDecl::Changed(
                            Declaration::Module {
                                name,
                                attrs,
                                file,
                                line,
                                content: Option::Some(Box::new(c2)),
                            },
                        ),
                        StepDecls::Past(n2) => StepDecl::Past(n2),
                    },
                    Option::None => StepDecl::Past(n1),
                },
            }
        },
        Declaration::Function { sig, vis, attrs, body } => if is_strip(p) {
            match sstep_attrs(attrs, strip_kind(p), n) {
                StepAttrs::Changed(a2) => StepDecl::Changed(
                    Declaration::Function { sig, vis, attrs: a2, body },
                ),
                StepAttrs::Past(m) => StepDecl::Past(m),
            }
        } else if p == PassKind::EmptyBody && !(body is Empty) {
            if n == 0 {
                StepDecl::Changed(Declaration::Function { sig, vis, attrs, body: Block::Empty })
            } else {
                StepDecl::Past((n - 1) as usize)
            }
        } else if p == PassKind::ClearBody && body is Stmts {
            if n == 0 {
                StepDecl::Changed(Declaration::Function { sig, vis, attrs, body: Block::Marker })
            } else {
                StepDecl::Past((n - 1) as usize)
            }
        } else {
            StepDecl::Past(n)
        },
        Declaration::Struct { sig, vis, attrs, fields } => if is_strip(p) {
            match sstep_attrs(attrs, strip_kind(p), n) {
                StepAttrs::Changed(a2) => StepDecl::Changed(
                    Declaration::Struct { sig, vis, attrs: a2, fields },
                ),
                StepAttrs::Past(n1) => match fields {
                    Fields::Named(fl) => match sstep_fields(fl, strip_kind(p), n1) {
                        StepFields::Changed(f2) => StepDecl::Changed(
                            Declaration::Struct { sig, vis, attrs, fields: Fields::Named(f2) },
                        ),
                        StepFields::Past(n2) => StepDecl::Past(n2),
                    },
                    Fields::Opaque(_) => StepDecl::Past(n1),
                },
            }
        } else {
            StepDecl::Past(n)
        },
        Declaration::Impl { sig, items } => if is_strip(p) {
            StepDecl::Past(n)
        } else {
            match sstep_items(items, p, n) {
                StepItems::Changed(i2) => StepDecl::Changed(
                    Declaration::Impl { sig, items: i2 },
                ),
                StepItems::Past(m) => StepDecl::Past(m),
            }
        },
        _ => StepDecl::Past(n),
    }
}

pub fn step_attrs(l: &AttrList, k: AttrKind, n: usize) -> (r: StepAttrs)
    ensures
        r == sstep_attrs(*l, k, n),
        r matches StepAttrs::Changed(c) ==> n < attrs_count(*l, k) && n <= attrs_count(c, k)
            && attrs_count(c, k) + 1 == attrs_count(*l, k),
        r matches StepAttrs::Past(m) ==> m + attrs_count(*l, k) == n,
    decreases *l,
{
    match l {
        AttrList::Nil => StepAttrs::Past(n),
        AttrList::Cons(a, rest) => {
            if a.kind == k && n == 0 {
                StepAttrs::Changed(dup_attrs(rest))
            } else {
                let n1 = if a.kind == k {
                    n - 1
                } else {
                    n
                };
                match step_attrs(rest, k, n1) {
                    StepAttrs::Changed(r2) => StepAttrs::Changed(
                        AttrList::Cons(Attr { kind: a.kind, text: a.text.clone() }, Box::new(r2)),
                    ),
                    StepAttrs::Past(m) => StepAttrs::Past(m),
                }
            }
        },
    }
}

pub fn step_fields(l: &FieldList, k: AttrKind, n: usize) -> (r: StepFields)
    ensures
        r == sstep_fields(*l, k, n),
        r matches StepFields::Changed(c) ==> n < fields_attr_count(*l, k) && n
            <= fields_attr_count(c, k) && fields_attr_count(c, k) + 1 == fields_attr_count(*l, k),
        r matches StepFields::Past(m) ==> m + fields_attr_count(*l, k) == n,
    decreases *l,
{
    match l {
        FieldList::Nil => StepFields::Past(n),
        FieldList::Cons(f, rest) => match step_attrs(&f.attrs, k, n) {
            StepAttrs::Changed(a2) => StepFields::Changed(
                FieldList::Cons(
                    Field { name: f.name.clone(), vis: f.vis, attrs: a2, ty: f.ty.clone() },
                    Box::new(dup_fields(rest)),
                ),
            ),
            StepAttrs::Past(n1) => match step_fields(rest, k, n1) {
                StepFields::Changed(r2) => StepFields::Changed(
                    FieldList::Cons(
                        Field {
                            name: f.name.clone(),
                            vis: f.vis,
                            attrs: dup_attrs(&f.attrs),
                            ty: f.ty.clone(),
                        },
                        Box::new(r2),
                    ),
                ),
                StepFields::Past(m) => StepFields::Past(m),
            },
        },
    }
}

pub fn step_items(l: &ImplItemList, p: PassKind, n: usize) -> (r: StepItems)
    ensures
        r == sstep_items(*l, p, n),
        r matches StepItems::Changed(c) ==> n < tcount_items(*l, p) && n <= tcount_items(c, p)
            && items_measure(c, p) < items_measure(*l, p),
        r matches StepItems::Past(m) ==> m + tcount_items(*l, p) == n,
    decreases *l,
{
    match l {
        ImplItemList::Nil => StepItems::Past(n),
        ImplItemList::Cons(it, rest) => match it {
            ImplItem::Method { sig, vis, body } => {
                let is_target = match p {
                    PassKind::Prune => true,
                    PassKind::EmptyBody => !matches!(body, Block::Empty),
                    PassKind::ClearBody => matches!(body, Block::Stmts(_)),
                    _ => false,
                };
                if is_target && n == 0 {
                    if p == PassKind::Prune {
                        StepItems::Changed(dup_impl_items(rest))
                    } else {
                        let b2 = if p == PassKind::EmptyBody {
                            Block::Empty
                        } else {
                            Block::Marker
                        };
                        StepItems::Changed(
                            ImplItemList::Cons(
                                ImplItem::Method { sig: sig.clone(), vis: *vis, body: b2 },
                                Box::new(dup_impl_items(rest)),
                            ),
                        )
                    }
                } else {
                    let n1 = if is_target {
                        n - 1
                    } else {
                        n
                    };
                    match step_items(rest, p, n1) {
                        StepItems::Changed(r2) => StepItems::Changed(
                            ImplItemList::Cons(
                                ImplItem::Method {
                                    sig: sig.clone(),
                                    vis: *vis,
                                    body: dup_block(body),
                                },
                                Box::new(r2),
                            ),
                        ),
                        StepItems::Past(m) => StepItems::Past(m),
                    }
                }
            },
            ImplItem::Other(s) => match step_items(rest, p, n) {
                StepItems::Changed(r2) => StepItems::Changed(
                    ImplItemList::Cons(ImplItem::Other(s.clone()), Box::new(r2)),
                ),
                StepItems::Past(m) => StepItems::Past(m),
            },
        },
    }
}

pub fn step_decl(d: &Declaration, p: PassKind, n: usize) -> (r: StepDecl)
    ensures
        r == sstep_decl(*d, p, n),
        r matches StepDecl::Changed(d2) ==> n < tcount_decl(*d, p) && n <= tcount_decl(d2, p)
            && decl_measure(d2, p) < decl_measure(*d, p) && prunable(d2) == prunable(*d) && (
        decl_self_contained(*d) ==> decl_self_contained(d2)),
        r matches StepDecl::Past(m) ==> m + tcount_decl(*d, p) == n,
    decreases *d,
{
    let strip = p == PassKind::StripDerive || p == PassKind::StripDoc;
    let k = if p == PassKind::StripDerive {
        AttrKind::Derive
    } else if p == PassKind::StripDoc {
        AttrKind::Doc
    } else {
        AttrKind::Other
    };
    match d {
        Declaration::Module { name, attrs, file, line, content } => {
            let a = if strip {
                step_attrs(attrs, k, n)
            } else {
                StepAttrs::Past(n)
            };
            match a {
                StepAttrs::Changed(a2) => {
                    let c2 = match content {
                        Option::None => Option::None,
                        Option::Some(inner) => Option::Some(Box::new(dup_decls(inner))),
                    };
                    StepDecl::Changed(
                        Declaration::Module {
                            name: name.clone(),
                            attrs: a2,
                            file: file.clone(),
                            line: *line,
                            content: c2,
                        },
                    )
                },
                StepAttrs::Past(n1) => match content {
                    Option::Some(inner) => match step_decls(inner, p, n1) {
                        StepDecls::Changed(c2) => StepDecl::Changed(
                            Declaration::Module {
                                name: name.clone(),
                                attrs: dup_attrs(attrs),
                                file: file.clone(),
                                line: *line,
                                content: Option::Some(Box::new(c2)),
                            },
                        ),
                        StepDecls::Past(n2) => StepDecl::Past(n2),
                    },
                    Option::None => StepDecl::Past(n1),
                },
            }
        },
        Declaration::Function { sig, vis, attrs, body } => {
            if strip {
                match step_attrs(attrs, k, n) {
                    StepAttrs::Changed(a2) => StepDecl::Changed(
                        Declaration::Function {
                            sig: sig.clone(),
                            vis: *vis,
                            attrs: a2,
                            body: dup_block(body),
                        },
                    ),
                    StepAttrs::Past(m) => StepDecl::Past(m),
                }
            } else {
                let is_target = match p {
                    PassKind::EmptyBody => !matches!(body, Block::Empty),
                    PassKind::ClearBody => matches!(body, Block::Stmts(_)),
                    _ => false,
                };
                if is_target && n == 0 {
                    let b2 = if p == PassKind::EmptyBody {
                        Block::Empty
                    } else {
                        Block::Marker
                    };
                    StepDecl::Changed(
                        Declaration::Function {
                            sig: sig.clone(),
                            vis: *vis,
                            attrs: dup_attrs(attrs),
                            body: b2,
                        },
                    )
                } else if is_target {
                    StepDecl::Past(n - 1)
                } else {
                    StepDecl::Past(n)
                }
            }
        },
        Declaration::Struct { sig, vis, attrs, fields } => {
            if strip {
                match step_attrs(attrs, k, n) {
                    StepAttrs::Changed(a2) => {
                        let f2 = match fields {
                            Fields::Named(fl) => Fields::Named(dup_fields(fl)),
                            Fields::Opaque(s) => Fields::Opaque(s.clone()),
                        };
                        StepDecl::Changed(
                            Declaration::Struct {
                                sig: sig.clone(),
                                vis: *vis,
                                attrs: a2,
                                fields: f2,
                            },
                        )
                    },
                    StepAttrs::Past(n1) => match fields {
                        Fields::Named(fl) => match step_fields(fl, k, n1) {
                            StepFields::Changed(f2) => StepDecl::Changed(
                                Declaration::Struct {
                                    sig: sig.clone(),
                                    vis: *vis,
                                    attrs: dup_attrs(attrs),
                                    fields: Fields::Named(f2),
                                },
                            ),
                            StepFields::Past(n2) => StepDecl::Past(n2),
                        },
                        Fields::Opaque(_) => StepDecl::Past(n1),
                    },
                }
            } else {
                StepDecl::Past(n)
            }
        },
        Declaration::Impl { sig, items } => {
            if strip {
                StepDecl::Past(n)
            } else {
                match step_items(items, p, n) {
                    StepItems::Changed(i2) => StepDecl::Changed(
                        Declaration::Impl { sig: sig.clone(), items: i2 },
                    ),
                    StepItems::Past(m) => StepDecl::Past(m),
                }
            }
        },
        Declaration::Enum { .. } => StepDecl::Past(n),
        Declaration::Other(_) => StepDecl::Past(n),
    }
}

pub fn step_decls(l: &DeclList, p: PassKind, n: usize) -> (r: StepDecls)
    ensures
        r == sstep_decls(*l, p, n),
        r matches StepDecls::Changed(c) ==> n < tcount_decls(*l, p) && n <= tcount_decls(c, p)
            && decls_measure(c, p) < decls_measure(*l, p) && (self_contained(*l)
            ==> self_contained(c)),
        r matches StepDecls::Past(m) ==> m + tcount_decls(*l, p) == n,
    decreases *l,
{
    match l {
        DeclList::Nil => StepDecls::Past(n),
        DeclList::Cons(d, rest) => {
            let del = p == PassKind::Prune && !matches!(d, Declaration::Other(_));
            if del && n == 0 {
                StepDecls::Changed(dup_decls(rest))
            } else {
                let n1 = if del {
                    n - 1
                } else {
                    n
                };
                match step_decl(d, p, n1) {
                    StepDecl::Changed(d2) => StepDecls::Changed(
                        DeclList::Cons(d2, Box::new(dup_decls(rest))),
                    ),
                    StepDecl::Past(n2) => match step_decls(rest, p, n2) {
                        StepDecls::Changed(r2) => StepDecls::Changed(
                            DeclList::Cons(dup_decl(d), Box::new(r2)),
                        ),
                        StepDecls::Past(j) => StepDecls::Past(j),
                    },
                }
            }
        },
    }
}

pub open spec fn sstep_decls(l: DeclList, p: PassKind, n: usize) -> StepDecls
    decreases l,
{
    match l {
        DeclList::Nil => StepDecls::Past(n),
        DeclList::Cons(d, rest) => {
            if p == PassKind::Prune && prunable(d) && n == 0 {
                StepDecls::Changed(*rest)
            } else {
                let n1 = if p == PassKind::Prune && prunable(d) {
                    (n - 1) as usize
                } else {
                    n
                };
                match sstep_decl(d, p, n1) {
                    StepDecl::Changed(d2) => StepDecls::Changed(DeclList::Cons(d2, rest)),
                    StepDecl::Past(n2) => match sstep_decls(*rest, p, n2) {
                        StepDecls::Changed(r2) => StepDecls::Changed(
                            DeclList::Cons(d, Box::new(r2)),
                        ),
                        StepDecls::Past(j) => StepDecls::Past(j),
                    },
                }
            }
        },
    }
}

pub proof fn lemma_attrs_past_all_targets(l: AttrList, k: AttrKind, n: usize)
    requires
        n >= attrs_count(l, k),
    ensures
        sstep_attrs(l, k, n) == StepAttrs::Past((n - attrs_count(l, k)) as usize),
    decreases l,
{
    match l {
        AttrList::Nil => {},
        AttrList::Cons(a, rest) => {
            if a.kind == k {
                lemma_attrs_past_all_targets(*rest, k, (n - 1) as usize);
            } else {
                lemma_attrs_past_all_targets(*rest, k, n);
            }
        },
    }
}

pub proof fn lemma_fields_past_all_targets(l: FieldList, k: AttrKind, n: usize)
    requires
        n >= fields_attr_count(l, k),
    ensures
        sstep_fields(l, k, n) == StepFields::Past((n - fields_attr_count(l, k)) as usize),
    decreases l,
{
    match l {
        FieldList::Nil => {},
        FieldList::Cons(f, rest) => {
            lemma_attrs_past_all_targets(f.attrs, k, n);
            lemma_fields_past_all_targets(*rest, k, (n - attrs_count(f.attrs, k)) as usize);
        },
    }
}

pub proof fn lemma_items_past_all_targets(l: ImplItemList, p: PassKind, n: usize)
    requires
        n >= tcount_items(l, p),
    ensures
        sstep_items(l, p, n) == StepItems::Past((n - tcount_items(l, p)) as usize),
    decreases l,
{
    match l {
        ImplItemList::Nil => {},
        ImplItemList::Cons(it, rest) => {
            match it {
                ImplItem::Method { body, .. } => {
                    let target = (p == PassKind::Prune) || (p == PassKind::EmptyBody && !(body
                        is Empty)) || (p == PassKind::ClearBody && body is Stmts);
                    if target {
                        lemma_items_past_all_targets(*rest, p, (n - 1) as usize);
                    } else {
                        lemma_items_past_all_targets(*rest, p, n);
                    }
                },
                ImplItem::Other(_) => {
                    lemma_items_past_all_targets(*rest, p, n);
                },
            }
        },
    }
}

pub proof fn lemma_decl_past_all_targets(d: Declaration, p: PassKind, n: usize)
    requires
        n >= tcount_decl(d, p),
    ensures
        sstep_decl(d, p, n) == StepDecl::Past((n - tcount_decl(d, p)) as usize),
    decreases d,
{
    match d {
        Declaration::Module { attrs, content, .. } => {
            let n1 = if is_strip(p) {
                lemma_attrs_past_all_targets(attrs, strip_kind(p), n);
                (n - attrs_count(attrs, strip_kind(p))) as usize
            } else {
                n
            };
            match content {
                Option::Some(inner) => {
                    lemma_decls_past_all_targets(*inner, p, n1);
                },
                Option::None => {},
            }
        },
        Declaration::Function { attrs, .. } => {
            if is_strip(p) {
                lemma_attrs_past_all_targets(attrs, strip_kind(p), n);
            }
        },
        Declaration::Struct { attrs, fields, .. } => {
            if is_strip(p) {
                lemma_attrs_past_all_targets(attrs, strip_kind(p), n);
                match fields {
                    Fields::Named(fl) => {
                        lemma_fields_past_all_targets(
                            fl,
                            strip_kind(p),
                            (n - attrs_count(attrs, strip_kind(p))) as usize,
                        );
                    },
                    Fields::Opaque(_) => {},
                }
            }
        },
        Declaration::Impl { items, .. } => {
            if !is_strip(p) {
                lemma_items_past_all_targets(items, p, n);
            }
        },
        _ => {},
    }
}

/// Past the target count the scan proposes nothing: the step at any
/// such position only passes the leftover index through.
pub proof fn lemma_decls_past_all_targets(l: DeclList, p: PassKind, n: usize)
    requires
        n >= tcount_decls(l, p),
    ensures
        sstep_decls(l, p, n) == StepDecls::Past((n - tcount_decls(l, p)) as usize),
    decreases l,
{
    match l {
        DeclList::Nil => {},
        DeclList::Cons(d, rest) => {
            let n1 = if p == PassKind::Prune && prunable(d) {
                (n - 1) as usize
            } else {
                n
            };
            lemma_decl_past_all_targets(d, p, n1);
            lemma_decls_past_all_targets(*rest, p, (n1 - tcount_decl(d, p)) as usize);
        },
    }
}

/// A pass fixpoint: no target position yields a mutation the oracle
/// would accept.  Re-running the pass on such a tree accepts nothing
/// and returns the tree unchanged.  The position quantifier is
/// bounded by the target count; `lemma_fixed_covers_all_positions`
/// extends it to every position, since positions past the count
/// propose nothing.
pub open spec fn fixed<R: Runnable>(p: PassKind, t: DeclList, r: &R) -> bool {
    forall|m: usize|
        #![trigger sstep_decls(t, p, m)]
        m < tcount_decls(t, p) ==> (sstep_decls(t, p, m) matches StepDecls::Changed(c)
            ==> !r.interesting(SourceFile { decls: c }))
}

/// One accepted-candidate step: `t2` is a candidate that pass `p`
/// proposes from `t1` at some position.
pub open spec fn stepped(t1: DeclList, p: PassKind, t2: DeclList) -> bool {
    exists|n: usize| sstep_decls(t1, p, n) == StepDecls::Changed(t2)
}

/// At a pass fixpoint, no position whatsoever — in or out of the
/// target range — yields a mutation the oracle would accept.
pub proof fn lemma_fixed_covers_all_positions<R: Runnable>(
    p: PassKind,
    t: DeclList,
    r: &R,
    n: usize,
)
    requires
        fixed(p, t, r),
    ensures
        sstep_decls(t, p, n) matches StepDecls::Changed(c) ==> !r.interesting(
            SourceFile { decls: c },
        ),
{
    if n >= tcount_decls(t, p) {
        lemma_decls_past_all_targets(t, p, n);
    }
}

/// The shared pass driver: sweep the targets of pass `p` in order,
/// asking the oracle about each speculative mutation, keeping accepted
/// ones (and retrying the same position, which now addresses the
/// structure shifted into it), until a full sweep accepts nothing.
///
/// The returned ghost log holds every accepted candidate, in order:
/// each was verified interesting by the oracle at the moment it was
/// accepted, and the last one (if any) is the final tree.
pub fn run_pass<R: Runnable>(file: &mut SourceFile, p: PassKind, r: &R) -> (log: Ghost<
    Seq<DeclList>,
>)
    ensures
        fixed(p, final(file).decls, r),
        fixed(p, old(file).decls, r) ==> *final(file) == *old(file) && log@.len() == 0,
        log@.len() == 0 ==> *final(file) == *old(file),
        log@.len() > 0 ==> final(file).decls == log@.last(),
        forall|i: int|
            0 <= i < log@.len() ==> r.interesting(SourceFile { decls: #[trigger] log@[i] }),
        forall|i: int|
            0 <= i < log@.len() ==> stepped(
                if i == 0 {
                    old(file).decls
                } else {
                    log@[i - 1]
                },
                p,
                #[trigger] log@[i],
            ),
        *final(file) == *old(file) || r.interesting(*final(file)),
        self_contained(old(file).decls) ==> self_contained(final(file).decls),
        decls_measure(final(file).decls, p) <= decls_measure(old(file).decls, p),
{
    let ghost mut log_s: Seq<DeclList> = Seq::empty();
    loop
        invariant
            log_s.len() == 0 ==> *file == *old(file),
            log_s.len() > 0 ==> file.decls == log_s.last(),
            forall|i: int|
                0 <= i < log_s.len() ==> r.interesting(SourceFile { decls: #[trigger] log_s[i] }),
            forall|i: int|
                0 <= i < log_s.len() ==> stepped(
                    if i == 0 {
                        old(file).decls
                    } else {
                        log_s[i - 1]
                    },
                    p,
                    #[trigger] log_s[i],
                ),
            fixed(p, old(file).decls, r) ==> *file == *old(file) && log_s.len() == 0,
            self_contained(old(file).decls) ==> self_contained(file.decls),
            decls_measure(file.decls, p) <= decls_measure(old(file).decls, p),
        ensures
            fixed(p, file.decls, r),
        decreases decls_measure(file.decls, p),
    {
        let mut n: usize = 0;
        let mut any = false;
        let ghost enter = file.decls;
        loop
            invariant
                log_s.len() == 0 ==> *file == *old(file),
                log_s.len() > 0 ==> file.decls == log_s.last(),
                forall|i: int|
                    0 <= i < log_s.len() ==> r.interesting(
                        SourceFile { decls: #[trigger] log_s[i] },
                    ),
                forall|i: int|
                    0 <= i < log_s.len() ==> stepped(
                        if i == 0 {
                            old(file).decls
                        } else {
                            log_s[i - 1]
                        },
                        p,
                        #[trigger] log_s[i],
                    ),
                fixed(p, old(file).decls, r) ==> *file == *old(file) && log_s.len() == 0 && !any,
                self_contained(old(file).decls) ==> self_contained(file.decls),
                decls_measure(file.decls, p) <= decls_measure(old(file).decls, p),
                n <= tcount_decls(file.decls, p),
                !any ==> file.decls == enter,
                !any ==> forall|m: usize|
                    #![trigger sstep_decls(enter, p, m)]
                    m < n ==> (sstep_decls(enter, p, m) matches StepDecls::Changed(c)
                        ==> !r.interesting(SourceFile { decls: c })),
                any ==> decls_measure(file.decls, p) < decls_measure(enter, p),
            ensures
                any ==> decls_measure(file.decls, p) < decls_measure(enter, p),
                !any ==> file.decls == enter && fixed(p, file.decls, r),
            decreases decls_measure(file.decls, p), tcount_decls(file.decls, p) - n,
        {
            let verdict = step_decls(&file.decls, p, n);
            match verdict {
                StepDecls::Past(_) => {
                    proof {
                        if !any {
                            assert forall|m: usize|
                                m < tcount_decls(enter, p) implies (#[trigger] sstep_decls(
                                enter,
                                p,
                                m,
                            ) matches StepDecls::Changed(c) ==> !r.interesting(
                                SourceFile { decls: c },
                            )) by {
                                assert(m < n);
                            };
                        }
                    }
                    break ;
                },
                StepDecls::Changed(c) => {
                    let cand = SourceFile { decls: c };
                    let accepted = r.run(&cand).is_ok();
                    if accepted {
                        proof {
                            if fixed(p, old(file).decls, r) {
                                assert(sstep_decls(old(file).decls, p, n) == verdict);
                                assert(false);
                            }
                        }
                        let ghost prev_t = file.decls;
                        *file = cand;
                        proof {
                            assert(sstep_decls(prev_t, p, n) == StepDecls::Changed(file.decls));
                            assert(stepped(prev_t, p, file.decls));
                            log_s = log_s.push(file.decls);
                        }
                        any = true;
                    } else {
                        if n == usize::MAX {
                            // every position a `usize` can address has been
                            // probed and declined
                            proof {
                                if !any {
                                    assert forall|m: usize|
                                        m < tcount_decls(enter, p) implies (
                                    #[trigger] sstep_decls(enter, p, m) matches
                                        StepDecls::Changed(c2) ==> !r.interesting(
                                        SourceFile { decls: c2 },
                                    )) by {
                                        if m == n {
                                            assert(sstep_decls(enter, p, m) == verdict);
                                        }
                                    };
                                }
                            }
                            break ;
                        }
                        n = n + 1;
                    }
                },
            }
        }
        if !any {
            break ;
        }
    }
    Ghost(log_s)
}

} // verus!
