//! The declaration tree: the in-memory structural model of the whole
//! program that every transform pass operates on.
//!
//! Parts of the subject language that no pass targets are carried as
//! opaque text and round-trip verbatim.  Sibling order is insertion
//! order; lists are modelled as cons cells so that equality of two
//! trees is plain structural equality.

use vstd::prelude::*;

verus! {

/// Visibility marker on a function, struct field or method.
#[derive(Debug, PartialEq, Eq, Structural, Clone, Copy)]
pub enum Vis {
    Public,
    Private,
}

/// The classes of attribute the stripping passes tell apart.
#[derive(Debug, PartialEq, Eq, Structural, Clone, Copy)]
pub enum AttrKind {
    Derive,
    Doc,
    Other,
}

/// One attribute, with its raw text kept verbatim.
#[derive(Debug, PartialEq, Eq)]
pub struct Attr {
    pub kind: AttrKind,
    pub text: String,
}

/// A function or method body.  Passes treat a body as atomic: it is
/// either the original statement text, an empty block, or a single
/// placeholder statement that type-checks for any return type.
#[derive(Debug, PartialEq, Eq)]
pub enum Block {
    Stmts(String),
    Empty,
    Marker,
}

#[derive(Debug, PartialEq, Eq)]
pub enum AttrList {
    Nil,
    Cons(Attr, Box<AttrList>),
}

/// One named struct field.
#[derive(Debug, PartialEq, Eq)]
pub struct Field {
    pub name: String,
    pub vis: Vis,
    pub attrs: AttrList,
    pub ty: String,
}

#[derive(Debug, PartialEq, Eq)]
pub enum FieldList {
    Nil,
    Cons(Field, Box<FieldList>),
}

/// The field portion of a struct: either named fields, which the
/// visibility pass can address, or an opaque remainder (tuple or unit
/// structs), preserved verbatim.
#[derive(Debug, PartialEq, Eq)]
pub enum Fields {
    Named(FieldList),
    Opaque(String),
}

/// One item of an impl block: a method, or an opaque item no pass
/// targets.
#[derive(Debug, PartialEq, Eq)]
pub enum ImplItem {
    Method { sig: String, vis: Vis, body: Block },
    Other(String),
}

#[derive(Debug, PartialEq, Eq)]
pub enum ImplItemList {
    Nil,
    Cons(ImplItem, Box<ImplItemList>),
}

/// A list of plain names: enum variants kept verbatim, or the module
/// path of a source file.
#[derive(Debug, PartialEq, Eq)]
pub enum NameList {
    Nil,
    Cons(String, Box<NameList>),
}

/// One top-level or nested declaration.
///
/// A `Module` whose `content` is `None` is an external module
/// reference still to be resolved by the inliner; `file` and `line`
/// record where the reference was declared, for error reporting.
#[derive(Debug, PartialEq, Eq)]
pub enum Declaration {
    Module {
        name: String,
        attrs: AttrList,
        file: String,
        line: u64,
        content: Option<Box<DeclList>>,
    },
    Function { sig: String, vis: Vis, attrs: AttrList, body: Block },
    Struct { sig: String, vis: Vis, attrs: AttrList, fields: Fields },
    Enum { sig: String, variants: NameList },
    Impl { sig: String, items: ImplItemList },
    Other(String),
}

#[derive(Debug, PartialEq, Eq)]
pub enum DeclList {
    Nil,
    Cons(Declaration, Box<DeclList>),
}

/// The whole program: an ordered sequence of top-level declarations.
#[derive(Debug, PartialEq, Eq)]
pub struct SourceFile {
    pub decls: DeclList,
}

// ---------------------------------------------------------------------
// Deep copies.  Each copy is provably equal to its original, which is
// what lets a pass keep the current tree while it builds a speculative
// candidate from it.
// ---------------------------------------------------------------------

pub fn dup_attrs(l: &AttrList) -> (r: AttrList)
    ensures
        r == *l,
    decreases *l,
{
    match l {
        AttrList::Nil => AttrList::Nil,
        AttrList::Cons(a, rest) => AttrList::Cons(
            Attr { kind: a.kind, text: a.text.clone() },
            Box::new(dup_attrs(rest)),
        ),
    }
}

pub fn dup_block(b: &Block) -> (r: Block)
    ensures
        r == *b,
{
    match b {
        Block::Stmts(s) => Block::Stmts(s.clone()),
        Block::Empty => Block::Empty,
        Block::Marker => Block::Marker,
    }
}

pub fn dup_fields(l: &FieldList) -> (r: FieldList)
    ensures
        r == *l,
    decreases *l,
{
    match l {
        FieldList::Nil => FieldList::Nil,
        FieldList::Cons(f, rest) => FieldList::Cons(
            Field {
                name: f.name.clone(),
                vis: f.vis,
                attrs: dup_attrs(&f.attrs),
                ty: f.ty.clone(),
            },
            Box::new(dup_fields(rest)),
        ),
    }
}

pub fn dup_impl_items(l: &ImplItemList) -> (r: ImplItemList)
    ensures
        r == *l,
    decreases *l,
{
    match l {
        ImplItemList::Nil => ImplItemList::Nil,
        ImplItemList::Cons(it, rest) => {
            let i2 = match it {
                ImplItem::Method { sig, vis, body } => ImplItem::Method {
                    sig: sig.clone(),
                    vis: *vis,
                    body: dup_block(body),
                },
                ImplItem::Other(s) => ImplItem::Other(s.clone()),
            };
            ImplItemList::Cons(i2, Box::new(dup_impl_items(rest)))
        },
    }
}

pub fn dup_names(l: &NameList) -> (r: NameList)
    ensures
        r == *l,
    decreases *l,
{
    match l {
        NameList::Nil => NameList::Nil,
        NameList::Cons(s, rest) => NameList::Cons(s.clone(), Box::new(dup_names(rest))),
    }
}

pub fn dup_decl(d: &Declaration) -> (r: Declaration)
    ensures
        r == *d,
    decreases *d,
{
    match d {
        Declaration::Module { name, attrs, file, line, content } => {
            let c2 = match content {
                Option::None => Option::None,
                Option::Some(inner) => Option::Some(Box::new(dup_decls(inner))),
            };
            Declaration::Module {
                name: name.clone(),
                attrs: dup_attrs(attrs),
                file: file.clone(),
                line: *line,
                content: c2,
            }
        },
        Declaration::Function { sig, vis, attrs, body } => Declaration::Function {
            sig: sig.clone(),
            vis: *vis,
            attrs: dup_attrs(attrs),
            body: dup_block(body),
        },
        Declaration::Struct { sig, vis, attrs, fields } => {
            let f2 = match fields {
                Fields::Named(fl) => Fields::Named(dup_fields(fl)),
                Fields::Opaque(s) => Fields::Opaque(s.clone()),
            };
            Declaration::Struct {
                sig: sig.clone(),
                vis: *vis,
                attrs: dup_attrs(attrs),
                fields: f2,
            }
        },
        Declaration::Enum { sig, variants } => Declaration::Enum {
            sig: sig.clone(),
            variants: dup_names(variants),
        },
        Declaration::Impl { sig, items } => Declaration::Impl {
            sig: sig.clone(),
            items: dup_impl_items(items),
        },
        Declaration::Other(s) => Declaration::Other(s.clone()),
    }
}

pub fn dup_decls(l: &DeclList) -> (r: DeclList)
    ensures
        r == *l,
    decreases *l,
{
    match l {
        DeclList::Nil => DeclList::Nil,
        DeclList::Cons(d, rest) => DeclList::Cons(dup_decl(d), Box::new(dup_decls(rest))),
    }
}

// ---------------------------------------------------------------------
// Structural measures.  The pass loops terminate because every
// accepted mutation strictly shrinks the measure of its pass.
// ---------------------------------------------------------------------

/// Number of declarations and impl items in the tree.
pub open spec fn tree_size(l: DeclList) -> nat
    decreases l,
{
    match l {
        DeclList::Nil => 0,
        DeclList::Cons(d, rest) => 1 + decl_size(d) + tree_size(*rest),
    }
}

pub open spec fn decl_size(d: Declaration) -> nat
    decreases d,
{
    match d {
        Declaration::Module { content: Option::Some(inner), .. } => tree_size(*inner),
        Declaration::Impl { items, .. } => impl_items_size(items),
        _ => 0,
    }
}

pub open spec fn impl_items_size(l: ImplItemList) -> nat
    decreases l,
{
    match l {
        ImplItemList::Nil => 0,
        ImplItemList::Cons(_, rest) => 1 + impl_items_size(*rest),
    }
}

/// Number of attributes of the given kind on declarations and fields.
pub open spec fn attr_count(l: DeclList, k: AttrKind) -> nat
    decreases l,
{
    match l {
        DeclList::Nil => 0,
        DeclList::Cons(d, rest) => decl_attr_count(d, k) + attr_count(*rest, k),
    }
}

pub open spec fn decl_attr_count(d: Declaration, k: AttrKind) -> nat
    decreases d,
{
    match d {
        Declaration::Module { attrs, content, .. } => attrs_count(attrs, k) + match content {
            Option::Some(inner) => attr_count(*inner, k),
            Option::None => 0,
        },
        Declaration::Function { attrs, .. } => attrs_count(attrs, k),
        Declaration::Struct { attrs, fields, .. } => attrs_count(attrs, k) + match fields {
            Fields::Named(fl) => fields_attr_count(fl, k),
            Fields::Opaque(_) => 0,
        },
        _ => 0,
    }
}

pub open spec fn attrs_count(l: AttrList, k: AttrKind) -> nat
    decreases l,
{
    match l {
        AttrList::Nil => 0,
        AttrList::Cons(a, rest) => (if a.kind == k {
            1nat
        } else {
            0nat
        }) + attrs_count(*rest, k),
    }
}

pub open spec fn fields_attr_count(l: FieldList, k: AttrKind) -> nat
    decreases l,
{
    match l {
        FieldList::Nil => 0,
        FieldList::Cons(f, rest) => attrs_count(f.attrs, k) + fields_attr_count(*rest, k),
    }
}

/// Number of function and method bodies that are not yet the empty
/// block.
pub open spec fn full_body_count(l: DeclList) -> nat
    decreases l,
{
    match l {
        DeclList::Nil => 0,
        DeclList::Cons(d, rest) => decl_full_body_count(d) + full_body_count(*rest),
    }
}

pub open spec fn decl_full_body_count(d: Declaration) -> nat
    decreases d,
{
    match d {
        Declaration::Module { content: Option::Some(inner), .. } => full_body_count(*inner),
        Declaration::Function { body, .. } => if body is Empty {
            0nat
        } else {
            1nat
        },
        Declaration::Impl { items, .. } => impl_full_body_count(items),
        _ => 0,
    }
}

pub open spec fn impl_full_body_count(l: ImplItemList) -> nat
    decreases l,
{
    match l {
        ImplItemList::Nil => 0,
        ImplItemList::Cons(it, rest) => (match it {
            ImplItem::Method { body, .. } => if body is Empty {
                0nat
            } else {
                1nat
            },
            ImplItem::Other(_) => 0nat,
        }) + impl_full_body_count(*rest),
    }
}

/// Number of function and method bodies still holding their original
/// statement text.
pub open spec fn stmts_body_count(l: DeclList) -> nat
    decreases l,
{
    match l {
        DeclList::Nil => 0,
        DeclList::Cons(d, rest) => decl_stmts_body_count(d) + stmts_body_count(*rest),
    }
}

pub open spec fn decl_stmts_body_count(d: Declaration) -> nat
    decreases d,
{
    match d {
        Declaration::Module { content: Option::Some(inner), .. } => stmts_body_count(*inner),
        Declaration::Function { body, .. } => if body is Stmts {
            1nat
        } else {
            0nat
        },
        Declaration::Impl { items, .. } => impl_stmts_body_count(items),
        _ => 0,
    }
}

pub open spec fn impl_stmts_body_count(l: ImplItemList) -> nat
    decreases l,
{
    match l {
        ImplItemList::Nil => 0,
        ImplItemList::Cons(it, rest) => (match it {
            ImplItem::Method { body, .. } => if body is Stmts {
                1nat
            } else {
                0nat
            },
            ImplItem::Other(_) => 0nat,
        }) + impl_stmts_body_count(*rest),
    }
}

/// Number of `Public` markers on functions, named struct fields and
/// methods.
pub open spec fn pub_count(l: DeclList) -> nat
    decreases l,
{
    match l {
        DeclList::Nil => 0,
        DeclList::Cons(d, rest) => decl_pub_count(d) + pub_count(*rest),
    }
}

pub open spec fn decl_pub_count(d: Declaration) -> nat
    decreases d,
{
    match d {
        Declaration::Module { content: Option::Some(inner), .. } => pub_count(*inner),
        Declaration::Function { vis, .. } => if vis is Public {
            1nat
        } else {
            0nat
        },
        Declaration::Struct { fields: Fields::Named(fl), .. } => fields_pub_count(fl),
        Declaration::Impl { items, .. } => impl_pub_count(items),
        _ => 0,
    }
}

pub open spec fn fields_pub_count(l: FieldList) -> nat
    decreases l,
{
    match l {
        FieldList::Nil => 0,
        FieldList::Cons(f, rest) => (if f.vis is Public {
            1nat
        } else {
            0nat
        }) + fields_pub_count(*rest),
    }
}

pub open spec fn impl_pub_count(l: ImplItemList) -> nat
    decreases l,
{
    match l {
        ImplItemList::Nil => 0,
        ImplItemList::Cons(it, rest) => (match it {
            ImplItem::Method { vis, .. } => if vis is Public {
                1nat
            } else {
                0nat
            },
            ImplItem::Other(_) => 0nat,
        }) + impl_pub_count(*rest),
    }
}

// ---------------------------------------------------------------------
// Self-containedness: no unresolved external module references.
// ---------------------------------------------------------------------

pub open spec fn self_contained(l: DeclList) -> bool
    decreases l,
{
    match l {
        DeclList::Nil => true,
        DeclList::Cons(d, rest) => decl_self_contained(d) && self_contained(*rest),
    }
}

pub open spec fn decl_self_contained(d: Declaration) -> bool
    decreases d,
{
    match d {
        Declaration::Module { content, .. } => match content {
            Option::Some(inner) => self_contained(*inner),
            Option::None => false,
        },
        _ => true,
    }
}

/// Executable check for `self_contained`.
pub fn is_self_contained(l: &DeclList) -> (r: bool)
    ensures
        r == self_contained(*l),
    decreases *l,
{
    match l {
        DeclList::Nil => true,
        DeclList::Cons(d, rest) => {
            let head_ok = is_decl_self_contained(d);
            if head_ok {
                is_self_contained(rest)
            } else {
                false
            }
        },
    }
}

/// Executable check for `decl_self_contained`.
pub fn is_decl_self_contained(d: &Declaration) -> (r: bool)
    ensures
        r == decl_self_contained(*d),
    decreases *d,
{
    match d {
        Declaration::Module { content, .. } => match content {
            Option::Some(inner) => is_self_contained(inner),
            Option::None => false,
        },
        _ => true,
    }
}

} // verus!
