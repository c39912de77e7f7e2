use rust_reduce::transforms::clear_blocks::clear_blocks;
use rust_reduce::transforms::empty_blocks::empty_blocks;
use rust_reduce::transforms::prune_items::prune_items;
use rust_reduce::transforms::privatiser::privatise_items;
use rust_reduce::transforms::remove_derive_attrs::remove_derive_attrs;
use rust_reduce::transforms::remove_doc_attrs::remove_doc_attrs;
use rust_reduce::tree::{
    Attr, AttrKind, AttrList, Block, DeclList, Declaration, Field, FieldList, Fields, ImplItem,
    ImplItemList, NameList, SourceFile, Vis,
};
use rust_reduce::Runnable;

fn decls(v: Vec<Declaration>) -> DeclList {
    let mut l = DeclList::Nil;
    for d in v.into_iter().rev() {
        l = DeclList::Cons(d, Box::new(l));
    }
    l
}

fn attrs(v: Vec<(AttrKind, &str)>) -> AttrList {
    let mut l = AttrList::Nil;
    for (kind, text) in v.into_iter().rev() {
        l = AttrList::Cons(Attr { kind, text: text.to_string() }, Box::new(l));
    }
    l
}

fn fields(v: Vec<Field>) -> FieldList {
    let mut l = FieldList::Nil;
    for f in v.into_iter().rev() {
        l = FieldList::Cons(f, Box::new(l));
    }
    l
}

fn impl_items(v: Vec<ImplItem>) -> ImplItemList {
    let mut l = ImplItemList::Nil;
    for i in v.into_iter().rev() {
        l = ImplItemList::Cons(i, Box::new(l));
    }
    l
}

fn func(sig: &str, vis: Vis, al: AttrList, body: Block) -> Declaration {
    Declaration::Function { sig: sig.to_string(), vis, attrs: al, body }
}

fn module(name: &str, al: AttrList, content: Vec<Declaration>) -> Declaration {
    Declaration::Module {
        name: name.to_string(),
        attrs: al,
        file: "lib.rs".to_string(),
        line: 1,
        content: Some(Box::new(decls(content))),
    }
}

fn stmts(s: &str) -> Block {
    Block::Stmts(s.to_string())
}

fn file(v: Vec<Declaration>) -> SourceFile {
    SourceFile { decls: decls(v) }
}

/// An oracle driven by an arbitrary predicate over the candidate tree.
struct PredOracle(Box<dyn Fn(&SourceFile) -> bool>);

impl Runnable for PredOracle {
    fn interesting(&self, t: SourceFile) -> bool {
        (self.0)(&t)
    }

    fn root(&self) -> &str {
        "."
    }

    fn get_path(&self) -> &str {
        "candidate.rs"
    }

    fn run(&self, t: &SourceFile) -> Result<(), String> {
        if (self.0)(t) {
            Ok(())
        } else {
            Err("candidate no longer interesting".to_string())
        }
    }
}

fn accept_all() -> PredOracle {
    PredOracle(Box::new(|_| true))
}

/// True iff some function anywhere in the tree satisfies the given
/// predicate.
fn any_function(l: &DeclList, f: &dyn Fn(&str, &Vis, &Block) -> bool) -> bool {
    match l {
        DeclList::Nil => false,
        DeclList::Cons(d, rest) => {
            let here = match d {
                Declaration::Function { sig, vis, body, .. } => f(sig, vis, body),
                Declaration::Module { content: Some(inner), .. } => any_function(inner, f),
                _ => false,
            };
            here || any_function(rest, f)
        }
    }
}

#[test]
fn prune_deletes_unused_function() {
    let mut f = file(vec![
        func("fn unused()", Vis::Private, AttrList::Nil, stmts("")),
        func("fn main()", Vis::Public, AttrList::Nil, stmts("println!(\"hi\");")),
    ]);
    let oracle = PredOracle(Box::new(|t: &SourceFile| {
        any_function(&t.decls, &|sig, _, _| sig == "fn main()")
    }));
    prune_items(&mut f, &oracle);
    let expected = file(vec![func(
        "fn main()",
        Vis::Public,
        AttrList::Nil,
        stmts("println!(\"hi\");"),
    )]);
    assert_eq!(f, expected);
}

#[test]
fn prune_keeps_everything_the_oracle_needs() {
    let orig = file(vec![
        func("fn a()", Vis::Private, AttrList::Nil, stmts("1")),
        func("fn b()", Vis::Private, AttrList::Nil, stmts("2")),
    ]);
    let mut f = file(vec![
        func("fn a()", Vis::Private, AttrList::Nil, stmts("1")),
        func("fn b()", Vis::Private, AttrList::Nil, stmts("2")),
    ]);
    let oracle = PredOracle(Box::new(|t: &SourceFile| {
        any_function(&t.decls, &|sig, _, _| sig == "fn a()")
            && any_function(&t.decls, &|sig, _, _| sig == "fn b()")
    }));
    prune_items(&mut f, &oracle);
    assert_eq!(f, orig);
}

#[test]
fn prune_deletes_a_whole_module_in_one_bite() {
    let mut f = file(vec![
        module(
            "helpers",
            AttrList::Nil,
            vec![
                func("fn one()", Vis::Public, AttrList::Nil, stmts("1")),
                func("fn two()", Vis::Public, AttrList::Nil, stmts("2")),
            ],
        ),
        func("fn keep()", Vis::Private, AttrList::Nil, stmts("3")),
    ]);
    let oracle = PredOracle(Box::new(|t: &SourceFile| {
        any_function(&t.decls, &|sig, _, _| sig == "fn keep()")
    }));
    prune_items(&mut f, &oracle);
    let expected = file(vec![func("fn keep()", Vis::Private, AttrList::Nil, stmts("3"))]);
    assert_eq!(f, expected);
}

#[test]
fn prune_to_nothing_under_an_indifferent_oracle() {
    let mut f = file(vec![
        module("m", AttrList::Nil, vec![func("fn x()", Vis::Private, AttrList::Nil, stmts("1"))]),
        Declaration::Enum { sig: "enum E".to_string(), variants: NameList::Nil },
        func("fn y()", Vis::Private, AttrList::Nil, stmts("2")),
    ]);
    prune_items(&mut f, &accept_all());
    assert_eq!(f, SourceFile { decls: DeclList::Nil });
}

#[test]
fn prune_never_touches_opaque_declarations() {
    let mut f = file(vec![
        Declaration::Other("use std::fmt;".to_string()),
        func("fn z()", Vis::Private, AttrList::Nil, stmts("1")),
    ]);
    prune_items(&mut f, &accept_all());
    let expected = file(vec![Declaration::Other("use std::fmt;".to_string())]);
    assert_eq!(f, expected);
}

#[test]
fn derive_strip_takes_only_derive_attributes() {
    let mut f = file(vec![func(
        "fn a()",
        Vis::Private,
        attrs(vec![
            (AttrKind::Derive, "#[derive(Clone)]"),
            (AttrKind::Doc, "/// docs"),
            (AttrKind::Other, "#[inline]"),
        ]),
        stmts("1"),
    )]);
    remove_derive_attrs(&mut f, &accept_all());
    let expected = file(vec![func(
        "fn a()",
        Vis::Private,
        attrs(vec![(AttrKind::Doc, "/// docs"), (AttrKind::Other, "#[inline]")]),
        stmts("1"),
    )]);
    assert_eq!(f, expected);
}

#[test]
fn doc_strip_reaches_struct_fields() {
    let mut f = file(vec![Declaration::Struct {
        sig: "struct S".to_string(),
        vis: Vis::Public,
        attrs: attrs(vec![(AttrKind::Doc, "/// a struct")]),
        fields: Fields::Named(fields(vec![Field {
            name: "x".to_string(),
            vis: Vis::Private,
            attrs: attrs(vec![(AttrKind::Doc, "/// a field"), (AttrKind::Other, "#[used]")]),
            ty: "u32".to_string(),
        }])),
    }]);
    remove_doc_attrs(&mut f, &accept_all());
    let expected = file(vec![Declaration::Struct {
        sig: "struct S".to_string(),
        vis: Vis::Public,
        attrs: AttrList::Nil,
        fields: Fields::Named(fields(vec![Field {
            name: "x".to_string(),
            vis: Vis::Private,
            attrs: attrs(vec![(AttrKind::Other, "#[used]")]),
            ty: "u32".to_string(),
        }])),
    }]);
    assert_eq!(f, expected);
}

#[test]
fn strip_leaves_attributes_the_oracle_needs() {
    let orig = file(vec![func(
        "fn a()",
        Vis::Private,
        attrs(vec![(AttrKind::Derive, "#[derive(Debug)]")]),
        stmts("1"),
    )]);
    let mut f = file(vec![func(
        "fn a()",
        Vis::Private,
        attrs(vec![(AttrKind::Derive, "#[derive(Debug)]")]),
        stmts("1"),
    )]);
    let oracle = PredOracle(Box::new(|t: &SourceFile| {
        // the triggering behaviour depends on the derive staying
        match &t.decls {
            DeclList::Cons(Declaration::Function { attrs: AttrList::Cons(_, _), .. }, _) => true,
            _ => false,
        }
    }));
    remove_derive_attrs(&mut f, &oracle);
    assert_eq!(f, orig);
}

#[test]
fn empty_blocks_empties_function_and_method_bodies() {
    let mut f = file(vec![
        func("fn a()", Vis::Private, AttrList::Nil, stmts("work();")),
        Declaration::Impl {
            sig: "impl T".to_string(),
            items: impl_items(vec![
                ImplItem::Method {
                    sig: "fn m(&self)".to_string(),
                    vis: Vis::Public,
                    body: stmts("self.x"),
                },
                ImplItem::Other("const K: u32 = 1;".to_string()),
            ]),
        },
    ]);
    empty_blocks(&mut f, &accept_all());
    let expected = file(vec![
        func("fn a()", Vis::Private, AttrList::Nil, Block::Empty),
        Declaration::Impl {
            sig: "impl T".to_string(),
            items: impl_items(vec![
                ImplItem::Method {
                    sig: "fn m(&self)".to_string(),
                    vis: Vis::Public,
                    body: Block::Empty,
                },
                ImplItem::Other("const K: u32 = 1;".to_string()),
            ]),
        },
    ]);
    assert_eq!(f, expected);
}

#[test]
fn empty_blocks_respects_the_oracle() {
    let orig = file(vec![func("fn a() -> u32", Vis::Private, AttrList::Nil, stmts("42"))]);
    let mut f = file(vec![func("fn a() -> u32", Vis::Private, AttrList::Nil, stmts("42"))]);
    let oracle = PredOracle(Box::new(|t: &SourceFile| {
        any_function(&t.decls, &|_, _, body| matches!(body, Block::Stmts(s) if s == "42"))
    }));
    empty_blocks(&mut f, &oracle);
    assert_eq!(f, orig);
}

#[test]
fn clear_blocks_marks_bodies_that_would_not_empty() {
    let mut f = file(vec![
        func("fn a() -> u32", Vis::Private, AttrList::Nil, stmts("compute()")),
        func("fn b()", Vis::Private, AttrList::Nil, Block::Empty),
    ]);
    clear_blocks(&mut f, &accept_all());
    let expected = file(vec![
        func("fn a() -> u32", Vis::Private, AttrList::Nil, Block::Marker),
        func("fn b()", Vis::Private, AttrList::Nil, Block::Empty),
    ]);
    assert_eq!(f, expected);
}

#[test]
fn privatise_demotes_a_public_function() {
    let mut f = file(vec![func("fn api()", Vis::Public, AttrList::Nil, stmts("1"))]);
    privatise_items(&mut f, &accept_all());
    let expected = file(vec![func("fn api()", Vis::Private, AttrList::Nil, stmts("1"))]);
    assert_eq!(f, expected);
}

#[test]
fn privatise_leaves_private_items_alone() {
    let orig = file(vec![
        func("fn quiet()", Vis::Private, AttrList::Nil, stmts("1")),
        module("m", AttrList::Nil, vec![func("fn inner()", Vis::Private, AttrList::Nil, stmts("2"))]),
    ]);
    let mut f = file(vec![
        func("fn quiet()", Vis::Private, AttrList::Nil, stmts("1")),
        module("m", AttrList::Nil, vec![func("fn inner()", Vis::Private, AttrList::Nil, stmts("2"))]),
    ]);
    privatise_items(&mut f, &accept_all());
    assert_eq!(f, orig);
}

#[test]
fn privatise_reaches_fields_methods_and_nested_functions() {
    let mut f = file(vec![
        Declaration::Struct {
            sig: "struct S".to_string(),
            vis: Vis::Public,
            attrs: AttrList::Nil,
            fields: Fields::Named(fields(vec![
                Field {
                    name: "x".to_string(),
                    vis: Vis::Public,
                    attrs: AttrList::Nil,
                    ty: "u32".to_string(),
                },
                Field {
                    name: "y".to_string(),
                    vis: Vis::Private,
                    attrs: AttrList::Nil,
                    ty: "u32".to_string(),
                },
            ])),
        },
        Declaration::Impl {
            sig: "impl S".to_string(),
            items: impl_items(vec![ImplItem::Method {
                sig: "fn get(&self)".to_string(),
                vis: Vis::Public,
                body: stmts("self.x"),
            }]),
        },
        module("m", AttrList::Nil, vec![func("fn deep()", Vis::Public, AttrList::Nil, stmts("3"))]),
    ]);
    privatise_items(&mut f, &accept_all());
    let expected = file(vec![
        Declaration::Struct {
            sig: "struct S".to_string(),
            vis: Vis::Public,
            attrs: AttrList::Nil,
            fields: Fields::Named(fields(vec![
                Field {
                    name: "x".to_string(),
                    vis: Vis::Private,
                    attrs: AttrList::Nil,
                    ty: "u32".to_string(),
                },
                Field {
                    name: "y".to_string(),
                    vis: Vis::Private,
                    attrs: AttrList::Nil,
                    ty: "u32".to_string(),
                },
            ])),
        },
        Declaration::Impl {
            sig: "impl S".to_string(),
            items: impl_items(vec![ImplItem::Method {
                sig: "fn get(&self)".to_string(),
                vis: Vis::Private,
                body: stmts("self.x"),
            }]),
        },
        module("m", AttrList::Nil, vec![func("fn deep()", Vis::Private, AttrList::Nil, stmts("3"))]),
    ]);
    assert_eq!(f, expected);
}

#[test]
fn privatise_respects_the_oracle() {
    let orig = file(vec![func("fn api()", Vis::Public, AttrList::Nil, stmts("1"))]);
    let mut f = file(vec![func("fn api()", Vis::Public, AttrList::Nil, stmts("1"))]);
    let oracle = PredOracle(Box::new(|t: &SourceFile| {
        any_function(&t.decls, &|_, vis, _| matches!(vis, Vis::Public))
    }));
    privatise_items(&mut f, &oracle);
    assert_eq!(f, orig);
}

#[test]
fn passes_run_to_fixpoint_are_idempotent() {
    // one run of each pass, then a second run on its own output: the
    // second run must change nothing
    let build = || {
        file(vec![
            module(
                "m",
                attrs(vec![(AttrKind::Doc, "//! inner docs")]),
                vec![
                    func("fn gone()", Vis::Public, AttrList::Nil, stmts("1")),
                    func(
                        "fn kept()",
                        Vis::Public,
                        attrs(vec![(AttrKind::Derive, "#[derive(Clone)]")]),
                        stmts("2"),
                    ),
                ],
            ),
            func("fn main()", Vis::Public, AttrList::Nil, stmts("kept();")),
        ])
    };
    let oracle = PredOracle(Box::new(|t: &SourceFile| {
        any_function(&t.decls, &|sig, _, body| {
            sig == "fn kept()" && !matches!(body, Block::Marker)
        }) && any_function(&t.decls, &|sig, _, _| sig == "fn main()")
    }));
    let mut f = build();
    prune_items(&mut f, &oracle);
    let once = clone_file(&f);
    prune_items(&mut f, &oracle);
    assert_eq!(f, once);

    remove_derive_attrs(&mut f, &oracle);
    let once = clone_file(&f);
    remove_derive_attrs(&mut f, &oracle);
    assert_eq!(f, once);

    empty_blocks(&mut f, &oracle);
    let once = clone_file(&f);
    empty_blocks(&mut f, &oracle);
    assert_eq!(f, once);

    privatise_items(&mut f, &oracle);
    let once = clone_file(&f);
    privatise_items(&mut f, &oracle);
    assert_eq!(f, once);
}

#[test]
fn accepted_output_still_satisfies_the_oracle() {
    // after a pass, re-invoking the oracle on the result reports
    // interesting again
    let mut f = file(vec![
        func("fn noise()", Vis::Private, AttrList::Nil, stmts("1")),
        func("fn signal()", Vis::Private, AttrList::Nil, stmts("2")),
    ]);
    let oracle = PredOracle(Box::new(|t: &SourceFile| {
        any_function(&t.decls, &|sig, _, _| sig == "fn signal()")
    }));
    assert_eq!(oracle.run(&f), Ok(()));
    prune_items(&mut f, &oracle);
    assert_eq!(oracle.run(&f), Ok(()));
}

fn clone_file(f: &SourceFile) -> SourceFile {
    SourceFile { decls: rust_reduce::tree::dup_decls(&f.decls) }
}

#[test]
fn doc_strip_reaches_module_attributes() {
    let mut f = file(vec![Declaration::Module {
        name: "m".to_string(),
        attrs: attrs(vec![(AttrKind::Doc, "/// module docs"), (AttrKind::Other, "#[cfg(test)]")]),
        file: "lib.rs".to_string(),
        line: 1,
        content: Some(Box::new(decls(vec![]))),
    }]);
    remove_doc_attrs(&mut f, &accept_all());
    let expected = file(vec![Declaration::Module {
        name: "m".to_string(),
        attrs: attrs(vec![(AttrKind::Other, "#[cfg(test)]")]),
        file: "lib.rs".to_string(),
        line: 1,
        content: Some(Box::new(decls(vec![]))),
    }]);
    assert_eq!(f, expected);
}

#[test]
fn clear_blocks_respects_the_oracle() {
    let orig = file(vec![func("fn a() -> u32", Vis::Private, AttrList::Nil, stmts("42"))]);
    let mut f = file(vec![func("fn a() -> u32", Vis::Private, AttrList::Nil, stmts("42"))]);
    let oracle = PredOracle(Box::new(|t: &SourceFile| {
        any_function(&t.decls, &|_, _, body| matches!(body, Block::Stmts(s) if s == "42"))
    }));
    clear_blocks(&mut f, &oracle);
    assert_eq!(f, orig);
}
