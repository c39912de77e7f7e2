use rust_reduce::inliner::{
    inline_modules, ModRef, ModRefList, ModSource, ModSourceList, ModStore,
};
use rust_reduce::tree::{AttrList, Block, DeclList, Declaration, NameList, SourceFile, Vis};
use rust_reduce::{reduce, ReduceError, Runnable};

fn decl_list(v: Vec<Declaration>) -> DeclList {
    let mut l = DeclList::Nil;
    for d in v.into_iter().rev() {
        l = DeclList::Cons(d, Box::new(l));
    }
    l
}

fn names(v: Vec<&str>) -> NameList {
    let mut l = NameList::Nil;
    for s in v.into_iter().rev() {
        l = NameList::Cons(s.to_string(), Box::new(l));
    }
    l
}

fn plain_fn(sig: &str) -> Declaration {
    Declaration::Function {
        sig: sig.to_string(),
        vis: Vis::Private,
        attrs: AttrList::Nil,
        body: Block::Stmts("1".to_string()),
    }
}

fn mod_ref(name: &str, file: &str, line: u64) -> Declaration {
    Declaration::Module {
        name: name.to_string(),
        attrs: AttrList::Nil,
        file: file.to_string(),
        line,
        content: None,
    }
}

fn inline_mod(name: &str, content: Vec<Declaration>) -> Declaration {
    Declaration::Module {
        name: name.to_string(),
        attrs: AttrList::Nil,
        file: "lib.rs".to_string(),
        line: 1,
        content: Some(Box::new(decl_list(content))),
    }
}

fn store(v: Vec<(Vec<&str>, Vec<Declaration>)>) -> ModStore {
    let mut l = ModSourceList::Nil;
    for (chain, decls) in v.into_iter().rev() {
        l = ModSourceList::Cons(
            ModSource { chain: names(chain), decls: decl_list(decls) },
            Box::new(l),
        );
    }
    ModStore { entries: l }
}

#[test]
fn inlining_a_self_contained_tree_is_a_no_op() {
    let t = decl_list(vec![plain_fn("fn a()"), inline_mod("m", vec![plain_fn("fn b()")])]);
    let same = decl_list(vec![plain_fn("fn a()"), inline_mod("m", vec![plain_fn("fn b()")])]);
    let s = store(vec![(vec!["m"], vec![plain_fn("fn decoy()")])]);
    let (out, missing) = inline_modules(t, s);
    assert_eq!(out, same);
    assert_eq!(missing, ModRefList::Nil);
}

#[test]
fn inlining_substitutes_the_referenced_source() {
    let t = decl_list(vec![mod_ref("util", "lib.rs", 3)]);
    let s = store(vec![(vec!["util"], vec![plain_fn("fn helper()")])]);
    let (out, missing) = inline_modules(t, s);
    let expected = decl_list(vec![Declaration::Module {
        name: "util".to_string(),
        attrs: AttrList::Nil,
        file: "lib.rs".to_string(),
        line: 3,
        content: Some(Box::new(decl_list(vec![plain_fn("fn helper()")]))),
    }]);
    assert_eq!(out, expected);
    assert_eq!(missing, ModRefList::Nil);
}

#[test]
fn inlining_recurses_into_pulled_in_sources() {
    // util itself declares `mod inner;`, resolved at util/inner
    let t = decl_list(vec![mod_ref("util", "lib.rs", 2)]);
    let s = store(vec![
        (vec!["util"], vec![mod_ref("inner", "util.rs", 1)]),
        (vec!["util", "inner"], vec![plain_fn("fn deep()")]),
    ]);
    let (out, missing) = inline_modules(t, s);
    let expected = decl_list(vec![Declaration::Module {
        name: "util".to_string(),
        attrs: AttrList::Nil,
        file: "lib.rs".to_string(),
        line: 2,
        content: Some(Box::new(decl_list(vec![Declaration::Module {
            name: "inner".to_string(),
            attrs: AttrList::Nil,
            file: "util.rs".to_string(),
            line: 1,
            content: Some(Box::new(decl_list(vec![plain_fn("fn deep()")]))),
        }]))),
    }]);
    assert_eq!(out, expected);
    assert_eq!(missing, ModRefList::Nil);
}

#[test]
fn every_unresolved_reference_is_collected() {
    let t = decl_list(vec![
        mod_ref("gone", "lib.rs", 4),
        plain_fn("fn a()"),
        mod_ref("lost", "lib.rs", 9),
    ]);
    let (_, missing) = inline_modules(t, store(vec![]));
    // collected in reverse declaration order (the list is built by
    // prepending)
    let expected = ModRefList::Cons(
        ModRef {
            name: "lost".to_string(),
            file: "lib.rs".to_string(),
            line: 9,
            chain: names(vec!["lost"]),
        },
        Box::new(ModRefList::Cons(
            ModRef {
                name: "gone".to_string(),
                file: "lib.rs".to_string(),
                line: 4,
                chain: names(vec!["gone"]),
            },
            Box::new(ModRefList::Nil),
        )),
    );
    assert_eq!(missing, expected);
}

struct AlwaysHappy;

impl Runnable for AlwaysHappy {
    fn interesting(&self, _t: SourceFile) -> bool {
        true
    }

    fn root(&self) -> &str {
        "."
    }

    fn get_path(&self) -> &str {
        "candidate.rs"
    }

    fn run(&self, _t: &SourceFile) -> Result<(), String> {
        Ok(())
    }
}

struct NeverHappy;

impl Runnable for NeverHappy {
    fn interesting(&self, _t: SourceFile) -> bool {
        false
    }

    fn root(&self) -> &str {
        "."
    }

    fn get_path(&self) -> &str {
        "candidate.rs"
    }

    fn run(&self, _t: &SourceFile) -> Result<(), String> {
        Err("marker not found in output".to_string())
    }
}

#[test]
fn reduce_aborts_on_unresolved_modules() {
    let entry = SourceFile { decls: decl_list(vec![mod_ref("nowhere", "main.rs", 7)]) };
    let res = reduce(&AlwaysHappy, entry, store(vec![]));
    match res {
        Err(ReduceError::UnresolvedModules(ModRefList::Cons(r, rest))) => {
            assert_eq!(r.name, "nowhere");
            assert_eq!(r.file, "main.rs");
            assert_eq!(r.line, 7);
            assert_eq!(*rest, ModRefList::Nil);
        }
        other => panic!("expected unresolved-module failure, got {:?}", other),
    }
}

#[test]
fn reduce_aborts_when_the_input_is_not_interesting() {
    let entry = SourceFile { decls: decl_list(vec![plain_fn("fn a()")]) };
    let res = reduce(&NeverHappy, entry, store(vec![]));
    assert_eq!(
        res,
        Err(ReduceError::NotInteresting("marker not found in output".to_string()))
    );
}
