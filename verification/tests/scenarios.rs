//! End-to-end reductions through `reduce`, with oracles standing in
//! for the external verification command.

use rust_reduce::inliner::{ModSource, ModSourceList, ModStore};
use rust_reduce::tree::{
    Attr, AttrKind, AttrList, Block, DeclList, Declaration, NameList, SourceFile, Vis,
};
use rust_reduce::{reduce, Runnable};

fn seq_decls(v: Vec<Declaration>) -> DeclList {
    let mut l = DeclList::Nil;
    for d in v.into_iter().rev() {
        l = DeclList::Cons(d, Box::new(l));
    }
    l
}

fn one_attr(kind: AttrKind, text: &str) -> AttrList {
    AttrList::Cons(Attr { kind, text: text.to_string() }, Box::new(AttrList::Nil))
}

fn function(sig: &str, vis: Vis, attrs: AttrList, body: Block) -> Declaration {
    Declaration::Function { sig: sig.to_string(), vis, attrs, body }
}

fn empty_store() -> ModStore {
    ModStore { entries: ModSourceList::Nil }
}

/// The body of the named function, if it is anywhere in the tree.
fn body_of(l: &DeclList, sig: &str) -> Option<Block> {
    match l {
        DeclList::Nil => None,
        DeclList::Cons(d, rest) => {
            let here = match d {
                Declaration::Function { sig: s, body, .. } if s == sig => {
                    Some(clone_block(body))
                }
                Declaration::Module { content: Some(inner), .. } => body_of(inner, sig),
                _ => None,
            };
            match here {
                Some(b) => Some(b),
                None => body_of(rest, sig),
            }
        }
    }
}

fn clone_block(b: &Block) -> Block {
    match b {
        Block::Stmts(s) => Block::Stmts(s.clone()),
        Block::Empty => Block::Empty,
        Block::Marker => Block::Marker,
    }
}

fn has_attr_text(attrs: &AttrList, text: &str) -> bool {
    match attrs {
        AttrList::Nil => false,
        AttrList::Cons(a, rest) => a.text == text || has_attr_text(rest, text),
    }
}

/// Number of functions anywhere in the tree carrying `#[test]`.
fn count_test_fns(l: &DeclList) -> usize {
    match l {
        DeclList::Nil => 0,
        DeclList::Cons(d, rest) => {
            let here = match d {
                Declaration::Function { attrs, .. } if has_attr_text(attrs, "#[test]") => 1,
                Declaration::Module { content: Some(inner), .. } => count_test_fns(inner),
                _ => 0,
            };
            here + count_test_fns(rest)
        }
    }
}

fn module_exists(l: &DeclList, name: &str) -> bool {
    match l {
        DeclList::Nil => false,
        DeclList::Cons(d, rest) => {
            let here = match d {
                Declaration::Module { name: n, content, .. } => {
                    n == name
                        || match content {
                            Some(inner) => module_exists(inner, name),
                            None => false,
                        }
                }
                _ => false,
            };
            here || module_exists(rest, name)
        }
    }
}

struct PredOracle(Box<dyn Fn(&SourceFile) -> bool>);

impl Runnable for PredOracle {
    fn interesting(&self, t: SourceFile) -> bool {
        (self.0)(&t)
    }

    fn root(&self) -> &str {
        "."
    }

    fn get_path(&self) -> &str {
        "candidate.rs"
    }

    fn run(&self, t: &SourceFile) -> Result<(), String> {
        if (self.0)(t) {
            Ok(())
        } else {
            Err("candidate no longer interesting".to_string())
        }
    }
}

const HELLO: &str = "println!(\"Hello, world!\");";

/// An entry program with one unused function and a `main` printing a
/// marker, under an oracle that runs the program and watches for the
/// marker: the unused function goes, `main`'s printing body stays.
#[test]
fn hello_world_program_loses_its_unused_function() {
    let entry = SourceFile {
        decls: seq_decls(vec![
            function("fn unused()", Vis::Private, AttrList::Nil, Block::Empty),
            function("fn main()", Vis::Public, AttrList::Nil, Block::Stmts(HELLO.to_string())),
        ]),
    };
    let oracle = PredOracle(Box::new(|t: &SourceFile| {
        matches!(body_of(&t.decls, "fn main()"), Some(Block::Stmts(s)) if s == HELLO)
    }));
    let out = reduce(&oracle, entry, empty_store()).unwrap();
    let expected = SourceFile {
        decls: seq_decls(vec![function(
            "fn main()",
            Vis::Private,
            AttrList::Nil,
            Block::Stmts(HELLO.to_string()),
        )]),
    };
    assert_eq!(out, expected);
}

fn fresh_lib_tree() -> SourceFile {
    SourceFile {
        decls: seq_decls(vec![Declaration::Module {
            name: "tests".to_string(),
            attrs: one_attr(AttrKind::Other, "#[cfg(test)]"),
            file: "lib.rs".to_string(),
            line: 1,
            content: Some(Box::new(seq_decls(vec![function(
                "fn it_works()",
                Vis::Private,
                one_attr(AttrKind::Other, "#[test]"),
                Block::Stmts("assert_eq!(2 + 2, 4);".to_string()),
            )]))),
        }]),
    }
}

/// A library whose oracle is satisfied by any passing test run (even
/// one with zero tests) minimizes to the empty file.
#[test]
fn trivial_library_minimizes_to_nothing() {
    let oracle = PredOracle(Box::new(|_| true));
    let out = reduce(&oracle, fresh_lib_tree(), empty_store()).unwrap();
    assert_eq!(out, SourceFile { decls: DeclList::Nil });
}

/// With an oracle that wants exactly one passing test, the test
/// module collapses to a single empty-bodied test function with its
/// attributes preserved.
#[test]
fn library_minimizes_to_one_empty_test() {
    let oracle = PredOracle(Box::new(|t: &SourceFile| {
        count_test_fns(&t.decls) == 1 && !matches!(
            body_of(&t.decls, "fn it_works()"),
            Some(Block::Marker)
        )
    }));
    let out = reduce(&oracle, fresh_lib_tree(), empty_store()).unwrap();
    let expected = SourceFile {
        decls: seq_decls(vec![Declaration::Module {
            name: "tests".to_string(),
            attrs: one_attr(AttrKind::Other, "#[cfg(test)]"),
            file: "lib.rs".to_string(),
            line: 1,
            content: Some(Box::new(seq_decls(vec![function(
                "fn it_works()",
                Vis::Private,
                one_attr(AttrKind::Other, "#[test]"),
                Block::Empty,
            )]))),
        }]),
    };
    assert_eq!(out, expected);
}

const UTIL_SIG: &str = "fn util() -> &'static str";
const UTIL_BODY: &str = "\"wonderful\"";
const CALL_BODY: &str = "assert_eq!(\"wonderful\", test_utils::util());";

/// A test-only helper module is pulled in by the inliner, the
/// helper's body collapses to the placeholder, and the calling test
/// keeps enough structure to still compile and pass.
#[test]
fn test_only_helper_module_is_inlined_and_reduced() {
    let entry = SourceFile {
        decls: seq_decls(vec![
            Declaration::Module {
                name: "test_utils".to_string(),
                attrs: one_attr(AttrKind::Other, "#[cfg(test)]"),
                file: "lib.rs".to_string(),
                line: 2,
                content: None,
            },
            Declaration::Module {
                name: "tests".to_string(),
                attrs: one_attr(AttrKind::Other, "#[cfg(test)]"),
                file: "lib.rs".to_string(),
                line: 5,
                content: Some(Box::new(seq_decls(vec![
                    Declaration::Other("use crate::test_utils;".to_string()),
                    function(
                        "fn it_works()",
                        Vis::Private,
                        one_attr(AttrKind::Other, "#[test]"),
                        Block::Stmts(CALL_BODY.to_string()),
                    ),
                ]))),
            },
        ]),
    };
    let sources = ModStore {
        entries: ModSourceList::Cons(
            ModSource {
                chain: NameList::Cons("test_utils".to_string(), Box::new(NameList::Nil)),
                decls: seq_decls(vec![function(
                    UTIL_SIG,
                    Vis::Public,
                    AttrList::Nil,
                    Block::Stmts(UTIL_BODY.to_string()),
                )]),
            },
            Box::new(ModSourceList::Nil),
        ),
    };
    // the oracle plays `cargo test` looking for one passing test: the
    // candidate must still compile (an emptied body would not satisfy
    // the helper's return type; a deleted helper breaks the original
    // call and the `use`), and the one test must pass (an empty test
    // always does; the original assertion only with the helper's
    // original body)
    let oracle = PredOracle(Box::new(|t: &SourceFile| {
        let util = body_of(&t.decls, UTIL_SIG);
        let test = body_of(&t.decls, "fn it_works()");
        let compiles = module_exists(&t.decls, "test_utils")
            && !matches!(util, Some(Block::Empty))
            && (!matches!(&test, Some(Block::Stmts(s)) if s == CALL_BODY) || util.is_some());
        let one_passing_test = count_test_fns(&t.decls) == 1
            && match &test {
                Some(Block::Empty) => true,
                Some(Block::Stmts(s)) if s == CALL_BODY => {
                    matches!(&util, Some(Block::Stmts(u)) if u == UTIL_BODY)
                }
                _ => false,
            };
        compiles && one_passing_test
    }));
    let out = reduce(&oracle, entry, sources).unwrap();
    let expected = SourceFile {
        decls: seq_decls(vec![
            Declaration::Module {
                name: "test_utils".to_string(),
                attrs: one_attr(AttrKind::Other, "#[cfg(test)]"),
                file: "lib.rs".to_string(),
                line: 2,
                content: Some(Box::new(seq_decls(vec![function(
                    UTIL_SIG,
                    Vis::Private,
                    AttrList::Nil,
                    Block::Marker,
                )]))),
            },
            Declaration::Module {
                name: "tests".to_string(),
                attrs: one_attr(AttrKind::Other, "#[cfg(test)]"),
                file: "lib.rs".to_string(),
                line: 5,
                content: Some(Box::new(seq_decls(vec![
                    Declaration::Other("use crate::test_utils;".to_string()),
                    function(
                        "fn it_works()",
                        Vis::Private,
                        one_attr(AttrKind::Other, "#[test]"),
                        Block::Empty,
                    ),
                ]))),
            },
        ]),
    };
    assert_eq!(out, expected);
}

/// An already-empty file reduces to itself.
#[test]
fn empty_input_stays_empty() {
    let oracle = PredOracle(Box::new(|_| true));
    let out = reduce(&oracle, SourceFile { decls: DeclList::Nil }, empty_store()).unwrap();
    assert_eq!(out, SourceFile { decls: DeclList::Nil });
}
