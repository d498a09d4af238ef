use chunk_merge::hygiene::{Span, SyntaxContext};
use chunk_merge::pattern::find_ids;
use chunk_merge::run::Run;
use chunk_merge::syntax::{Expr, Id, Ident, Pat, Word};
use swc_common::DUMMY_SP;

fn ident(sym: u32) -> Ident {
    Ident::new(Word(sym), Span::dummy())
}

fn id(sym: u32) -> Id {
    Id {
        sym: Word(sym),
        ctxt: SyntaxContext::Empty,
    }
}

fn swc_ident(sym: &str) -> swc_ecma_ast::Ident {
    swc_ecma_ast::Ident::new(sym.into(), DUMMY_SP)
}

fn swc_pat(sym: &str) -> swc_ecma_ast::Pat {
    swc_ecma_ast::Pat::Ident(swc_ident(sym))
}

#[test]
fn identifiers_are_found_in_order() {
    let pats = Run::from_vec(vec![
        Pat::Ident(ident(1)),
        Pat::Other {
            origin: 0,
            parts: Run::from_vec(vec![Pat::Ident(ident(3)), Pat::Ident(ident(2))]),
        },
    ]);
    assert_eq!(find_ids(&pats), vec![id(1), id(3), id(2)]);
}

#[test]
fn context_belongs_to_the_name() {
    let marked = ident(1).with_ctxt(SyntaxContext::Marked(4));
    assert_eq!(
        find_ids(&Run::one(Pat::Ident(marked))),
        vec![Id {
            sym: Word(1),
            ctxt: SyntaxContext::Marked(4)
        }]
    );
}

#[test]
fn values_keys_and_types_bind_nothing() {
    let pats = Run::from_vec(vec![
        Pat::Expr(Expr::Ident(ident(1))),
        Pat::PropName(Run::one(Pat::Ident(ident(2)))),
        Pat::Type(Run::one(Pat::Ident(ident(3)))),
    ]);
    assert_eq!(find_ids(&pats), Vec::new());
}

/// `{ key: a, b = c, ...d }`, `[e, , f]`
#[test]
fn names_are_those_of_the_destructuring_finder() {
    let words = ["key", "a", "b", "c", "d", "e", "f"];
    let object = swc_ecma_ast::Pat::Object(swc_ecma_ast::ObjectPat {
        span: DUMMY_SP,
        props: vec![
            swc_ecma_ast::ObjectPatProp::KeyValue(swc_ecma_ast::KeyValuePatProp {
                key: swc_ecma_ast::PropName::Ident(swc_ident("key")),
                value: Box::new(swc_pat("a")),
            }),
            swc_ecma_ast::ObjectPatProp::Assign(swc_ecma_ast::AssignPatProp {
                span: DUMMY_SP,
                key: swc_ident("b"),
                value: Some(Box::new(swc_ecma_ast::Expr::Ident(swc_ident("c")))),
            }),
            swc_ecma_ast::ObjectPatProp::Rest(swc_ecma_ast::RestPat {
                span: DUMMY_SP,
                dot3_token: DUMMY_SP,
                arg: Box::new(swc_pat("d")),
                type_ann: None,
            }),
        ],
        optional: false,
        type_ann: None,
    });
    let array = swc_ecma_ast::Pat::Array(swc_ecma_ast::ArrayPat {
        span: DUMMY_SP,
        elems: vec![Some(swc_pat("e")), None, Some(swc_pat("f"))],
        optional: false,
        type_ann: None,
    });
    let found: Vec<(swc_atoms::JsWord, swc_common::SyntaxContext)> =
        swc_ecma_utils::find_ids(&vec![object, array]);
    let found: Vec<String> = found.iter().map(|v| v.0.to_string()).collect();

    let pats = Run::from_vec(vec![
        Pat::Other {
            origin: 0,
            parts: Run::from_vec(vec![
                Pat::PropName(Run::one(Pat::Ident(ident(0)))),
                Pat::Ident(ident(1)),
                Pat::Ident(ident(2)),
                Pat::Expr(Expr::Ident(ident(3))),
                Pat::Other {
                    origin: 0,
                    parts: Run::one(Pat::Ident(ident(4))),
                },
            ]),
        },
        Pat::Other {
            origin: 0,
            parts: Run::from_vec(vec![Pat::Ident(ident(5)), Pat::Ident(ident(6))]),
        },
    ]);
    let names: Vec<String> = find_ids(&pats)
        .iter()
        .map(|v| words[v.sym.0 as usize].to_string())
        .collect();
    assert_eq!(names, found);
}
