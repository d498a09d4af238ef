use chunk_merge::actual_marker::ActualMarker;
use chunk_merge::hygiene::{Mark, Span, SyntaxContext};
use chunk_merge::local_marker::LocalMarker;
use chunk_merge::run::Run;
use chunk_merge::specifier::Specifier;
use chunk_merge::syntax::{
    CatchClause, ClassDecl, ClassExpr, Constructor, Decl, ExportSpecifier, Expr, FnDecl, FnExpr,
    Function, Id, Ident, ImportDecl, LabeledStmt, MemberExpr, Module, ModuleDecl, ModuleItem,
    NamedExport, Node, Pat, SetterProp, Stmt, Str, Syntax, TsModule, VarDecl, VarDeclKind,
    VarDeclarator, Word,
};
use swc_common::Globals;

const MARK: u32 = 5;

fn id(sym: u32) -> Id {
    Id {
        sym: Word(sym),
        ctxt: SyntaxContext::Empty,
    }
}

fn ident(sym: u32) -> Ident {
    Ident::new(
        Word(sym),
        Span {
            lo: 20,
            hi: 21,
            ctxt: SyntaxContext::Empty,
        },
    )
}

fn marked(sym: u32) -> Ident {
    ident(sym).with_ctxt(SyntaxContext::Marked(MARK))
}

fn name(ident: Ident) -> Run<Node> {
    Run::one(Node::Ident(ident))
}

fn syntax(parts: Run<Node>) -> Syntax {
    Syntax { origin: 1, parts }
}

fn function(params: Run<Pat>, body: Run<Node>) -> Function {
    Function {
        origin: 2,
        params,
        body,
    }
}

fn plain(local: u32) -> Specifier {
    Specifier::Specific {
        local: id(local),
        alias: None,
    }
}

fn with_marker<T>(
    specifiers: &[Specifier],
    is_export: bool,
    f: impl FnOnce(&mut LocalMarker<'_>) -> T,
) -> T {
    let globals = Globals::new();
    let mut marker = LocalMarker {
        globals: &globals,
        mark: Mark::from_u32(MARK).unwrap(),
        specifiers,
        is_export,
        excluded: Vec::new(),
    };
    f(&mut marker)
}

/// Marks nodes for `import { 1 }`, and tells which names are excluded after.
fn mark(nodes: Run<Node>) -> (Vec<Node>, Vec<Id>) {
    with_marker(&[plain(1)], false, |m| {
        let nodes = m.fold_nodes(nodes).into_vec();
        (nodes, m.excluded.clone())
    })
}

#[test]
fn imported_name_is_marked() {
    let (nodes, excluded) = mark(Run::from_vec(vec![
        Node::Ident(ident(1)),
        Node::Ident(ident(2)),
    ]));
    assert_eq!(nodes, vec![Node::Ident(marked(1)), Node::Ident(ident(2))]);
    assert_eq!(excluded, Vec::new());
}

#[test]
fn name_under_another_context_is_another_name() {
    let other = || ident(1).with_ctxt(SyntaxContext::Nested(1));
    assert_eq!(mark(name(other())).0, vec![Node::Ident(other())]);
}

#[test]
fn marking_keeps_place_and_annotation() {
    // An identifier in the annotation is not looked at.
    let annotated = |ident: Ident| Ident {
        type_ann: Some(Box::new(syntax(name(self::ident(1))))),
        optional: true,
        ..ident
    };
    assert_eq!(
        mark(name(annotated(ident(1)))).0,
        vec![Node::Ident(annotated(marked(1)))]
    );
}

#[test]
fn importer_side_goes_by_the_local_name() {
    let specifiers = [
        Specifier::Specific {
            local: id(1),
            alias: Some(id(2)),
        },
        Specifier::Namespace { local: id(3) },
    ];
    let fold = |is_export, sym| with_marker(&specifiers, is_export, |m| m.fold_ident(ident(sym)));
    assert_eq!(fold(false, 1), marked(1));
    assert_eq!(fold(false, 2), ident(2));
    assert_eq!(fold(false, 3), marked(3));
    assert_eq!(fold(true, 1), ident(1));
    assert_eq!(fold(true, 2), marked(2));
    assert_eq!(fold(true, 3), marked(3));
}

#[test]
fn excluded_name_is_not_marked() {
    with_marker(&[plain(1)], false, |m| {
        m.excluded = vec![id(1)];
        assert_eq!(m.fold_ident(ident(1)), ident(1));
    });
}

#[test]
fn parameters_shadow_in_the_body_and_after() {
    let params = || Run::one(Pat::Ident(ident(1)));
    let (nodes, excluded) = mark(Run::from_vec(vec![
        Node::Ident(ident(1)),
        Node::Function(function(params(), name(ident(1)))),
        Node::Ident(ident(1)),
    ]));
    assert_eq!(
        nodes,
        vec![
            Node::Ident(marked(1)),
            Node::Function(function(params(), name(ident(1)))),
            Node::Ident(ident(1)),
        ]
    );
    assert_eq!(excluded, vec![id(1)]);
}

#[test]
fn shadowing_forms_keep_what_they_bind() {
    let one = || Run::one(Pat::Ident(ident(1)));
    let forms: Vec<fn() -> Node> = vec![
        || {
            Node::CatchClause(CatchClause {
                param: Run::one(Pat::Ident(ident(1))),
                body: name(ident(1)),
            })
        },
        || {
            Node::Constructor(Constructor {
                params: Run::one(Pat::Ident(ident(1))),
                body: name(ident(1)),
            })
        },
        || {
            Node::SetterProp(SetterProp {
                key: name(ident(1)),
                param: Run::one(Pat::Ident(ident(1))),
                body: name(ident(1)),
            })
        },
        || {
            Node::ClassDecl(ClassDecl {
                ident: ident(1),
                declare: false,
                class: syntax(name(ident(1))),
            })
        },
        || {
            Node::ClassExpr(ClassExpr {
                ident: Some(ident(1)),
                class: syntax(name(ident(1))),
            })
        },
        || {
            Node::FnDecl(FnDecl {
                ident: ident(1),
                declare: false,
                function: function(Run::Empty, name(ident(1))),
            })
        },
        || {
            Node::FnExpr(FnExpr {
                ident: Some(ident(1)),
                function: function(Run::Empty, name(ident(1))),
            })
        },
    ];
    for form in forms {
        let (nodes, excluded) = mark(Run::one(form()));
        assert_eq!(nodes, vec![form()]);
        assert_eq!(excluded, vec![id(1)]);
    }
    // Names of the parameters stay even where nothing is bound.
    let (nodes, _) = mark(Run::one(Node::Function(function(one(), Run::Empty))));
    assert_eq!(nodes, vec![Node::Function(function(one(), Run::Empty))]);
}

#[test]
fn nameless_functions_and_classes_are_marked_inside() {
    let (nodes, excluded) = mark(Run::from_vec(vec![
        Node::FnExpr(FnExpr {
            ident: None,
            function: function(Run::Empty, name(ident(1))),
        }),
        Node::ClassExpr(ClassExpr {
            ident: None,
            class: syntax(name(ident(1))),
        }),
    ]));
    assert_eq!(
        nodes,
        vec![
            Node::FnExpr(FnExpr {
                ident: None,
                function: function(Run::Empty, name(marked(1))),
            }),
            Node::ClassExpr(ClassExpr {
                ident: None,
                class: syntax(name(marked(1))),
            }),
        ]
    );
    assert_eq!(excluded, Vec::new());
}

#[test]
fn label_and_plain_property_stay() {
    let (nodes, _) = mark(Run::from_vec(vec![
        Node::LabeledStmt(LabeledStmt {
            label: ident(1),
            body: name(ident(1)),
        }),
        Node::MemberExpr(MemberExpr {
            obj: name(ident(1)),
            prop: name(ident(1)),
            computed: false,
        }),
        Node::MemberExpr(MemberExpr {
            obj: name(ident(1)),
            prop: name(ident(1)),
            computed: true,
        }),
        Node::Parts(name(ident(1))),
    ]));
    assert_eq!(
        nodes,
        vec![
            Node::LabeledStmt(LabeledStmt {
                label: ident(1),
                body: name(marked(1)),
            }),
            Node::MemberExpr(MemberExpr {
                obj: name(marked(1)),
                prop: name(ident(1)),
                computed: false,
            }),
            Node::MemberExpr(MemberExpr {
                obj: name(marked(1)),
                prop: name(marked(1)),
                computed: true,
            }),
            Node::Parts(name(marked(1))),
        ]
    );
}

#[test]
fn nested_namespace_is_marked_name_first() {
    let namespace = |one: fn(u32) -> Ident| {
        Node::TsModule(TsModule {
            origin: 4,
            id: name(one(1)),
            body: Run::from_vec(vec![
                item(Stmt::Expr {
                    span: Span::dummy(),
                    expr: Expr::Ident(one(1)),
                }),
                item(Stmt::Decl(Decl::Fn(FnDecl {
                    ident: ident(2),
                    declare: false,
                    function: function(Run::one(Pat::Ident(ident(1))), name(ident(1))),
                }))),
            ]),
        })
    };
    let (nodes, excluded) = mark(Run::from_vec(vec![
        Node::Parts(Run::one(namespace(ident))),
        Node::Ident(ident(1)),
    ]));
    assert_eq!(
        nodes,
        vec![
            Node::Parts(Run::one(namespace(marked))),
            Node::Ident(ident(1)),
        ]
    );
    assert_eq!(excluded, vec![id(2), id(1)]);
}

#[test]
fn recurse_gives_the_names_back() {
    with_marker(&[plain(1), plain(2)], false, |m| {
        m.excluded = vec![id(7)];
        let body = Run::from_vec(vec![
            Node::Ident(ident(1)),
            Node::Ident(ident(2)),
            Node::FnDecl(FnDecl {
                ident: ident(2),
                declare: false,
                function: function(Run::Empty, Run::Empty),
            }),
            Node::Ident(ident(2)),
        ]);
        let nodes = m.recurse(Run::one(Pat::Ident(ident(1))), |pats, m| {
            assert_eq!(pats, Run::one(Pat::Ident(ident(1))));
            assert_eq!(m.excluded, vec![id(7), id(1)]);
            let nodes = m.fold_nodes(body);
            assert_eq!(m.excluded, vec![id(7), id(1), id(2)]);
            nodes.into_vec()
        });
        assert_eq!(nodes[0], Node::Ident(ident(1)));
        assert_eq!(nodes[1], Node::Ident(marked(2)));
        assert_eq!(nodes[3], Node::Ident(ident(2)));
        assert_eq!(m.excluded, vec![id(7)]);
        assert_eq!(m.fold_ident(ident(2)), marked(2));
    });
}

#[test]
fn recurse_serves_any_operation() {
    with_marker(&[plain(1)], false, |m| {
        m.excluded = vec![id(7), id(8)];
        let mut calls = 0;
        // What the operation does to the names that were there before stays.
        let answer = m.recurse(Run::Empty, |_, m| {
            calls += 1;
            m.excluded[1] = id(9);
            m.is_export = true;
            m.excluded.push(id(1));
            (m.fold_ident(ident(1)), 5)
        });
        assert_eq!(answer, (ident(1), 5));
        assert_eq!(calls, 1);
        assert_eq!(m.excluded, vec![id(7), id(9)]);
        assert!(m.is_export);
    });
}

#[test]
fn exclude_adds_what_a_pattern_binds() {
    with_marker(&[], false, |m| {
        m.exclude(&Run::from_vec(vec![
            Pat::Ident(ident(1)),
            Pat::Expr(Expr::Ident(ident(2))),
            Pat::Other {
                origin: 0,
                parts: Run::one(Pat::Ident(ident(3))),
            },
        ]));
        m.exclude_ident(&Some(ident(4)));
        m.exclude_ident(&None);
        assert_eq!(m.excluded, vec![id(1), id(3), id(4)]);
    });
}

fn item(stmt: Stmt) -> ModuleItem {
    ModuleItem::Stmt(stmt)
}

/// A module with an import, a variable, an export and a function.
fn module(one: fn(u32) -> Ident) -> Module {
    Module {
        span: Span::dummy(),
        body: Run::from_vec(vec![
            ModuleItem::ModuleDecl(ModuleDecl::Import(ImportDecl {
                origin: 3,
                span: Span::dummy(),
                specifiers: name(one(1)),
                src: Str {
                    span: Span::dummy(),
                    value: Word(30),
                    has_escape: false,
                },
                type_only: false,
            })),
            item(Stmt::Decl(Decl::Var(VarDecl {
                span: Span::dummy(),
                kind: VarDeclKind::Var,
                declare: false,
                decls: Run::one(VarDeclarator {
                    span: Span::dummy(),
                    name: Pat::Ident(ident(2)),
                    init: Some(Expr::Ident(one(1))),
                    definite: false,
                }),
            }))),
            ModuleItem::ModuleDecl(ModuleDecl::ExportNamed(NamedExport {
                span: Span::dummy(),
                specifiers: Run::one(ExportSpecifier::Named {
                    span: Span::dummy(),
                    orig: one(1),
                    exported: Some(one(1)),
                }),
                src: None,
                type_only: false,
            })),
            item(Stmt::Decl(Decl::Fn(FnDecl {
                ident: ident(2),
                declare: false,
                function: function(Run::one(Pat::Ident(ident(1))), name(ident(1))),
            }))),
            // A parameter of an earlier function hides the name here as well.
            item(Stmt::Expr {
                span: Span::dummy(),
                expr: Expr::Ident(ident(1)),
            }),
        ]),
        shebang: None,
    }
}

#[test]
fn module_is_marked_item_by_item() {
    let folded = with_marker(&[plain(1)], false, |m| m.fold_module(module(ident)));
    assert_eq!(folded, module(marked));
}

#[test]
fn marking_again_changes_nothing() {
    let once = with_marker(&[plain(1)], false, |m| m.fold_module(module(ident)));
    let twice = with_marker(&[plain(1)], false, |m| {
        let once = m.fold_module(module(ident));
        m.excluded = Vec::new();
        m.fold_module(once)
    });
    assert_eq!(once, twice);
}

#[test]
fn marked_module_shadows_what_it_shadowed() {
    let (folded, before) = with_marker(&[plain(1), plain(2)], false, |m| {
        let folded = m.fold_module(module(ident));
        (folded, m.excluded.clone())
    });
    let after = with_marker(&[], false, |m| {
        m.fold_module(folded);
        m.excluded.clone()
    });
    assert_eq!(before, vec![id(2), id(1)]);
    assert_eq!(after, before);
}

#[test]
fn marking_without_specifiers_changes_nothing() {
    let folded = with_marker(&[], false, |m| m.fold_module(module(ident)));
    assert_eq!(folded, module(ident));
}

#[test]
fn use_and_declaration_get_one_name() {
    let globals = Globals::new();
    let imports = [
        plain(7),
        Specifier::Specific {
            local: id(1),
            alias: Some(id(2)),
        },
    ];
    let used = with_marker(&imports, false, |m| m.fold_ident(ident(1)));
    let actual = ActualMarker {
        globals: &globals,
        mark: Mark::from_u32(MARK).unwrap(),
        imports: &imports,
    };
    let declared = actual.fold_ident(ident(2));
    assert_eq!(used.id(), declared.id());
    assert_eq!(
        used.id(),
        Id {
            sym: Word(1),
            ctxt: SyntaxContext::Marked(MARK)
        }
    );
    // With two names for one export, the second is not connected.
    let imports = [
        plain(2),
        Specifier::Specific {
            local: id(1),
            alias: Some(id(2)),
        },
    ];
    let used = with_marker(&imports, false, |m| m.fold_ident(ident(1)));
    let actual = ActualMarker {
        globals: &globals,
        mark: Mark::from_u32(MARK).unwrap(),
        imports: &imports,
    };
    assert_ne!(used.id(), actual.fold_ident(ident(2)).id());
}
