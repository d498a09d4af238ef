use chunk_merge::actual_marker::ActualMarker;
use chunk_merge::export_renamer::ExportRenamer;
use chunk_merge::hygiene::{Mark, Span, SyntaxContext};
use chunk_merge::run::Run;
use chunk_merge::specifier::Specifier;
use chunk_merge::syntax::{
    CatchClause, ClassDecl, ClassExpr, Constructor, Decl, DefaultDecl, ExportSpecifier, Expr,
    FnDecl, FnExpr, Function, Id, Ident, ImportDecl, LabeledStmt, MemberExpr, Module, ModuleDecl,
    ModuleItem, NamedExport, Node, Pat, SetterProp, Stmt, Str, Syntax, TsModule, VarDecl,
    VarDeclKind, VarDeclarator, Word,
};
use swc_common::Globals;

const MARK: u32 = 9;

fn id(sym: u32) -> Id {
    Id {
        sym: Word(sym),
        ctxt: SyntaxContext::Empty,
    }
}

fn at(lo: u32) -> Span {
    Span {
        lo,
        hi: lo + 1,
        ctxt: SyntaxContext::Empty,
    }
}

fn ident(sym: u32) -> Ident {
    Ident::new(Word(sym), at(40))
}

/// A name of the importer in the dependency, from nowhere in the source.
fn renamed(sym: u32) -> Ident {
    Ident::new(
        Word(sym),
        Span::dummy().with_ctxt(SyntaxContext::Marked(MARK)),
    )
}

fn syntax(origin: u64) -> Syntax {
    Syntax {
        origin,
        parts: Run::Empty,
    }
}

/// `import { foreign as local }`
fn aliased(foreign: u32, local: u32) -> Specifier {
    Specifier::Specific {
        local: id(local),
        alias: Some(id(foreign)),
    }
}

/// `import { local }`
fn plain(local: u32) -> Specifier {
    Specifier::Specific {
        local: id(local),
        alias: None,
    }
}

fn with_renamer<T>(imports: &[Specifier], f: impl FnOnce(&ExportRenamer<'_>) -> T) -> T {
    let globals = Globals::new();
    let renamer = ExportRenamer {
        globals: &globals,
        mark: Mark::from_u32(MARK).unwrap(),
        imports,
    };
    f(&renamer)
}

fn rename(imports: &[Specifier], items: Vec<ModuleItem>) -> Vec<ModuleItem> {
    with_renamer(imports, |r| {
        r.fold_module_items(Run::from_vec(items)).into_vec()
    })
}

fn export(decl: Decl) -> ModuleItem {
    ModuleItem::ModuleDecl(ModuleDecl::ExportDecl {
        span: at(3),
        decl,
    })
}

fn var(span: Span, kind: VarDeclKind, decls: Vec<VarDeclarator>) -> Decl {
    Decl::Var(VarDecl {
        span,
        kind,
        declare: false,
        decls: Run::from_vec(decls),
    })
}

fn declarator(span: Span, name: Pat, init: Option<Expr>) -> VarDeclarator {
    VarDeclarator {
        span,
        name,
        init,
        definite: false,
    }
}

fn named(specifiers: Vec<ExportSpecifier>, src: Option<Str>) -> ModuleItem {
    ModuleItem::ModuleDecl(ModuleDecl::ExportNamed(NamedExport {
        span: at(7),
        specifiers: Run::from_vec(specifiers),
        src,
        type_only: false,
    }))
}

#[test]
fn aliased_import_finds_the_local_name() {
    let imports = [
        Specifier::Namespace { local: id(1) },
        aliased(2, 3),
        plain(4),
        aliased(2, 5),
    ];
    with_renamer(&imports, |r| {
        assert_eq!(r.aliased_import(&Word(2)), Some(id(3)));
        assert_eq!(r.aliased_import(&Word(4)), Some(id(4)));
        // The name of a namespace, and the local side of an alias, are not names
        // that the other module exports.
        assert_eq!(r.aliased_import(&Word(1)), None);
        assert_eq!(r.aliased_import(&Word(3)), None);
        assert_eq!(r.aliased_import(&Word(6)), None);
    });
}

#[test]
fn aliased_import_without_imports_finds_nothing() {
    with_renamer(&[], |r| {
        assert_eq!(r.aliased_import(&Word::default_word()), None);
    });
}

#[test]
fn aliased_import_goes_by_the_word_alone() {
    let local = Id {
        sym: Word(3),
        ctxt: SyntaxContext::Nested(8),
    };
    let imports = [Specifier::Specific { local, alias: None }];
    with_renamer(&imports, |r| {
        assert_eq!(r.aliased_import(&Word(3)), Some(local));
    });
}

#[test]
fn default_expression_is_bound_if_taken() {
    let item = || {
        ModuleItem::ModuleDecl(ModuleDecl::ExportDefaultExpr {
            span: at(3),
            expr: Expr::Other(syntax(5)),
        })
    };
    assert_eq!(
        rename(&[aliased(0, 2)], vec![item()]),
        vec![ModuleItem::Stmt(Stmt::Decl(var(
            at(3),
            VarDeclKind::Const,
            vec![declarator(
                Span::dummy(),
                Pat::Ident(renamed(2)),
                Some(Expr::Other(syntax(5)))
            )]
        )))]
    );
    assert_eq!(
        rename(&[aliased(1, 2)], vec![item()]),
        vec![ModuleItem::Stmt(Stmt::Expr {
            span: at(3),
            expr: Expr::Other(syntax(5)),
        })]
    );
}

#[test]
fn taken_specifiers_are_bound_after_the_export() {
    let specifiers = || {
        vec![
            ExportSpecifier::Named {
                span: at(10),
                orig: ident(1),
                exported: None,
            },
            ExportSpecifier::Named {
                span: at(11),
                orig: ident(2),
                exported: Some(ident(3)),
            },
            ExportSpecifier::Named {
                span: at(12),
                orig: ident(4),
                exported: None,
            },
        ]
    };
    let empty = || ModuleItem::Stmt(Stmt::Empty { span: at(7) });
    let mut items = rename(&[plain(1), aliased(3, 5)], vec![named(specifiers(), None)]);
    assert_eq!(items.len(), 2);
    let decl = match items.pop() {
        Some(ModuleItem::Stmt(Stmt::Decl(Decl::Var(decl)))) => decl,
        other => panic!("no declaration: {:?}", other),
    };
    assert_eq!(items.pop(), Some(empty()));
    assert_eq!(decl.span, at(7));
    assert_eq!(decl.kind, VarDeclKind::Const);
    assert!(!decl.declare);
    assert_eq!(
        decl.decls.into_vec(),
        vec![
            declarator(at(10), Pat::Ident(renamed(1)), Some(Expr::Ident(ident(1)))),
            declarator(at(11), Pat::Ident(renamed(5)), Some(Expr::Ident(ident(2)))),
        ]
    );
    // What is exported under another name is not exported under its own.
    assert_eq!(rename(&[plain(2)], vec![named(specifiers(), None)]), vec![empty()]);
}

#[test]
fn namespace_and_default_specifiers_are_bound() {
    let bound = with_renamer(&[plain(6), aliased(0, 8)], |r| {
        r.bind_specifiers(Run::from_vec(vec![
            ExportSpecifier::Namespace {
                span: at(1),
                name: ident(6),
            },
            ExportSpecifier::Default {
                exported: ident(7),
            },
        ]))
        .into_vec()
    });
    assert_eq!(
        bound,
        vec![
            declarator(at(1), Pat::Ident(renamed(6)), Some(Expr::Ident(ident(6)))),
            declarator(
                at(40),
                Pat::Ident(renamed(8)),
                Some(Expr::Ident(Ident::new(Word(0), at(40))))
            ),
        ]
    );
}

#[test]
fn export_from_another_module_stays() {
    let item = || {
        named(
            vec![ExportSpecifier::Named {
                span: at(10),
                orig: ident(1),
                exported: None,
            }],
            Some(Str {
                span: at(20),
                value: Word(30),
                has_escape: false,
            }),
        )
    };
    assert_eq!(rename(&[plain(1)], vec![item()]), vec![item()]);
}

#[test]
fn exported_class_and_function_are_renamed_in_place() {
    let class = |ident| {
        Decl::Class(ClassDecl {
            ident,
            declare: false,
            class: syntax(5),
        })
    };
    let function = |ident| {
        Decl::Fn(FnDecl {
            ident,
            declare: true,
            function: Function {
                origin: 6,
                params: Run::Empty,
                body: Run::Empty,
            },
        })
    };
    // The place in the source is kept where the importer has another name.
    let in_place = Ident::new(Word(2), at(40).with_ctxt(SyntaxContext::Marked(MARK)));
    assert_eq!(
        rename(
            &[aliased(1, 2), plain(3)],
            vec![export(class(ident(1))), export(function(ident(3)))]
        ),
        vec![
            ModuleItem::Stmt(Stmt::Decl(class(in_place))),
            ModuleItem::Stmt(Stmt::Decl(function(renamed(3)))),
        ]
    );
    // What is not taken keeps its name, and is not exported any longer.
    assert_eq!(
        rename(&[], vec![export(class(ident(1)))]),
        vec![ModuleItem::Stmt(Stmt::Decl(class(ident(1))))]
    );
}

#[test]
fn exported_variables_are_renamed_and_stay_exported() {
    let decls = |a: Ident, b: Ident, key: Ident| {
        vec![
            declarator(at(1), Pat::Ident(a), Some(Expr::Ident(ident(1)))),
            declarator(
                at(2),
                Pat::Other {
                    origin: 4,
                    parts: Run::from_vec(vec![
                        Pat::PropName(Run::one(Pat::Ident(key))),
                        Pat::Ident(b),
                        Pat::Expr(Expr::Ident(ident(1))),
                    ]),
                },
                None,
            ),
        ]
    };
    assert_eq!(
        rename(
            &[plain(1)],
            vec![export(var(
                at(5),
                VarDeclKind::Let,
                decls(ident(1), ident(2), ident(1))
            ))]
        ),
        vec![export(var(
            at(5),
            VarDeclKind::Let,
            decls(renamed(1), ident(2), renamed(1))
        ))]
    );
}

#[test]
fn exported_types_stay_exported() {
    let items = || {
        vec![
            export(Decl::TsInterface(syntax(1))),
            export(Decl::TsTypeAlias(syntax(2))),
            export(Decl::TsEnum(syntax(3))),
        ]
    };
    assert_eq!(rename(&[plain(1)], items()), items());
}

#[test]
fn items_of_a_namespace_are_renamed() {
    let namespace = |body| {
        Decl::TsModule(TsModule {
            origin: 1,
            id: Run::Empty,
            body: Run::from_vec(body),
        })
    };
    let default = || {
        ModuleItem::ModuleDecl(ModuleDecl::ExportDefaultExpr {
            span: at(3),
            expr: Expr::Ident(ident(1)),
        })
    };
    let evaluated = || {
        ModuleItem::Stmt(Stmt::Expr {
            span: at(3),
            expr: Expr::Ident(ident(1)),
        })
    };
    assert_eq!(
        rename(
            &[],
            vec![
                export(namespace(vec![default()])),
                ModuleItem::Stmt(Stmt::Decl(namespace(vec![default()]))),
            ]
        ),
        vec![
            export(namespace(vec![evaluated()])),
            ModuleItem::Stmt(Stmt::Decl(namespace(vec![evaluated()]))),
        ]
    );
}

/// `namespace { export default a }`, or what becomes of it if nothing takes the
/// default export.
fn nested(renamed: bool) -> Run<Node> {
    let expr = Expr::Ident(ident(1));
    let item = if renamed {
        ModuleItem::Stmt(Stmt::Expr { span: at(3), expr })
    } else {
        ModuleItem::ModuleDecl(ModuleDecl::ExportDefaultExpr { span: at(3), expr })
    };
    Run::one(Node::TsModule(TsModule {
        origin: 1,
        id: Run::Empty,
        body: Run::one(item),
    }))
}

fn holding(parts: Run<Node>) -> Syntax {
    Syntax { origin: 2, parts }
}

fn function(params: Run<Pat>, body: Run<Node>) -> Function {
    Function {
        origin: 3,
        params,
        body,
    }
}

/// A default value in a pattern.
fn value(parts: Run<Node>) -> Run<Pat> {
    Run::one(Pat::Other {
        origin: 5,
        parts: Run::from_vec(vec![
            Pat::Ident(ident(8)),
            Pat::PropName(Run::one(Pat::Expr(Expr::Other(holding(parts))))),
        ]),
    })
}

fn annotated(parts: Run<Node>) -> Ident {
    Ident {
        type_ann: Some(Box::new(holding(parts))),
        ..ident(8)
    }
}

#[test]
fn namespace_in_a_statement_is_renamed() {
    // As in `if (a) { namespace N { .. } }` and in the body of an arrow function.
    let stmt = |renamed| {
        let block = Node::Parts(nested(renamed));
        ModuleItem::Stmt(Stmt::Other(holding(Run::one(block))))
    };
    let expr = |renamed| {
        ModuleItem::Stmt(Stmt::Expr {
            span: at(1),
            expr: Expr::Other(holding(nested(renamed))),
        })
    };
    assert_eq!(
        rename(&[plain(5)], vec![stmt(false), expr(false)]),
        vec![stmt(true), expr(true)]
    );
}

#[test]
fn nested_export_is_bound_where_it_stands() {
    let body = |items| {
        ModuleItem::Stmt(Stmt::Other(holding(Run::one(Node::TsModule(TsModule {
            origin: 1,
            id: Run::Empty,
            body: items,
        })))))
    };
    let export = || {
        named(
            vec![ExportSpecifier::Named {
                span: at(10),
                orig: ident(1),
                exported: None,
            }],
            None,
        )
    };
    assert_eq!(
        rename(&[plain(1)], vec![body(Run::one(export()))]),
        vec![body(
            Run::one(ModuleItem::Stmt(Stmt::Empty { span: at(7) })).join(Run::one(
                ModuleItem::Stmt(Stmt::Decl(var(
                    at(7),
                    VarDeclKind::Const,
                    vec![declarator(
                        at(10),
                        Pat::Ident(renamed(1)),
                        Some(Expr::Ident(ident(1)))
                    )]
                )))
            ))
        )]
    );
}

#[test]
fn every_node_but_classes_and_functions_is_entered() {
    let node = |node: Node| ModuleItem::Stmt(Stmt::Other(holding(Run::one(node))));
    let forms: Vec<fn(bool) -> Node> = vec![
        |r| Node::Ident(annotated(nested(r))),
        |r| {
            Node::CatchClause(CatchClause {
                param: value(nested(r)),
                body: nested(r),
            })
        },
        |r| {
            Node::ClassDecl(ClassDecl {
                ident: annotated(nested(r)),
                declare: false,
                class: holding(nested(false)),
            })
        },
        |r| {
            Node::ClassExpr(ClassExpr {
                ident: Some(annotated(nested(r))),
                class: holding(nested(false)),
            })
        },
        |_| {
            Node::Constructor(Constructor {
                params: value(nested(false)),
                body: nested(false),
            })
        },
        |r| {
            Node::FnDecl(FnDecl {
                ident: annotated(nested(r)),
                declare: false,
                function: function(value(nested(false)), nested(false)),
            })
        },
        |r| {
            Node::FnExpr(FnExpr {
                ident: Some(annotated(nested(r))),
                function: function(value(nested(false)), nested(false)),
            })
        },
        |_| Node::Function(function(value(nested(false)), nested(false))),
        |r| {
            Node::LabeledStmt(LabeledStmt {
                label: annotated(nested(r)),
                body: nested(r),
            })
        },
        |r| {
            Node::MemberExpr(MemberExpr {
                obj: nested(r),
                prop: nested(r),
                computed: false,
            })
        },
        |r| {
            Node::SetterProp(SetterProp {
                key: nested(r),
                param: value(nested(r)),
                body: nested(r),
            })
        },
    ];
    for form in forms {
        assert_eq!(rename(&[], vec![node(form(false))]), vec![node(form(true))]);
    }
}

#[test]
fn every_item_is_entered() {
    let decl = |decl| ModuleItem::ModuleDecl(decl);
    let src = || Str {
        span: at(20),
        value: Word(30),
        has_escape: false,
    };
    let items = |r: bool| {
        vec![
            decl(ModuleDecl::Import(ImportDecl {
                origin: 6,
                span: at(1),
                specifiers: Run::one(Node::Ident(annotated(nested(r)))),
                src: src(),
                type_only: false,
            })),
            named(
                vec![
                    ExportSpecifier::Named {
                        span: at(10),
                        orig: annotated(nested(r)),
                        exported: Some(annotated(nested(r))),
                    },
                    ExportSpecifier::Namespace {
                        span: at(11),
                        name: annotated(nested(r)),
                    },
                    ExportSpecifier::Default {
                        exported: annotated(nested(r)),
                    },
                ],
                Some(src()),
            ),
            decl(ModuleDecl::ExportDefaultDecl {
                span: at(1),
                decl: DefaultDecl::Fn(FnExpr {
                    ident: Some(annotated(nested(r))),
                    function: function(Run::Empty, nested(false)),
                }),
            }),
            decl(ModuleDecl::ExportDefaultDecl {
                span: at(1),
                decl: DefaultDecl::Class(ClassExpr {
                    ident: None,
                    class: holding(nested(false)),
                }),
            }),
            decl(ModuleDecl::ExportDefaultDecl {
                span: at(1),
                decl: DefaultDecl::TsInterfaceDecl(holding(nested(r))),
            }),
            decl(ModuleDecl::ExportAll {
                span: at(1),
                src: src(),
            }),
            decl(ModuleDecl::TsImportEquals(holding(nested(r)))),
            decl(ModuleDecl::TsExportAssignment(holding(nested(r)))),
            decl(ModuleDecl::TsNamespaceExport(holding(nested(r)))),
            export(Decl::TsEnum(holding(nested(r)))),
            export(var(
                at(1),
                VarDeclKind::Let,
                vec![declarator(
                    at(2),
                    Pat::Ident(annotated(nested(r))),
                    Some(Expr::Other(holding(nested(r)))),
                )],
            )),
        ]
    };
    assert_eq!(rename(&[plain(1)], items(false)), items(true));
}

#[test]
fn renaming_leaves_plain_items_alone() {
    let items = || {
        vec![
            ModuleItem::Stmt(Stmt::Decl(var(
                at(1),
                VarDeclKind::Var,
                vec![declarator(at(2), Pat::Ident(ident(1)), None)],
            ))),
            ModuleItem::ModuleDecl(ModuleDecl::ExportDefaultDecl {
                span: at(1),
                decl: DefaultDecl::Fn(FnExpr {
                    ident: Some(ident(1)),
                    function: function(Run::Empty, nested(false)),
                }),
            }),
            ModuleItem::ModuleDecl(ModuleDecl::ExportAll {
                span: at(1),
                src: Str {
                    span: at(20),
                    value: Word(30),
                    has_escape: false,
                },
            }),
        ]
    };
    assert_eq!(rename(&[plain(1), aliased(0, 2)], items()), items());
}

#[test]
fn renaming_again_changes_nothing_but_variables() {
    // The importer takes `1` as `2`, and `2` as `3`.
    let imports = [aliased(1, 2), aliased(2, 3), aliased(0, 4)];
    let items = || {
        vec![
            export(Decl::Class(ClassDecl {
                ident: ident(1),
                declare: false,
                class: syntax(5),
            })),
            named(
                vec![ExportSpecifier::Named {
                    span: at(10),
                    orig: ident(1),
                    exported: None,
                }],
                None,
            ),
            ModuleItem::ModuleDecl(ModuleDecl::ExportDefaultExpr {
                span: at(3),
                expr: Expr::Other(holding(nested(false))),
            }),
            ModuleItem::Stmt(Stmt::Other(holding(nested(false)))),
        ]
    };
    let once = rename(&imports, items());
    assert_ne!(once, items());
    assert_eq!(rename(&imports, rename(&imports, items())), once);

    let variable = |ident| {
        export(var(
            at(5),
            VarDeclKind::Let,
            vec![declarator(at(1), Pat::Ident(ident), None)],
        ))
    };
    let marked = |sym| Ident::new(Word(sym), at(40).with_ctxt(SyntaxContext::Marked(MARK)));
    let once = rename(&imports, vec![variable(ident(1))]);
    assert_eq!(once, vec![variable(marked(2))]);
    assert_eq!(rename(&imports, once), vec![variable(marked(3))]);
}

#[test]
fn renamed_module_keeps_its_order() {
    let other = |n| ModuleItem::Stmt(Stmt::Other(syntax(n)));
    let module = Module {
        span: at(0),
        body: Run::from_vec(vec![
            other(1),
            named(
                vec![ExportSpecifier::Named {
                    span: at(10),
                    orig: ident(1),
                    exported: None,
                }],
                None,
            ),
            other(2),
        ]),
        shebang: None,
    };
    let body = with_renamer(&[plain(1)], |r| r.fold_module(module)).body.into_vec();
    assert_eq!(body.len(), 4);
    assert_eq!(body[0], other(1));
    assert_eq!(body[1], ModuleItem::Stmt(Stmt::Empty { span: at(7) }));
    assert_eq!(
        body[2],
        ModuleItem::Stmt(Stmt::Decl(var(
            at(7),
            VarDeclKind::Const,
            vec![declarator(
                at(10),
                Pat::Ident(renamed(1)),
                Some(Expr::Ident(ident(1)))
            )]
        )))
    );
    assert_eq!(body[3], other(2));
}

#[test]
fn actual_marker_drops_the_annotation_of_what_it_renames() {
    let globals = Globals::new();
    let imports = [plain(1)];
    let marker = ActualMarker {
        globals: &globals,
        mark: Mark::from_u32(MARK).unwrap(),
        imports: &imports,
    };
    let annotated = |sym| Ident {
        type_ann: Some(Box::new(syntax(3))),
        optional: true,
        ..ident(sym)
    };
    assert_eq!(marker.fold_ident(annotated(1)), renamed(1));
    assert_eq!(marker.fold_ident(annotated(2)), annotated(2));
    assert_eq!(
        marker.fold_pat(Pat::Type(Run::one(Pat::Ident(ident(1))))),
        Pat::Type(Run::one(Pat::Ident(renamed(1))))
    );
}
