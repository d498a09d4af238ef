use chunk_merge::hygiene::Span;
use chunk_merge::run::Run;
use chunk_merge::syntax::{
    ClassDecl, ClassExpr, Decl, DefaultDecl, Expr, FnDecl, FnExpr, Function, Ident, ImportDecl,
    Module, ModuleDecl, ModuleItem, NamedExport, Pat, Stmt, Str, Syntax, VarDecl, VarDeclKind,
    VarDeclarator, Word,
};
use chunk_merge::unexporter::{supports, Unexporter};

fn ident(sym: u32) -> Ident {
    Ident::new(Word(sym), Span::dummy())
}

fn path(sym: u32) -> Str {
    Str {
        span: Span::dummy(),
        value: Word(sym),
        has_escape: false,
    }
}

fn syntax(origin: u64) -> Syntax {
    Syntax {
        origin,
        parts: Run::Empty,
    }
}

fn function(origin: u64) -> Function {
    Function {
        origin,
        params: Run::Empty,
        body: Run::Empty,
    }
}

/// `var a = <origin>`
fn var(sym: u32, origin: u64) -> Decl {
    Decl::Var(VarDecl {
        span: Span::dummy(),
        kind: VarDeclKind::Var,
        declare: false,
        decls: Run::one(VarDeclarator {
            span: Span::dummy(),
            name: Pat::Ident(ident(sym)),
            init: Some(Expr::Other(syntax(origin))),
            definite: false,
        }),
    })
}

fn export(decl: Decl) -> ModuleItem {
    ModuleItem::ModuleDecl(ModuleDecl::ExportDecl {
        span: Span::dummy(),
        decl,
    })
}

fn export_default(decl: DefaultDecl) -> ModuleItem {
    ModuleItem::ModuleDecl(ModuleDecl::ExportDefaultDecl {
        span: Span::dummy(),
        decl,
    })
}

fn declared(decl: Decl) -> ModuleItem {
    ModuleItem::Stmt(Stmt::Decl(decl))
}

fn nothing() -> ModuleItem {
    ModuleItem::Stmt(Stmt::Empty {
        span: Span::dummy(),
    })
}

/// `export var a = 1` => `var a = 1`
#[test]
fn exported_variable_becomes_plain() {
    assert_eq!(
        Unexporter.fold_module_item(export(var(1, 5))),
        declared(var(1, 5))
    );
}

#[test]
fn named_default_declarations_stay() {
    assert_eq!(
        Unexporter.fold_module_item(export_default(DefaultDecl::Class(ClassExpr {
            ident: Some(ident(1)),
            class: syntax(5),
        }))),
        declared(Decl::Class(ClassDecl {
            ident: ident(1),
            declare: false,
            class: syntax(5),
        }))
    );
    assert_eq!(
        Unexporter.fold_module_item(export_default(DefaultDecl::Fn(FnExpr {
            ident: Some(ident(1)),
            function: function(6),
        }))),
        declared(Decl::Fn(FnDecl {
            ident: ident(1),
            declare: false,
            function: function(6),
        }))
    );
    assert_eq!(
        Unexporter.fold_module_item(export_default(DefaultDecl::TsInterfaceDecl(syntax(7)))),
        declared(Decl::TsInterface(syntax(7)))
    );
}

#[test]
fn nameless_default_declarations_go() {
    assert_eq!(
        Unexporter.fold_module_item(export_default(DefaultDecl::Class(ClassExpr {
            ident: None,
            class: syntax(5),
        }))),
        nothing()
    );
    assert_eq!(
        Unexporter.fold_module_item(export_default(DefaultDecl::Fn(FnExpr {
            ident: None,
            function: function(6),
        }))),
        nothing()
    );
}

#[test]
fn other_exports_leave_an_empty_statement() {
    let span = Span {
        lo: 1,
        hi: 2,
        ..Span::dummy()
    };
    let exports = vec![
        ModuleDecl::ExportAll { span, src: path(3) },
        ModuleDecl::ExportDefaultExpr {
            span,
            expr: Expr::Ident(ident(1)),
        },
        ModuleDecl::ExportNamed(NamedExport {
            span,
            specifiers: Run::Empty,
            src: None,
            type_only: false,
        }),
    ];
    for decl in exports {
        assert_eq!(
            Unexporter.fold_module_item(ModuleItem::ModuleDecl(decl)),
            nothing()
        );
    }
}

#[test]
fn imports_and_statements_stay() {
    let import = || {
        ModuleItem::ModuleDecl(ModuleDecl::Import(ImportDecl {
            origin: 0,
            span: Span::dummy(),
            specifiers: Run::Empty,
            src: path(3),
            type_only: false,
        }))
    };
    assert_eq!(Unexporter.fold_module_item(import()), import());
    let stmt = || ModuleItem::Stmt(Stmt::Other(syntax(2)));
    assert_eq!(Unexporter.fold_module_item(stmt()), stmt());
}

#[test]
fn typescript_module_forms_are_not_supported() {
    for decl in vec![
        ModuleDecl::TsImportEquals(syntax(1)),
        ModuleDecl::TsExportAssignment(syntax(1)),
        ModuleDecl::TsNamespaceExport(syntax(1)),
    ] {
        let items = Run::from_vec(vec![export(var(1, 5)), ModuleItem::ModuleDecl(decl)]);
        assert!(!supports(&items));
    }
    assert!(supports(&Run::from_vec(vec![export(var(1, 5)), nothing()])));
    assert!(supports(&Run::Empty));
}

#[test]
fn stripping_twice_is_stripping_once() {
    let module = || Module {
        span: Span::dummy(),
        body: Run::from_vec(vec![
            export(var(1, 5)),
            nothing(),
            export_default(DefaultDecl::Fn(FnExpr {
                ident: Some(ident(2)),
                function: function(6),
            })),
        ]),
        shebang: Some(Word(9)),
    };
    let once = Unexporter.fold_module(module());
    assert_eq!(once.shebang, Some(Word(9)));
    let twice = Unexporter.fold_module(Unexporter.fold_module(module()));
    assert_eq!(once, twice);
    assert_eq!(
        twice.body.into_vec(),
        vec![
            declared(var(1, 5)),
            nothing(),
            declared(Decl::Fn(FnDecl {
                ident: ident(2),
                declare: false,
                function: function(6),
            })),
        ]
    );
}
