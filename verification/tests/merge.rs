use chunk_merge::hygiene::{Mark, Span, SyntaxContext};
use chunk_merge::merge::{Bundler, Fault, Frame, MergeError, Stack, StageError, Step};
use chunk_merge::run::Run;
use chunk_merge::scope::{Import, ModuleInfo, Scope};
use chunk_merge::specifier::{ModuleId, Source, Specifier};
use chunk_merge::syntax::{
    Decl, Expr, Id, Ident, ImportDecl, Module, ModuleDecl, ModuleItem, Node, Pat, Stmt, Str,
    Syntax, VarDecl, VarDeclKind, VarDeclarator, Word,
};
use swc_common::Globals;

fn id(sym: u32) -> Id {
    Id {
        sym: Word(sym),
        ctxt: SyntaxContext::Empty,
    }
}

fn ident(sym: u32) -> Ident {
    Ident::new(Word(sym), Span::dummy())
}

fn marked(sym: u32, module: u32) -> Ident {
    ident(sym).with_ctxt(SyntaxContext::Marked(module + 100))
}

/// The path of a module.
fn path(module: u32) -> Str {
    Str {
        span: Span::dummy(),
        value: Word(module + 1000),
        has_escape: false,
    }
}

fn module(items: Vec<ModuleItem>) -> Module {
    Module {
        span: Span::dummy(),
        body: Run::from_vec(items),
        shebang: None,
    }
}

/// `import { sym } from module`
fn import(module: u32, sym: Ident) -> ModuleItem {
    ModuleItem::ModuleDecl(ModuleDecl::Import(ImportDecl {
        origin: 0,
        span: Span::dummy(),
        specifiers: Run::one(Node::Ident(sym)),
        src: path(module),
        type_only: false,
    }))
}

/// `sym;`
fn usage(sym: Ident) -> ModuleItem {
    ModuleItem::Stmt(Stmt::Expr {
        span: Span::dummy(),
        expr: Expr::Ident(sym),
    })
}

/// `var sym;`
fn var(sym: Ident) -> Decl {
    Decl::Var(VarDecl {
        span: Span::dummy(),
        kind: VarDeclKind::Var,
        declare: false,
        decls: Run::one(VarDeclarator {
            span: Span::dummy(),
            name: Pat::Ident(sym),
            init: None,
            definite: false,
        }),
    })
}

fn declared(sym: Ident) -> ModuleItem {
    ModuleItem::Stmt(Stmt::Decl(var(sym)))
}

fn exported(sym: u32) -> ModuleItem {
    ModuleItem::ModuleDecl(ModuleDecl::ExportDecl {
        span: Span::dummy(),
        decl: var(ident(sym)),
    })
}

fn takes(module: u32, sym: u32) -> Import {
    Import {
        source: Source {
            module_id: ModuleId(module),
            src: path(module),
        },
        specifiers: vec![Specifier::Specific {
            local: id(sym),
            alias: None,
        }],
    }
}

fn info(id: u32, items: Vec<ModuleItem>, imports: Vec<Import>) -> ModuleInfo {
    ModuleInfo {
        id: ModuleId(id),
        module: module(items),
        imports,
        is_es6: true,
        mark: mark(id),
    }
}

fn mark(id: u32) -> Mark {
    Mark::from_u32(id + 100).unwrap()
}

fn targets(ids: &[u32]) -> Vec<ModuleId> {
    ids.iter().map(|n| ModuleId(*n)).collect()
}

fn bundler(globals: &Globals, require: bool, modules: Vec<ModuleInfo>) -> Bundler<'_> {
    Bundler {
        globals,
        scope: Scope {
            modules,
            circular: Vec::new(),
        },
        require,
    }
}

/// What the stages answer, in the order in which they are asked.
struct Stages {
    log: Vec<String>,
    fail: Option<&'static str>,
}

impl Stages {
    fn answer(
        &mut self,
        stage: &'static str,
        detail: String,
        m: Module,
    ) -> Result<Module, StageError> {
        self.log.push(format!("{} {}", stage, detail));
        if self.fail == Some(stage) {
            Err(StageError(77))
        } else {
            Ok(m)
        }
    }
}

/// Merges with stages that hand their module on as it is.
fn run(
    b: &Bundler<'_>,
    entry: u32,
    targets: &mut Vec<ModuleId>,
    fail: Option<&'static str>,
) -> (Result<Result<Module, MergeError>, Fault>, Vec<String>) {
    let mut stages = Stages {
        log: Vec::new(),
        fail,
    };
    let mut step = b.merge_modules(ModuleId(entry), true, targets);
    loop {
        assert!(b.can_resume(&step));
        step = match step {
            Step::Finished(result) => return (Ok(result), stages.log),
            Step::Aborted(fault) => return (Err(fault), stages.log),
            Step::MergeCircular { entry, stack } => {
                stages.log.push(format!("circular {}", entry.0));
                targets.clear();
                b.circular_merged(module(vec![]), stack)
            }
            Step::MergeReexports {
                entry,
                at,
                is_entry,
                stack,
            } => {
                let detail = format!("{}", b.scope.modules[at].id.0);
                let result = stages.answer("reexports", detail, entry);
                b.reexports_merged(result, at, is_entry, targets, stack)
            }
            Step::ExtendHelpers {
                imported,
                frame,
                stack,
            } => {
                stages.log.push(format!("helpers {}", imported.0));
                b.helpers_extended(frame, targets, stack)
            }
            Step::DropUnused { dep, frame, stack } => {
                stages.log.push(format!("unused {}", frame.next));
                b.unused_dropped(dep, frame, targets, stack)
            }
            Step::MergeCjs {
                dep: _,
                mark,
                frame,
                stack,
            } => {
                let Frame {
                    at,
                    is_entry,
                    next,
                    module: entry,
                } = frame;
                let result = stages.answer("cjs", format!("{}", mark.as_u32() - 100), entry);
                let frame = Frame {
                    at,
                    is_entry,
                    next,
                    module: module(vec![]),
                };
                b.cjs_merged(result, frame, targets, stack)
            }
            Step::MergeRemaining {
                dep: _,
                mark,
                frame,
                stack,
            } => {
                let Frame {
                    at,
                    is_entry,
                    next,
                    module: entry,
                } = frame;
                let result = stages.answer("remaining", format!("{}", mark.as_u32() - 100), entry);
                let frame = Frame {
                    at,
                    is_entry,
                    next,
                    module: module(vec![]),
                };
                b.remaining_merged(result, frame, targets, stack)
            }
        };
    }
}

fn body(result: Result<Result<Module, MergeError>, Fault>) -> Vec<ModuleItem> {
    result.unwrap().unwrap().body.into_vec()
}

/// `1` imports `2` of module 2, which imports `3` of module 3.
fn chain() -> Vec<ModuleInfo> {
    vec![
        info(
            1,
            vec![import(2, ident(2)), usage(ident(2))],
            vec![takes(2, 2)],
        ),
        info(
            2,
            vec![import(3, ident(3)), exported(2), usage(ident(3))],
            vec![takes(3, 3)],
        ),
        info(3, vec![exported(3)], vec![]),
    ]
}

#[test]
fn without_targets_the_module_is_unchanged() {
    let globals = Globals::new();
    let b = bundler(&globals, false, chain());
    let (result, log) = run(&b, 1, &mut targets(&[]), None);
    assert_eq!(body(result), vec![import(2, ident(2)), usage(ident(2))]);
    assert!(log.is_empty());
}

#[test]
fn missing_entry_is_a_fault() {
    let globals = Globals::new();
    let b = bundler(&globals, false, chain());
    let (result, _) = run(&b, 9, &mut targets(&[]), None);
    assert_eq!(result, Err(Fault::MissingModule(ModuleId(9))));
}

/// `a <- b`, `b <- c` becomes `a <- b + chunk(c)`.
#[test]
fn chain_is_merged_into_the_entry() {
    let globals = Globals::new();
    let b = bundler(&globals, false, chain());
    let mut left = targets(&[2, 3]);
    let (result, log) = run(&b, 1, &mut left, None);
    assert_eq!(
        body(result),
        vec![
            declared(marked(3, 3)),
            declared(marked(2, 2)),
            usage(marked(3, 3)),
            usage(marked(2, 2)),
        ]
    );
    assert!(left.is_empty());
    assert_eq!(
        log,
        vec![
            "reexports 1",
            "helpers 2",
            "reexports 2",
            "helpers 3",
            "unused 0",
            "unused 0",
        ]
    );
}

#[test]
fn circular_entry_is_left_to_the_circular_merge() {
    let globals = Globals::new();
    let mut b = bundler(&globals, false, chain());
    b.scope.circular = targets(&[1]);
    let (result, log) = run(&b, 1, &mut targets(&[2]), None);
    assert_eq!(body(result), Vec::new());
    assert_eq!(log, vec!["circular 1"]);
}

#[test]
fn circular_dependency_comes_back_to_the_importer() {
    let globals = Globals::new();
    let mut b = bundler(&globals, false, chain());
    b.scope.circular = targets(&[2]);
    let (result, log) = run(&b, 1, &mut targets(&[2, 3]), None);
    // The circular merge gave an empty module.
    assert_eq!(body(result), vec![usage(marked(2, 2))]);
    assert_eq!(log, vec!["reexports 1", "helpers 2", "circular 2", "unused 0"]);
}

#[test]
fn import_of_no_target_is_marked_and_dropped() {
    let globals = Globals::new();
    let b = bundler(&globals, false, chain());
    let mut left = targets(&[3]);
    let (result, log) = run(&b, 1, &mut left, None);
    assert_eq!(body(result), vec![usage(marked(2, 2))]);
    assert_eq!(left, targets(&[3]));
    assert_eq!(log, vec!["reexports 1"]);
}

#[test]
fn unknown_module_is_passed_over() {
    let globals = Globals::new();
    let modules = || {
        vec![info(
            1,
            vec![import(8, ident(2)), usage(ident(2))],
            vec![takes(8, 2)],
        )]
    };
    let b = bundler(&globals, false, modules());
    // As a target, its import stays.
    let (result, _) = run(&b, 1, &mut targets(&[8]), None);
    assert_eq!(body(result), vec![import(8, ident(2)), usage(ident(2))]);
    // Otherwise the import is dropped, and nothing is marked.
    let (result, _) = run(&b, 1, &mut targets(&[7]), None);
    assert_eq!(body(result), vec![usage(ident(2))]);
    // With `require`, the module has to be there.
    let b = bundler(&globals, true, modules());
    let (result, _) = run(&b, 1, &mut targets(&[7]), None);
    assert_eq!(result, Err(Fault::MissingModule(ModuleId(8))));
}

#[test]
fn namespace_import_of_a_target_is_a_fault() {
    let globals = Globals::new();
    let mut modules = chain();
    modules[0].imports[0].specifiers.push(Specifier::Namespace { local: id(5) });
    let b = bundler(&globals, false, modules);
    let (result, _) = run(&b, 1, &mut targets(&[2]), None);
    assert_eq!(
        result,
        Err(Fault::NamespaceImport {
            importer: ModuleId(1),
            imported: ModuleId(2),
        })
    );
}

#[test]
fn export_that_cannot_be_undone_is_a_fault() {
    let globals = Globals::new();
    let mut modules = chain();
    modules[2].module = module(vec![ModuleItem::ModuleDecl(ModuleDecl::TsExportAssignment(
        Syntax {
            origin: 0,
            parts: Run::Empty,
        },
    ))]);
    let b = bundler(&globals, false, modules);
    let (result, _) = run(&b, 1, &mut targets(&[2, 3]), None);
    assert_eq!(result, Err(Fault::UnsupportedExport(ModuleId(3))));
}

#[test]
fn commonjs_dependency_is_left_to_its_stage() {
    let globals = Globals::new();
    let mut modules = chain();
    modules[1].is_es6 = false;
    let b = bundler(&globals, true, modules);
    let (result, log) = run(&b, 1, &mut targets(&[2]), None);
    assert_eq!(body(result), vec![import(2, ident(2)), usage(ident(2))]);
    assert_eq!(log, vec!["reexports 1", "helpers 2", "cjs 2"]);

    let mut modules = chain();
    modules[1].is_es6 = false;
    let b = bundler(&globals, false, modules);
    let (result, log) = run(&b, 1, &mut targets(&[2]), None);
    assert_eq!(body(result), vec![import(2, ident(2)), usage(ident(2))]);
    assert_eq!(log, vec!["reexports 1", "helpers 2"]);
}

#[test]
fn module_without_import_statement_goes_to_the_commonjs_stage() {
    let globals = Globals::new();
    let mut modules = chain();
    modules[0].module = module(vec![usage(ident(2))]);
    let b = bundler(&globals, true, modules);
    let (result, log) = run(&b, 1, &mut targets(&[2]), None);
    assert_eq!(body(result), vec![usage(marked(2, 2))]);
    assert_eq!(
        log,
        vec!["reexports 1", "helpers 2", "unused 0", "cjs 2"]
    );
}

#[test]
fn merged_imports_are_checked_for_require() {
    let globals = Globals::new();
    let b = bundler(&globals, true, chain());
    let mut left = targets(&[3]);
    let (result, log) = run(&b, 1, &mut left, None);
    assert_eq!(body(result), vec![usage(marked(2, 2))]);
    assert_eq!(log, vec!["reexports 1", "cjs 2", "remaining 3"]);
    assert!(left.is_empty());
}

#[test]
fn remaining_targets_are_merged_in_order() {
    let globals = Globals::new();
    let mut modules = chain();
    modules[0].imports.clear();
    let b = bundler(&globals, true, modules);
    let mut left = targets(&[3, 2]);
    let (result, log) = run(&b, 1, &mut left, None);
    assert!(result.unwrap().is_ok());
    assert_eq!(log, vec!["reexports 1", "remaining 3", "remaining 2"]);
    assert!(left.is_empty());

    let mut left = targets(&[3, 2]);
    let (result, _) = run(&b, 1, &mut left, Some("remaining"));
    assert_eq!(result, Ok(Err(MergeError::Stage(StageError(77)))));
    assert!(left.is_empty());

    let (result, _) = run(&b, 1, &mut targets(&[6]), None);
    assert_eq!(result, Err(Fault::MissingModule(ModuleId(6))));
}

#[test]
fn dependency_takes_no_remaining_targets() {
    let globals = Globals::new();
    let b = bundler(&globals, true, chain());
    let step = b.merge_modules(ModuleId(3), false, &targets(&[2]));
    let (at, is_entry, entry, stack) = match step {
        Step::MergeReexports {
            at,
            is_entry,
            entry,
            stack,
        } => (at, is_entry, entry, stack),
        other => panic!("another step: {:?}", other),
    };
    assert_eq!((at, is_entry), (2, false));
    let mut left = targets(&[2]);
    let step = b.reexports_merged(Ok(entry), at, is_entry, &mut left, stack);
    assert_eq!(step, Step::Finished(Ok(module(vec![exported(3)]))));
    assert_eq!(left, targets(&[2]));
}

#[test]
fn failure_names_the_imports_it_came_through() {
    let globals = Globals::new();
    let b = bundler(&globals, false, chain());
    // The first re-export stage fails.
    let (result, _) = run(&b, 1, &mut targets(&[2, 3]), Some("reexports"));
    assert_eq!(result, Ok(Err(MergeError::Reexports(StageError(77)))));

    // The one of the dependency fails.
    let mut left = targets(&[2, 3]);
    let stack = Stack::Above(
        Box::new(Frame {
            at: 1,
            is_entry: false,
            next: 0,
            module: module(vec![]),
        }),
        Box::new(Stack::Above(
            Box::new(Frame {
                at: 0,
                is_entry: true,
                next: 0,
                module: module(vec![]),
            }),
            Box::new(Stack::Bottom),
        )),
    );
    let step = b.reexports_merged(Err(StageError(5)), 2, false, &mut left, stack);
    assert_eq!(
        step,
        Step::Finished(Err(MergeError::Dependency {
            importer: ModuleId(1),
            imported: ModuleId(2),
            path: path(2).value,
            cause: Box::new(MergeError::Dependency {
                importer: ModuleId(2),
                imported: ModuleId(3),
                path: path(3).value,
                cause: Box::new(MergeError::Reexports(StageError(5))),
            }),
        }))
    );
    assert_eq!(left, targets(&[2, 3]));
}

#[test]
fn imported_modules_are_no_targets_afterwards() {
    let globals = Globals::new();
    // Without `require`, what nothing imports stays a target.
    let b = bundler(&globals, false, chain());
    let mut left = targets(&[9, 3, 2]);
    let (result, log) = run(&b, 1, &mut left, None);
    assert!(result.unwrap().is_ok());
    assert_eq!(left, targets(&[9]));
    let mut ordered = targets(&[9, 3, 8, 2, 7]);
    let (again, _) = run(&b, 1, &mut ordered, None);
    assert!(again.unwrap().is_ok());
    assert_eq!(ordered, targets(&[9, 8, 7]));
    // Two imports, three targets.
    assert!(log.len() <= (3 + 1) * (4 * 2 + 4));
    // A target that is there twice is taken away once.
    let mut left = targets(&[2, 2]);
    let (result, _) = run(&b, 1, &mut left, None);
    assert!(result.unwrap().is_ok());
    assert_eq!(left, targets(&[2]));
}

#[test]
fn entry_with_require_takes_in_every_target() {
    let globals = Globals::new();
    let mut modules = chain();
    modules.push(info(4, vec![], vec![]));
    let b = bundler(&globals, true, modules);
    let mut left = targets(&[4, 3, 2]);
    let (result, log) = run(&b, 1, &mut left, None);
    assert!(result.unwrap().is_ok());
    assert!(left.is_empty());
    assert_eq!(log.last().unwrap(), "remaining 4");
}

#[test]
fn failing_commonjs_stage_ends_the_merge() {
    let globals = Globals::new();
    let mut modules = chain();
    modules[1].is_es6 = false;
    let b = bundler(&globals, true, modules);
    let (result, _) = run(&b, 1, &mut targets(&[2]), Some("cjs"));
    assert_eq!(result, Ok(Err(MergeError::Stage(StageError(77)))));
}

#[test]
fn step_of_another_bundler_cannot_be_resumed() {
    let globals = Globals::new();
    let b = bundler(&globals, false, chain());
    let step = Step::MergeReexports {
        entry: module(vec![]),
        at: 3,
        is_entry: true,
        stack: Stack::Bottom,
    };
    assert!(!b.can_resume(&step));
    let frame = |at, next| Frame {
        at,
        is_entry: true,
        next,
        module: module(vec![]),
    };
    let step = Step::ExtendHelpers {
        imported: ModuleId(2),
        frame: frame(0, 1),
        stack: Stack::Bottom,
    };
    assert!(!b.can_resume(&step));
    let step = Step::DropUnused {
        dep: module(vec![]),
        frame: frame(0, 0),
        stack: Stack::Above(Box::new(frame(2, 0)), Box::new(Stack::Bottom)),
    };
    assert!(!b.can_resume(&step));
}

#[test]
fn second_import_of_a_module_uses_the_first_ones_names() {
    let globals = Globals::new();
    // Two imports of module 2: by `2`, and by `4`.
    let modules = vec![
        info(
            1,
            vec![import(2, ident(2)), usage(ident(2)), usage(ident(4))],
            vec![takes(2, 2), takes(2, 4)],
        ),
        info(2, vec![exported(2)], vec![]),
    ];
    let b = bundler(&globals, false, modules);
    let (result, log) = run(&b, 1, &mut targets(&[2]), None);
    assert_eq!(
        body(result),
        vec![declared(marked(2, 2)), usage(marked(2, 2)), usage(marked(4, 2))]
    );
    assert_eq!(log, vec!["reexports 1", "helpers 2", "unused 0"]);
}
