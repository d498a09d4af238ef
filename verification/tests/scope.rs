use chunk_merge::hygiene::{Mark, Span};
use chunk_merge::run::Run;
use chunk_merge::scope::{contains, drop_imports, remove_first, Import, ModuleInfo, Scope};
use chunk_merge::specifier::{ModuleId, Source};
use chunk_merge::syntax::{ImportDecl, Module, ModuleDecl, ModuleItem, Stmt, Str, Syntax, Word};

fn path(sym: u32, lo: u32) -> Str {
    Str {
        span: Span {
            lo,
            hi: lo,
            ..Span::dummy()
        },
        value: Word(sym),
        has_escape: false,
    }
}

fn info(id: u32, imports: Vec<Import>) -> ModuleInfo {
    ModuleInfo {
        id: ModuleId(id),
        module: Module {
            span: Span::dummy(),
            body: Run::Empty,
            shebang: None,
        },
        imports,
        is_es6: true,
        mark: Mark::from_u32(id + 1).unwrap(),
    }
}

fn import(module_id: u32, src: Str) -> Import {
    Import {
        source: Source {
            module_id: ModuleId(module_id),
            src,
        },
        specifiers: Vec::new(),
    }
}

fn statement(src: Str) -> ModuleItem {
    ModuleItem::ModuleDecl(ModuleDecl::Import(ImportDecl {
        origin: 0,
        span: Span::dummy(),
        specifiers: Run::Empty,
        src,
        type_only: false,
    }))
}

fn other() -> ModuleItem {
    ModuleItem::Stmt(Stmt::Other(Syntax {
        origin: 1,
        parts: Run::Empty,
    }))
}

#[test]
fn modules_are_found_by_id() {
    let scope = Scope {
        modules: vec![info(4, vec![]), info(2, vec![]), info(2, vec![])],
        circular: vec![ModuleId(2)],
    };
    assert_eq!(scope.get_module(ModuleId(4)), Some(0));
    assert_eq!(scope.get_module(ModuleId(2)), Some(1));
    assert_eq!(scope.get_module(ModuleId(3)), None);
    assert!(scope.is_circular(ModuleId(2)));
    assert!(!scope.is_circular(ModuleId(4)));
}

#[test]
fn first_occurrence_is_removed() {
    let ids = |v: &[u32]| -> Vec<ModuleId> { v.iter().map(|n| ModuleId(*n)).collect() };
    let mut targets = ids(&[3, 1, 2, 1]);
    assert!(contains(&targets, ModuleId(1)));
    remove_first(&mut targets, ModuleId(1));
    assert_eq!(targets, ids(&[3, 2, 1]));
    assert!(contains(&targets, ModuleId(1)));
    remove_first(&mut targets, ModuleId(1));
    assert!(!contains(&targets, ModuleId(1)));
    remove_first(&mut targets, ModuleId(1));
    assert_eq!(targets, ids(&[3, 2]));
}

#[test]
fn imports_of_a_module_are_dropped() {
    let imports = vec![
        import(1, path(10, 5)),
        import(2, path(11, 6)),
        import(1, path(12, 7)),
    ];
    let items = Run::from_vec(vec![
        statement(path(10, 5)),
        other(),
        statement(path(11, 6)),
        statement(path(12, 7)),
    ]);
    assert_eq!(
        drop_imports(&imports, ModuleId(1), items).into_vec(),
        vec![other(), statement(path(11, 6))]
    );
}

#[test]
fn import_from_another_place_is_kept() {
    let imports = vec![import(1, path(10, 5))];
    let items = Run::one(statement(path(10, 8)));
    assert_eq!(
        drop_imports(&imports, ModuleId(1), items).into_vec(),
        vec![statement(path(10, 8))]
    );
}
