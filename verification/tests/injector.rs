use chunk_merge::hygiene::Span;
use chunk_merge::injector::Es6ModuleInjector;
use chunk_merge::run::Run;
use chunk_merge::syntax::{ImportDecl, ModuleDecl, ModuleItem, Stmt, Str, Syntax, Word};

fn path(sym: u32) -> Str {
    Str {
        span: Span::dummy(),
        value: Word(sym),
        has_escape: false,
    }
}

fn import(sym: u32) -> ModuleItem {
    ModuleItem::ModuleDecl(ModuleDecl::Import(ImportDecl {
        origin: 0,
        span: Span::dummy(),
        specifiers: Run::Empty,
        src: path(sym),
        type_only: false,
    }))
}

fn stmt(origin: u64) -> ModuleItem {
    ModuleItem::Stmt(Stmt::Other(Syntax {
        origin,
        parts: Run::Empty,
    }))
}

fn inject(items: Vec<ModuleItem>, imported: Vec<ModuleItem>) -> (Vec<ModuleItem>, bool) {
    let mut injector = Es6ModuleInjector {
        imported: Run::from_vec(imported),
        src: path(1),
    };
    let mut orig = Run::from_vec(items);
    injector.visit_mut_module_items(&mut orig);
    (orig.into_vec(), injector.imported.is_empty())
}

#[test]
fn items_take_the_place_of_the_import() {
    let (items, used) = inject(
        vec![stmt(1), import(1), stmt(2)],
        vec![stmt(10), stmt(11)],
    );
    assert_eq!(items, vec![stmt(1), stmt(10), stmt(11), stmt(2)]);
    assert!(used);
}

#[test]
fn further_imports_of_the_module_go() {
    let (items, used) = inject(
        vec![import(1), stmt(1), import(1), import(2)],
        vec![stmt(10)],
    );
    assert_eq!(items, vec![stmt(10), stmt(1), import(2)]);
    assert!(used);
}

#[test]
fn without_import_nothing_happens() {
    let (items, used) = inject(vec![import(2), stmt(1)], vec![stmt(10)]);
    assert_eq!(items, vec![import(2), stmt(1)]);
    assert!(!used);
}

#[test]
fn path_counts_and_its_place_does_not() {
    let mut injector = Es6ModuleInjector {
        imported: Run::one(stmt(10)),
        src: Str {
            span: Span {
                lo: 5,
                hi: 8,
                ..Span::dummy()
            },
            value: Word(1),
            has_escape: true,
        },
    };
    let mut orig = Run::one(import(1));
    injector.visit_mut_module_items(&mut orig);
    assert_eq!(orig.into_vec(), vec![stmt(10)]);
}

#[test]
fn import_that_comes_along_stays() {
    let (items, used) = inject(vec![import(1), stmt(1)], vec![import(1), stmt(10)]);
    assert_eq!(items, vec![import(1), stmt(10), stmt(1)]);
    assert!(used);
}
