//! Removal of `export` from a module whose items move into another one.
use crate::hygiene::{Span, SyntaxContext};
use crate::run::Run;
use crate::syntax::{
    ClassDecl, ClassExpr, Decl, DefaultDecl, FnDecl, FnExpr, Module, ModuleDecl, ModuleItem, Stmt,
};
use vstd::prelude::*;

verus! {

/// Whether an item can be stripped of `export`. `import a = ..`,
/// `export = ..` and `export as namespace ..` cannot.
pub open spec fn can_unexport(item: ModuleItem) -> bool {
    match item {
        ModuleItem::ModuleDecl(ModuleDecl::TsImportEquals(_)) => false,
        ModuleItem::ModuleDecl(ModuleDecl::TsExportAssignment(_)) => false,
        ModuleItem::ModuleDecl(ModuleDecl::TsNamespaceExport(_)) => false,
        _ => true,
    }
}

/// What stands in the place of a default declaration: the declaration, or
/// nothing if it has no name.
pub open spec fn unexported_default(decl: DefaultDecl) -> Stmt {
    match decl {
        DefaultDecl::Class(ClassExpr { ident: Some(ident), class }) => Stmt::Decl(
            Decl::Class(ClassDecl { ident, declare: false, class }),
        ),
        DefaultDecl::Fn(FnExpr { ident: Some(ident), function }) => Stmt::Decl(
            Decl::Fn(FnDecl { ident, declare: false, function }),
        ),
        DefaultDecl::TsInterfaceDecl(decl) => Stmt::Decl(Decl::TsInterface(decl)),
        _ => Stmt::Empty { span: Span::spec_dummy() },
    }
}

/// An item without its `export`: a declaration stays, any other export leaves
/// nothing, and imports and statements are as before.
pub open spec fn unexported_item(item: ModuleItem) -> ModuleItem {
    match item {
        ModuleItem::ModuleDecl(decl) => match decl {
            ModuleDecl::ExportDecl { span, decl } => ModuleItem::Stmt(Stmt::Decl(decl)),
            ModuleDecl::ExportDefaultDecl { span, decl } => ModuleItem::Stmt(
                unexported_default(decl),
            ),
            ModuleDecl::ExportAll { .. } => ModuleItem::Stmt(
                Stmt::Empty { span: Span::spec_dummy() },
            ),
            ModuleDecl::ExportDefaultExpr { .. } => ModuleItem::Stmt(
                Stmt::Empty { span: Span::spec_dummy() },
            ),
            ModuleDecl::ExportNamed(_) => ModuleItem::Stmt(
                Stmt::Empty { span: Span::spec_dummy() },
            ),
            _ => item,
        },
        ModuleItem::Stmt(_) => item,
    }
}

/// Whether every item of a run can be stripped of `export`.
pub open spec fn can_unexport_all(items: Run<ModuleItem>) -> bool {
    forall|i: int| 0 <= i < items@.len() ==> can_unexport(#[trigger] items@[i])
}

/// The items of a run, each without its `export`.
pub open spec fn unexported_items(items: Run<ModuleItem>) -> Run<ModuleItem>
    decreases items,
{
    match items {
        Run::Empty => Run::Empty,
        Run::One(x) => Run::One(Box::new(unexported_item(*x))),
        Run::Join(a, b) => Run::Join(
            Box::new(unexported_items(*a)),
            Box::new(unexported_items(*b)),
        ),
    }
}

/// Tells whether every item can be stripped of `export`.
pub fn supports(items: &Run<ModuleItem>) -> (r: bool)
    ensures
        r == can_unexport_all(*items),
    decreases items,
{
    match items {
        Run::Empty => true,
        Run::One(x) => {
            assert(items@[0] == **x);
            match &**x {
                ModuleItem::ModuleDecl(ModuleDecl::TsImportEquals(_)) => false,
                ModuleItem::ModuleDecl(ModuleDecl::TsExportAssignment(_)) => false,
                ModuleItem::ModuleDecl(ModuleDecl::TsNamespaceExport(_)) => false,
                _ => true,
            }
        },
        Run::Join(a, b) => {
            proof {
                lemma_can_unexport_join(*items);
            }
            supports(a) && supports(b)
        },
    }
}

pub(crate) proof fn lemma_can_unexport_join(items: Run<ModuleItem>)
    requires
        items is Join,
    ensures
        can_unexport_all(items) == (can_unexport_all(*items->Join_0) && can_unexport_all(
            *items->Join_1,
        )),
{
    let a = *items->Join_0;
    let b = *items->Join_1;
    assert(items@ == a@ + b@);
    if can_unexport_all(items) {
        assert forall|i: int| 0 <= i < a@.len() implies can_unexport(#[trigger] a@[i]) by {
            assert(items@[i] == a@[i]);
        }
        assert forall|i: int| 0 <= i < b@.len() implies can_unexport(#[trigger] b@[i]) by {
            assert(items@[a@.len() + i] == b@[i]);
        }
    }
}

/// `export var a = 1` => `var a = 1`
pub struct Unexporter;

impl Unexporter {
    /// Strips an item of `export`.
    pub fn fold_module_item(&mut self, item: ModuleItem) -> (r: ModuleItem)
        requires
            can_unexport(item),
        ensures
            r == unexported_item(item),
    {
        match item {
            ModuleItem::ModuleDecl(decl) => match decl {
                ModuleDecl::ExportDecl { span: _, decl } => ModuleItem::Stmt(Stmt::Decl(decl)),
                ModuleDecl::ExportDefaultDecl { span: _, decl } => match decl {
                    DefaultDecl::Class(ClassExpr { ident, class }) => match ident {
                        Some(ident) => ModuleItem::Stmt(
                            Stmt::Decl(Decl::Class(ClassDecl { ident, declare: false, class })),
                        ),
                        None => ModuleItem::Stmt(Stmt::Empty { span: Span::dummy() }),
                    },
                    DefaultDecl::Fn(FnExpr { ident, function }) => match ident {
                        Some(ident) => ModuleItem::Stmt(
                            Stmt::Decl(Decl::Fn(FnDecl { ident, declare: false, function })),
                        ),
                        None => ModuleItem::Stmt(Stmt::Empty { span: Span::dummy() }),
                    },
                    DefaultDecl::TsInterfaceDecl(decl) => ModuleItem::Stmt(
                        Stmt::Decl(Decl::TsInterface(decl)),
                    ),
                },
                ModuleDecl::ExportAll { .. } => {
                    ModuleItem::Stmt(Stmt::Empty { span: Span::dummy() })
                },
                ModuleDecl::ExportDefaultExpr { .. } => {
                    ModuleItem::Stmt(Stmt::Empty { span: Span::dummy() })
                },
                ModuleDecl::ExportNamed(_) => {
                    ModuleItem::Stmt(Stmt::Empty { span: Span::dummy() })
                },
                other => ModuleItem::ModuleDecl(other),
            },
            ModuleItem::Stmt(stmt) => ModuleItem::Stmt(stmt),
        }
    }

    /// Strips items of `export`.
    pub fn fold_module_items(&mut self, items: Run<ModuleItem>) -> (r: Run<ModuleItem>)
        requires
            can_unexport_all(items),
        ensures
            r == unexported_items(items),
            r@ == items@.map_values(|item: ModuleItem| unexported_item(item)),
        decreases items,
    {
        proof {
            lemma_unexported_items_view(items);
        }
        match items {
            Run::Empty => Run::Empty,
            Run::One(x) => {
                assert(items@[0] == *x);
                Run::One(Box::new(self.fold_module_item(*x)))
            },
            Run::Join(a, b) => {
                proof {
                    lemma_can_unexport_join(items);
                }
                let a = self.fold_module_items(*a);
                let b = self.fold_module_items(*b);
                Run::Join(Box::new(a), Box::new(b))
            },
        }
    }

    /// Strips the items of a module of `export`.
    pub fn fold_module(&mut self, module: Module) -> (r: Module)
        requires
            can_unexport_all(module.body),
        ensures
            r == (Module { body: unexported_items(module.body), ..module }),
    {
        Module {
            span: module.span,
            body: self.fold_module_items(module.body),
            shebang: module.shebang,
        }
    }
}

/// Stripping a run of `export` strips each of its items, in place.
pub proof fn lemma_unexported_items_view(items: Run<ModuleItem>)
    ensures
        unexported_items(items)@ == items@.map_values(|item: ModuleItem| unexported_item(item)),
    decreases items,
{
    match items {
        Run::Empty => {},
        Run::One(_) => {},
        Run::Join(a, b) => {
            lemma_unexported_items_view(*a);
            lemma_unexported_items_view(*b);
        },
    }
}

/// Whether an item is an export.
pub open spec fn is_export(item: ModuleItem) -> bool {
    match item {
        ModuleItem::ModuleDecl(ModuleDecl::ExportDecl { .. }) => true,
        ModuleItem::ModuleDecl(ModuleDecl::ExportNamed(_)) => true,
        ModuleItem::ModuleDecl(ModuleDecl::ExportDefaultDecl { .. }) => true,
        ModuleItem::ModuleDecl(ModuleDecl::ExportDefaultExpr { .. }) => true,
        ModuleItem::ModuleDecl(ModuleDecl::ExportAll { .. }) => true,
        ModuleItem::ModuleDecl(ModuleDecl::TsExportAssignment(_)) => true,
        ModuleItem::ModuleDecl(ModuleDecl::TsNamespaceExport(_)) => true,
        _ => false,
    }
}

/// A module that has been stripped of `export` exports nothing, and has as
/// many items as before.
pub proof fn law_unexported_exports_nothing(items: Run<ModuleItem>)
    requires
        can_unexport_all(items),
    ensures
        unexported_items(items)@.len() == items@.len(),
        forall|i: int|
            0 <= i < items@.len() ==> !is_export(#[trigger] unexported_items(items)@[i]),
{
    lemma_unexported_items_view(items);
    assert forall|i: int| 0 <= i < items@.len() implies !is_export(
        #[trigger] unexported_items(items)@[i],
    ) by {
        assert(can_unexport(items@[i]));
    }
}

/// A module can be stripped of `export` unless it has `import a = ..`,
/// `export = ..` or `export as namespace ..`.
pub proof fn law_what_can_be_stripped(items: Run<ModuleItem>)
    ensures
        can_unexport_all(items) == forall|i: int|
            0 <= i < items@.len() ==> match #[trigger] items@[i] {
                ModuleItem::ModuleDecl(decl) => !(decl is TsImportEquals) && !(
                decl is TsExportAssignment) && !(decl is TsNamespaceExport),
                ModuleItem::Stmt(_) => true,
            },
{
    assert forall|i: int| 0 <= i < items@.len() implies can_unexport(#[trigger] items@[i]) == (
    match items@[i] {
        ModuleItem::ModuleDecl(decl) => !(decl is TsImportEquals) && !(decl is TsExportAssignment)
            && !(decl is TsNamespaceExport),
        ModuleItem::Stmt(_) => true,
    }) by {}
}

/// Stripping a module of `export` keeps every item that is no export. It keeps
/// every declaration that is exported, of whatever kind, as that very declaration,
/// and every default declaration under its name. Other exports, and declarations
/// without a name, leave an empty statement that stands nowhere.
pub proof fn law_stripped_item_by_item(items: Run<ModuleItem>, i: int)
    requires
        can_unexport_all(items),
        0 <= i < items@.len(),
    ensures
        unexported_items(items)@.len() == items@.len(),
        items@[i] is Stmt ==> unexported_items(items)@[i] == items@[i],
        items@[i] matches ModuleItem::ModuleDecl(decl) ==> match decl {
            ModuleDecl::ExportDecl { span, decl } => unexported_items(items)@[i]
                == ModuleItem::Stmt(Stmt::Decl(decl)),
            ModuleDecl::ExportDefaultDecl { span, decl } => unexported_items(items)@[i]
                == ModuleItem::Stmt(
                match decl {
                    DefaultDecl::TsInterfaceDecl(syntax) => Stmt::Decl(Decl::TsInterface(syntax)),
                    DefaultDecl::Class(c) => if c.ident is Some {
                        Stmt::Decl(
                            Decl::Class(
                                ClassDecl { ident: c.ident->0, declare: false, class: c.class },
                            ),
                        )
                    } else {
                        Stmt::Empty { span: Span { lo: 0, hi: 0, ctxt: SyntaxContext::Empty } }
                    },
                    DefaultDecl::Fn(f) => if f.ident is Some {
                        Stmt::Decl(
                            Decl::Fn(
                                FnDecl { ident: f.ident->0, declare: false, function: f.function },
                            ),
                        )
                    } else {
                        Stmt::Empty { span: Span { lo: 0, hi: 0, ctxt: SyntaxContext::Empty } }
                    },
                },
            ),
            ModuleDecl::Import(_) => unexported_items(items)@[i] == items@[i],
            _ => unexported_items(items)@[i] == ModuleItem::Stmt(
                Stmt::Empty { span: Span { lo: 0, hi: 0, ctxt: SyntaxContext::Empty } },
            ),
        },
{
    lemma_unexported_items_view(items);
    assert(can_unexport(items@[i]));
}

/// Stripping a module of `export` a second time changes nothing.
pub proof fn law_unexport_is_idempotent(items: Run<ModuleItem>)
    requires
        can_unexport_all(items),
    ensures
        can_unexport_all(unexported_items(items)),
        unexported_items(unexported_items(items)) == unexported_items(items),
    decreases items,
{
    law_unexported_exports_nothing(items);
    lemma_unexported_items_view(items);
    assert forall|i: int| 0 <= i < items@.len() implies can_unexport(
        #[trigger] unexported_items(items)@[i],
    ) by {
        assert(can_unexport(items@[i]));
    }
    match items {
        Run::Empty => {},
        Run::One(x) => {
            assert(items@[0] == *x);
        },
        Run::Join(a, b) => {
            lemma_can_unexport_join(items);
            law_unexport_is_idempotent(*a);
            law_unexport_is_idempotent(*b);
        },
    }
}

} // verus!
