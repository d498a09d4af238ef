//! How the names of an importer meet those of the module that it imports.
//!
//! The importer is marked by a [`LocalMarker`](crate::local_marker::LocalMarker),
//! the other module is renamed by an
//! [`ExportRenamer`](crate::export_renamer::ExportRenamer). Both put the mark of
//! the imported module on the importer's name, so that a use in the one and the
//! declaration in the other end up as one identifier.
use crate::actual_marker::{
    actual_declarators, actual_ident, actual_pat, actual_pats, law_actual_ident_is_local_name,
    local_name, taker,
};
use crate::export_renamer::{
    binding, bindings, exported_name, extra, renamed_declarator, renamed_declarators,
    renamed_expr, renamed_ident, renamed_item, renamed_items, renamed_pat, renamed_pats,
    renamed_specifier, renamed_specifiers, Renaming,
};
use crate::hygiene::Span;
use crate::local_marker::{marked_ident, Marking};
use crate::pattern::{pat_ids, pats_ids};
use crate::run::{lemma_flat_map_add, run_elements, Run};
use crate::specifier::Specifier;
use crate::syntax::{
    Decl, ExportSpecifier, Id, Ident, ModuleDecl, ModuleItem, Pat, Stmt, VarDeclarator, Word,
};
use crate::unexporter::{
    can_unexport, can_unexport_all, lemma_can_unexport_join, lemma_unexported_items_view,
    unexported_item, unexported_items,
};
use vstd::prelude::*;

verus! {

/// The names that declarators bind, in order.
pub open spec fn declarators_ids(decls: Run<VarDeclarator>) -> Seq<Id>
    decreases decls,
{
    match decls {
        Run::Empty => Seq::empty(),
        Run::One(x) => pat_ids(x.name),
        Run::Join(a, b) => declarators_ids(*a) + declarators_ids(*b),
    }
}

/// The names of values that a declaration declares.
pub open spec fn decl_ids(decl: Decl) -> Seq<Id> {
    match decl {
        Decl::Class(c) => seq![c.ident.spec_id()],
        Decl::Fn(f) => seq![f.ident.spec_id()],
        Decl::Var(v) => declarators_ids(v.decls),
        _ => Seq::empty(),
    }
}

/// Whether an item is a plain declaration of the name `id`.
pub open spec fn declares(item: ModuleItem, id: Id) -> bool {
    match item {
        ModuleItem::Stmt(Stmt::Decl(decl)) => decl_ids(decl).contains(id),
        _ => false,
    }
}

/// Whether one of the items is a plain declaration of the name `id`.
pub open spec fn any_declares(items: Run<ModuleItem>, id: Id) -> bool {
    exists|i: int| 0 <= i < items@.len() && declares(#[trigger] items@[i], id)
}

/// Whether one of the names has the word `sym`.
pub open spec fn has_sym(ids: Seq<Id>, sym: Word) -> bool {
    exists|i: int| 0 <= i < ids.len() && (#[trigger] ids[i]).sym == sym
}

/// Whether one of the specifiers exports under the name `sym`.
pub open spec fn any_exports(specifiers: Run<ExportSpecifier>, sym: Word) -> bool
    decreases specifiers,
{
    match specifiers {
        Run::Empty => false,
        Run::One(x) => exported_name(*x) == sym,
        Run::Join(a, b) => any_exports(*a, sym) || any_exports(*b, sym),
    }
}

/// Whether an item exports a value under the name `sym`: by an exported
/// declaration, by `export { .. }`, or as the value of `export default`.
pub open spec fn exports_value(item: ModuleItem, sym: Word) -> bool {
    match item {
        ModuleItem::ModuleDecl(ModuleDecl::ExportDecl { span, decl }) => has_sym(
            decl_ids(decl),
            sym,
        ),
        ModuleItem::ModuleDecl(ModuleDecl::ExportNamed(e)) => e.src is None && any_exports(
            e.specifiers,
            sym,
        ),
        ModuleItem::ModuleDecl(ModuleDecl::ExportDefaultExpr { .. }) => sym
            == Word::spec_default_word(),
        _ => false,
    }
}

/// A name as it is declared after renaming.
pub open spec fn actual_id(mark: u32, imports: Seq<Specifier>, id: Id) -> Id {
    match local_name(imports, id.sym) {
        Some(local) => local.spec_replace_mark(mark),
        None => id,
    }
}

/// Renaming a pattern renames each of the names that it binds.
proof fn lemma_pat_ids(mark: u32, imports: Seq<Specifier>, pat: Pat)
    ensures
        pat_ids(actual_pat(mark, imports, pat)) == pat_ids(pat).map_values(
            |id: Id| actual_id(mark, imports, id),
        ),
    decreases pat,
{
    match pat {
        Pat::Ident(ident) => law_actual_ident_is_local_name(mark, imports, ident),
        Pat::Expr(_) => {},
        Pat::PropName(_) => {},
        Pat::Type(_) => {},
        Pat::Other { origin, parts } => lemma_pats_ids(mark, imports, parts),
    }
}

proof fn lemma_pats_ids(mark: u32, imports: Seq<Specifier>, pats: Run<Pat>)
    ensures
        pats_ids(actual_pats(mark, imports, pats)) == pats_ids(pats).map_values(
            |id: Id| actual_id(mark, imports, id),
        ),
    decreases pats,
{
    match pats {
        Run::Empty => {},
        Run::One(x) => lemma_pat_ids(mark, imports, *x),
        Run::Join(a, b) => {
            lemma_pats_ids(mark, imports, *a);
            lemma_pats_ids(mark, imports, *b);
        },
    }
}

proof fn lemma_declarators_ids(mark: u32, imports: Seq<Specifier>, decls: Run<VarDeclarator>)
    ensures
        declarators_ids(actual_declarators(mark, imports, decls)) == declarators_ids(
            decls,
        ).map_values(|id: Id| actual_id(mark, imports, id)),
    decreases decls,
{
    match decls {
        Run::Empty => {},
        Run::One(x) => lemma_pat_ids(mark, imports, x.name),
        Run::Join(a, b) => {
            lemma_declarators_ids(mark, imports, *a);
            lemma_declarators_ids(mark, imports, *b);
        },
    }
}

/// Renaming inside a pattern keeps the names that it binds.
proof fn lemma_renamed_pat_ids(r: Renaming, pat: Pat)
    ensures
        pat_ids(renamed_pat(r, pat)) == pat_ids(pat),
    decreases pat,
{
    match pat {
        Pat::Other { origin, parts } => lemma_renamed_pats_ids(r, parts),
        _ => {},
    }
}

proof fn lemma_renamed_pats_ids(r: Renaming, pats: Run<Pat>)
    ensures
        pats_ids(renamed_pats(r, pats)) == pats_ids(pats),
    decreases pats,
{
    match pats {
        Run::Empty => {},
        Run::One(x) => lemma_renamed_pat_ids(r, *x),
        Run::Join(a, b) => {
            lemma_renamed_pats_ids(r, *a);
            lemma_renamed_pats_ids(r, *b);
        },
    }
}

proof fn lemma_renamed_declarators_ids(r: Renaming, decls: Run<VarDeclarator>)
    ensures
        declarators_ids(renamed_declarators(r, decls)) == declarators_ids(decls),
    decreases decls,
{
    match decls {
        Run::Empty => {},
        Run::One(x) => {
            assert(renamed_declarator(r, *x).name == renamed_pat(r, x.name));
            lemma_renamed_pat_ids(r, x.name);
        },
        Run::Join(a, b) => {
            lemma_renamed_declarators_ids(r, *a);
            lemma_renamed_declarators_ids(r, *b);
        },
    }
}

/// Renaming inside export specifiers keeps the names that they export.
proof fn lemma_renamed_exports(r: Renaming, specifiers: Run<ExportSpecifier>, sym: Word)
    ensures
        any_exports(renamed_specifiers(r, specifiers), sym) == any_exports(specifiers, sym),
    decreases specifiers,
{
    match specifiers {
        Run::Empty => {},
        Run::One(x) => {
            assert(exported_name(renamed_specifier(r, *x)) == exported_name(*x));
        },
        Run::Join(a, b) => {
            lemma_renamed_exports(r, *a, sym);
            lemma_renamed_exports(r, *b, sym);
        },
    }
}

/// What is taken from `export { .. }` is bound.
proof fn lemma_bindings(r: Renaming, specifiers: Run<ExportSpecifier>, sym: Word)
    requires
        any_exports(specifiers, sym),
        local_name(r.imports, sym) is Some,
    ensures
        bindings(r, specifiers)@.len() > 0,
        declarators_ids(bindings(r, specifiers)).contains(
            local_name(r.imports, sym)->0.spec_replace_mark(r.mark),
        ),
    decreases specifiers,
{
    let id = local_name(r.imports, sym)->0.spec_replace_mark(r.mark);
    match specifiers {
        Run::Empty => {},
        Run::One(x) => {
            assert(declarators_ids(bindings(r, specifiers))[0] == id);
        },
        Run::Join(a, b) => {
            let (x, y) = (
                declarators_ids(bindings(r, *a)),
                declarators_ids(bindings(r, *b)),
            );
            if any_exports(*a, sym) {
                lemma_bindings(r, *a, sym);
                let i = choose|i: int| 0 <= i < x.len() && x[i] == id;
                assert((x + y)[i] == id);
            } else {
                lemma_bindings(r, *b, sym);
                let i = choose|i: int| 0 <= i < y.len() && y[i] == id;
                assert((x + y)[x.len() + i] == id);
            }
        },
    }
}

/// The items that stand for one item once it is renamed.
pub open spec fn renamed_with_extra(r: Renaming, item: ModuleItem) -> Seq<ModuleItem> {
    match extra(r, item) {
        Some(stmt) => seq![renamed_item(r, item), ModuleItem::Stmt(stmt)],
        None => seq![renamed_item(r, item)],
    }
}

proof fn lemma_renamed_one(r: Renaming, item: ModuleItem)
    ensures
        renamed_items(r, Run::One(Box::new(item)))@ == renamed_with_extra(r, item),
{
    reveal_with_fuel(run_elements, 2);
}

/// Renaming a module keeps the order of its items: each stands where it stood,
/// with its extra statement right after it.
pub proof fn law_renamed_in_order(r: Renaming, items: Run<ModuleItem>)
    ensures
        renamed_items(r, items)@ == items@.flat_map(
            |item: ModuleItem| renamed_with_extra(r, item),
        ),
    decreases items,
{
    let f = |item: ModuleItem| renamed_with_extra(r, item);
    match items {
        Run::Empty => {
            assert(items@.map_values(f).len() == 0);
        },
        Run::One(x) => {
            lemma_renamed_one(r, *x);
            items@.lemma_flat_map_singleton(f);
            assert(items@[0] == *x);
        },
        Run::Join(a, b) => {
            law_renamed_in_order(r, *a);
            law_renamed_in_order(r, *b);
            lemma_flat_map_add(a@, b@, f);
        },
    }
}

/// A renamed item is among the renamed items, and so is its extra statement.
proof fn lemma_renamed_is_there(r: Renaming, items: Run<ModuleItem>, i: int)
    requires
        0 <= i < items@.len(),
    ensures
        renamed_items(r, items)@.contains(renamed_item(r, items@[i])),
        extra(r, items@[i]) matches Some(stmt) ==> renamed_items(r, items)@.contains(
            ModuleItem::Stmt(stmt),
        ),
    decreases items,
{
    let all = renamed_items(r, items)@;
    match items {
        Run::Empty => {},
        Run::One(x) => {
            lemma_renamed_one(r, *x);
            assert(items@[0] == *x);
            assert(all[0] == renamed_item(r, *x));
            if let Some(stmt) = extra(r, *x) {
                assert(all[1] == ModuleItem::Stmt(stmt));
            }
        },
        Run::Join(a, b) => {
            let (x, y) = (renamed_items(r, *a)@, renamed_items(r, *b)@);
            assert(all == x + y);
            let item = renamed_item(r, items@[i]);
            if i < a@.len() {
                lemma_renamed_is_there(r, *a, i);
                assert(a@[i] == items@[i]);
                let k = choose|k: int| 0 <= k < x.len() && x[k] == item;
                assert(all[k] == item);
                if let Some(stmt) = extra(r, items@[i]) {
                    let k = choose|k: int| 0 <= k < x.len() && x[k] == ModuleItem::Stmt(stmt);
                    assert(all[k] == ModuleItem::Stmt(stmt));
                }
            } else {
                lemma_renamed_is_there(r, *b, i - a@.len());
                assert(b@[i - a@.len()] == items@[i]);
                let k = choose|k: int| 0 <= k < y.len() && y[k] == item;
                assert(all[x.len() + k] == item);
                if let Some(stmt) = extra(r, items@[i]) {
                    let k = choose|k: int| 0 <= k < y.len() && y[k] == ModuleItem::Stmt(stmt);
                    assert(all[x.len() + k] == ModuleItem::Stmt(stmt));
                }
            }
        },
    }
}

/// Every value that the importer takes by name from the other module is
/// declared there, once it is renamed and stripped of `export`, under the
/// importer's name with the mark on it.
pub proof fn law_taken_value_is_declared(
    r: Renaming,
    items: Run<ModuleItem>,
    i: int,
    sym: Word,
)
    requires
        0 <= i < items@.len(),
        exports_value(items@[i], sym),
        local_name(r.imports, sym) is Some,
    ensures
        any_declares(
            unexported_items(renamed_items(r, items)),
            local_name(r.imports, sym)->0.spec_replace_mark(r.mark),
        ),
{
    let id = local_name(r.imports, sym)->0.spec_replace_mark(r.mark);
    let item = items@[i];
    let renamed = renamed_items(r, items);
    lemma_renamed_is_there(r, items, i);
    lemma_unexported_items_view(renamed);
    let declared = match item {
        ModuleItem::ModuleDecl(ModuleDecl::ExportNamed(_)) => ModuleItem::Stmt(extra(r, item)->0),
        _ => renamed_item(r, item),
    };
    match item {
        ModuleItem::ModuleDecl(ModuleDecl::ExportDecl { span, decl }) => {
            let ids = decl_ids(decl);
            let k = choose|k: int| 0 <= k < ids.len() && (#[trigger] ids[k]).sym == sym;
            match decl {
                Decl::Class(c) => {
                    let ident = renamed_ident(r, c.ident);
                    law_actual_ident_is_local_name(r.mark, r.imports, ident);
                    assert(seq![actual_ident(r.mark, r.imports, ident).spec_id()][0] == id);
                },
                Decl::Fn(f) => {
                    let ident = renamed_ident(r, f.ident);
                    law_actual_ident_is_local_name(r.mark, r.imports, ident);
                    assert(seq![actual_ident(r.mark, r.imports, ident).spec_id()][0] == id);
                },
                Decl::Var(v) => {
                    let decls = renamed_declarators(r, v.decls);
                    lemma_renamed_declarators_ids(r, v.decls);
                    lemma_declarators_ids(r.mark, r.imports, decls);
                    assert(declarators_ids(
                        actual_declarators(r.mark, r.imports, decls),
                    )[k] == id);
                },
                _ => {},
            }
        },
        ModuleItem::ModuleDecl(ModuleDecl::ExportNamed(e)) => {
            lemma_renamed_exports(r, e.specifiers, sym);
            lemma_bindings(r, renamed_specifiers(r, e.specifiers), sym);
        },
        ModuleItem::ModuleDecl(ModuleDecl::ExportDefaultExpr { span, expr }) => {
            let decls = Run::One(
                Box::new(
                    binding(
                        r,
                        Span::spec_dummy(),
                        local_name(r.imports, sym)->0,
                        renamed_expr(r, expr),
                    ),
                ),
            );
            assert(declarators_ids(decls)[0] == id);
        },
        _ => {},
    }
    assert(declares(unexported_item(declared), id));
    let j = choose|j: int| 0 <= j < renamed@.len() && renamed@[j] == declared;
    assert(unexported_items(renamed)@[j] == unexported_item(declared));
}

/// Renaming does not make an export one that cannot be undone, nor the other
/// way round.
pub proof fn law_renaming_keeps_unexportable(r: Renaming, items: Run<ModuleItem>)
    ensures
        can_unexport_all(renamed_items(r, items)) == can_unexport_all(items),
    decreases items,
{
    let renamed = renamed_items(r, items);
    match items {
        Run::Empty => {
            assert(renamed@.len() == 0 && items@.len() == 0);
        },
        Run::One(x) => {
            lemma_renamed_one(r, *x);
            assert(items@[0] == *x);
            assert(renamed@[0] == renamed_item(r, *x));
            assert(can_unexport(items@[0]) == can_unexport(renamed@[0]));
        },
        Run::Join(a, b) => {
            law_renaming_keeps_unexportable(r, *a);
            law_renaming_keeps_unexportable(r, *b);
            lemma_can_unexport_join(items);
            lemma_can_unexport_join(renamed);
        },
    }
}

/// A use in the importer of a name that it takes, if nothing shadows it, gets
/// the very name that a declaration of what is taken gets in the other module.
/// Of several specifiers that take one export, this holds of the first.
pub proof fn law_use_meets_declaration(
    mark: u32,
    imports: Seq<Specifier>,
    k: int,
    ex: Seq<Id>,
    used: Ident,
    declared: Ident,
)
    requires
        0 <= k < imports.len(),
        taker(imports, imports[k].spec_foreign().sym) == Some(imports[k]),
        used.spec_id() == imports[k].spec_local(),
        !ex.contains(used.spec_id()),
        declared.sym == imports[k].spec_foreign().sym,
    ensures
        marked_ident(
            Marking { mark, specifiers: imports, is_export: false },
            ex,
            used,
        ).spec_id() == actual_ident(mark, imports, declared).spec_id(),
{
    let m = Marking { mark, specifiers: imports, is_export: false };
    assert(m.is_about(m.specifiers[k], used.spec_id()));
    law_actual_ident_is_local_name(mark, imports, declared);
}

/// A use in the importer of a name that it takes, if nothing shadows it, gets a
/// name that the other module declares once it is renamed and stripped of
/// `export`. Of several specifiers that take one export, this holds of the
/// first.
pub proof fn law_use_is_declared(
    r: Renaming,
    items: Run<ModuleItem>,
    i: int,
    k: int,
    ex: Seq<Id>,
    used: Ident,
)
    requires
        0 <= k < r.imports.len(),
        taker(r.imports, r.imports[k].spec_foreign().sym) == Some(r.imports[k]),
        used.spec_id() == r.imports[k].spec_local(),
        !ex.contains(used.spec_id()),
        0 <= i < items@.len(),
        exports_value(items@[i], r.imports[k].spec_foreign().sym),
    ensures
        any_declares(
            unexported_items(renamed_items(r, items)),
            marked_ident(
                Marking { mark: r.mark, specifiers: r.imports, is_export: false },
                ex,
                used,
            ).spec_id(),
        ),
{
    let m = Marking { mark: r.mark, specifiers: r.imports, is_export: false };
    assert(m.is_about(m.specifiers[k], used.spec_id()));
    law_taken_value_is_declared(r, items, i, r.imports[k].spec_foreign().sym);
}

} // verus!
