//! What renaming does to each kind of export.
use crate::actual_marker::{actual_ident, actual_pat, local_name};
use crate::export_renamer::{
    bindings, extra, renamed_decl, renamed_declarator, renamed_declarators, renamed_default_decl,
    renamed_expr, renamed_ident, renamed_item, renamed_items, renamed_module, renamed_nodes,
    renamed_pat, renamed_specifiers, renamed_stmt, renamed_syntax, ExportRenamer, Renaming,
};
use crate::hygiene::{Span, SyntaxContext};
use crate::pattern_laws::{
    asks_first, asks_for, law_declarators_keep_their_values, law_first_to_ask_takes,
};
use crate::run::{lemma_flat_map_add, run_elements, Run};
use crate::specifier::Specifier;
use crate::syntax::{
    ClassDecl, Decl, ExportSpecifier, Expr, FnDecl, Id, Ident, ImportDecl, Module, ModuleDecl,
    ModuleItem, NamedExport, Pat, Stmt, VarDecl, VarDeclKind, VarDeclarator, Word,
};
use vstd::prelude::*;

verus! {

/// The word under which a specifier exports.
pub open spec fn exported_word(specifier: ExportSpecifier) -> Word {
    match specifier {
        ExportSpecifier::Namespace { span, name } => name.sym,
        ExportSpecifier::Default { exported } => Word(0),
        ExportSpecifier::Named { span, orig, exported } => match exported {
            Some(exported) => exported.sym,
            None => orig.sym,
        },
    }
}

/// What a specifier exports, and the span of the specifier.
pub open spec fn exported_value(specifier: ExportSpecifier) -> (Ident, Span) {
    match specifier {
        ExportSpecifier::Namespace { span, name } => (name, span),
        ExportSpecifier::Default { exported } => (
            Ident { span: exported.span, sym: Word(0), type_ann: None, optional: false },
            exported.span,
        ),
        ExportSpecifier::Named { span, orig, exported } => (orig, span),
    }
}

/// Whether a declarator binds the importer's word for an export, with the mark on
/// it, to a value.
pub open spec fn binds_local(
    decl: VarDeclarator,
    mark: u32,
    local: Id,
    span: Span,
    value: Expr,
) -> bool {
    decl == (VarDeclarator {
        span,
        name: Pat::Ident(
            Ident {
                span: Span { lo: 0, hi: 0, ctxt: SyntaxContext::Marked(mark) },
                sym: local.sym,
                type_ann: None,
                optional: false,
            },
        ),
        init: Some(value),
        definite: false,
    })
}

/// Whether one of the specifiers of the importer asks for a word.
pub open spec fn is_asked_for(imports: Seq<Specifier>, sym: Word) -> bool {
    exists|j: int| 0 <= j < imports.len() && asks_for(#[trigger] imports[j], sym)
}

/// The export specifiers that the importer asks for, in order.
pub open spec fn asked_for(
    imports: Seq<Specifier>,
    specifiers: Seq<ExportSpecifier>,
) -> Seq<ExportSpecifier> {
    specifiers.filter(|x: ExportSpecifier| is_asked_for(imports, exported_word(x)))
}

proof fn lemma_asked(imports: Seq<Specifier>, sym: Word)
    ensures
        is_asked_for(imports, sym) == (local_name(imports, sym) is Some),
{
    law_first_to_ask_takes(imports, sym);
    if local_name(imports, sym) is Some {
        let k = choose|k: int| asks_first(imports, sym, k);
        assert(asks_for(imports[k], sym));
    }
}

/// Each export specifier that the importer asks for gets one declarator, in order,
/// and no other does. It binds the importer's word, with the mark on it, to the
/// identifier that is exported.
pub proof fn law_each_taken_export_is_bound(
    r: Renaming,
    specifiers: Run<ExportSpecifier>,
    i: int,
    k: int,
)
    requires
        0 <= i < asked_for(r.imports, specifiers@).len(),
        asks_first(r.imports, exported_word(asked_for(r.imports, specifiers@)[i]), k),
    ensures
        bindings(r, specifiers)@.len() == asked_for(r.imports, specifiers@).len(),
        binds_local(
            bindings(r, specifiers)@[i],
            r.mark,
            r.imports[k]->Specific_local,
            exported_value(asked_for(r.imports, specifiers@)[i]).1,
            Expr::Ident(exported_value(asked_for(r.imports, specifiers@)[i]).0),
        ),
    decreases specifiers,
{
    let f = |x: ExportSpecifier| is_asked_for(r.imports, exported_word(x));
    lemma_bindings_len(r, specifiers);
    match specifiers {
        Run::Empty => {
            reveal(Seq::filter);
        },
        Run::One(x) => {
            lemma_asked(r.imports, exported_word(*x));
            lemma_filter_one(*x, f);
            law_first_to_ask_takes(r.imports, exported_word(*x));
        },
        Run::Join(a, b) => {
            Seq::filter_distributes_over_add(a@, b@, f);
            lemma_bindings_len(r, *a);
            let n = asked_for(r.imports, a@).len();
            if i < n {
                law_each_taken_export_is_bound(r, *a, i, k);
            } else {
                law_each_taken_export_is_bound(r, *b, i - n, k);
            }
        },
    }
}

proof fn lemma_filter_one(x: ExportSpecifier, f: spec_fn(ExportSpecifier) -> bool)
    ensures
        seq![x].filter(f) == (if f(x) {
            seq![x]
        } else {
            Seq::empty()
        }),
{
    reveal(Seq::filter);
    assert(seq![x].drop_last() == Seq::<ExportSpecifier>::empty());
    assert(seq![x].drop_last().filter(f) == Seq::<ExportSpecifier>::empty());
}

proof fn lemma_bindings_len(r: Renaming, specifiers: Run<ExportSpecifier>)
    ensures
        bindings(r, specifiers)@.len() == asked_for(r.imports, specifiers@).len(),
    decreases specifiers,
{
    let f = |x: ExportSpecifier| is_asked_for(r.imports, exported_word(x));
    match specifiers {
        Run::Empty => {
            reveal(Seq::filter);
        },
        Run::One(x) => {
            lemma_asked(r.imports, exported_word(*x));
            lemma_filter_one(*x, f);
        },
        Run::Join(a, b) => {
            Seq::filter_distributes_over_add(a@, b@, f);
            lemma_bindings_len(r, *a);
            lemma_bindings_len(r, *b);
        },
    }
}

/// An exported class or function turns into a plain declaration of the same class
/// or function. Only its name is renamed.
pub proof fn law_exported_class_or_function(r: Renaming, span: Span, decl: Decl)
    ensures
        ({
            let item = ModuleItem::ModuleDecl(ModuleDecl::ExportDecl { span, decl });
            &&& decl matches Decl::Class(c) ==> extra(r, item) is None && renamed_item(r, item)
                == ModuleItem::Stmt(
                Stmt::Decl(
                    Decl::Class(
                        ClassDecl {
                            ident: actual_ident(r.mark, r.imports, renamed_ident(r, c.ident)),
                            declare: c.declare,
                            class: c.class,
                        },
                    ),
                ),
            )
            &&& decl matches Decl::Fn(f) ==> extra(r, item) is None && renamed_item(r, item)
                == ModuleItem::Stmt(
                Stmt::Decl(
                    Decl::Fn(
                        FnDecl {
                            ident: actual_ident(r.mark, r.imports, renamed_ident(r, f.ident)),
                            declare: f.declare,
                            function: f.function,
                        },
                    ),
                ),
            )
        }),
{
}

/// Exported variables stay exported, by the same kind of declaration, with as many
/// declarators in the same order. Each declarator has the value it had, in which
/// only namespaces are renamed.
pub proof fn law_exported_variables(r: Renaming, span: Span, v: VarDecl, k: int)
    requires
        0 <= k < v.decls@.len(),
    ensures
        ({
            let item = ModuleItem::ModuleDecl(
                ModuleDecl::ExportDecl { span, decl: Decl::Var(v) },
            );
            &&& extra(r, item) is None
            &&& renamed_item(r, item) matches ModuleItem::ModuleDecl(
                ModuleDecl::ExportDecl { span: s, decl: Decl::Var(w) },
            ) && s == span && w.span == v.span && w.kind == v.kind && w.declare == v.declare
                && w.decls@.len() == v.decls@.len() && w.decls@[k].span == v.decls@[k].span
                && w.decls@[k].definite == v.decls@[k].definite && w.decls@[k].init == (
            match v.decls@[k].init {
                Some(init) => Some(renamed_expr(r, init)),
                None => None,
            }) && w.decls@[k].name == actual_pat(
                r.mark,
                r.imports,
                renamed_pat(r, v.decls@[k].name),
            )
        }),
{
    lemma_renamed_declarators_view(r, v.decls);
    law_declarators_keep_their_values(
        r.mark,
        r.imports,
        renamed_declarators(r, v.decls),
        k,
    );
    assert(renamed_declarators(r, v.decls)@[k] == renamed_declarator(r, v.decls@[k]));
}

proof fn lemma_renamed_declarators_view(r: Renaming, decls: Run<VarDeclarator>)
    ensures
        renamed_declarators(r, decls)@ == decls@.map_values(
            |x: VarDeclarator| renamed_declarator(r, x),
        ),
    decreases decls,
{
    match decls {
        Run::Empty => {},
        Run::One(_) => {},
        Run::Join(a, b) => {
            lemma_renamed_declarators_view(r, *a);
            lemma_renamed_declarators_view(r, *b);
        },
    }
}

/// `export default` of a value binds the importer's word for it, with the mark on
/// it, to that value by `const`, if the importer asks for it. Else the value is
/// only evaluated.
pub proof fn law_exported_default_value(r: Renaming, span: Span, expr: Expr, k: int)
    ensures
        ({
            let item = ModuleItem::ModuleDecl(ModuleDecl::ExportDefaultExpr { span, expr });
            &&& extra(r, item) is None
            &&& !is_asked_for(r.imports, Word(0)) ==> renamed_item(r, item) == ModuleItem::Stmt(
                Stmt::Expr { span, expr: renamed_expr(r, expr) },
            )
            &&& asks_first(r.imports, Word(0), k) ==> (renamed_item(r, item)
                matches ModuleItem::Stmt(Stmt::Decl(Decl::Var(v))) && v.span == span && v.kind
                == VarDeclKind::Const && !v.declare && v.decls@.len() == 1 && binds_local(
                v.decls@[0],
                r.mark,
                r.imports[k]->Specific_local,
                Span { lo: 0, hi: 0, ctxt: SyntaxContext::Empty },
                renamed_expr(r, expr),
            ))
        }),
{
    law_first_to_ask_takes(r.imports, Word(0));
    lemma_asked(r.imports, Word(0));
}

/// `export { .. }` leaves an empty statement at its place. If the importer asks for
/// any of what it exports, a `const` declaration of all that it asks for follows.
pub proof fn law_exported_names(r: Renaming, e: NamedExport)
    requires
        e.src is None,
    ensures
        ({
            let item = ModuleItem::ModuleDecl(ModuleDecl::ExportNamed(e));
            let taken = bindings(r, renamed_specifiers(r, e.specifiers));
            &&& renamed_item(r, item) == ModuleItem::Stmt(Stmt::Empty { span: e.span })
            &&& taken@.len() == 0 ==> extra(r, item) is None
            &&& taken@.len() > 0 ==> extra(r, item) == Some(
                Stmt::Decl(
                    Decl::Var(
                        VarDecl {
                            span: e.span,
                            kind: VarDeclKind::Const,
                            declare: false,
                            decls: taken,
                        },
                    ),
                ),
            )
        }),
{
}

/// Every other item keeps its kind and its place: in it, only namespaces are
/// renamed, and nothing follows it.
pub proof fn law_other_items(r: Renaming, item: ModuleItem)
    ensures
        item matches ModuleItem::Stmt(stmt) ==> extra(r, item) is None && renamed_item(r, item)
            == ModuleItem::Stmt(renamed_stmt(r, stmt)),
        item matches ModuleItem::ModuleDecl(decl) ==> match decl {
            ModuleDecl::Import(n) => extra(r, item) is None && renamed_item(r, item)
                == ModuleItem::ModuleDecl(
                ModuleDecl::Import(
                    ImportDecl {
                        origin: n.origin,
                        span: n.span,
                        specifiers: renamed_nodes(r, n.specifiers),
                        src: n.src,
                        type_only: n.type_only,
                    },
                ),
            ),
            ModuleDecl::ExportDecl { span, decl } => !(decl is Class) && !(decl is Fn) && !(
            decl is Var) ==> extra(r, item) is None && renamed_item(r, item)
                == ModuleItem::ModuleDecl(
                ModuleDecl::ExportDecl { span, decl: renamed_decl(r, decl) },
            ),
            ModuleDecl::ExportNamed(e) => e.src is Some ==> extra(r, item) is None && renamed_item(
                r,
                item,
            ) == ModuleItem::ModuleDecl(
                ModuleDecl::ExportNamed(
                    NamedExport {
                        span: e.span,
                        specifiers: renamed_specifiers(r, e.specifiers),
                        src: e.src,
                        type_only: e.type_only,
                    },
                ),
            ),
            ModuleDecl::ExportDefaultDecl { span, decl } => extra(r, item) is None && renamed_item(
                r,
                item,
            ) == ModuleItem::ModuleDecl(
                ModuleDecl::ExportDefaultDecl { span, decl: renamed_default_decl(r, decl) },
            ),
            ModuleDecl::ExportDefaultExpr { .. } => true,
            ModuleDecl::ExportAll { .. } => extra(r, item) is None && renamed_item(r, item) == item,
            ModuleDecl::TsImportEquals(n) => extra(r, item) is None && renamed_item(r, item)
                == ModuleItem::ModuleDecl(ModuleDecl::TsImportEquals(renamed_syntax(r, n))),
            ModuleDecl::TsExportAssignment(n) => extra(r, item) is None && renamed_item(r, item)
                == ModuleItem::ModuleDecl(ModuleDecl::TsExportAssignment(renamed_syntax(r, n))),
            ModuleDecl::TsNamespaceExport(n) => extra(r, item) is None && renamed_item(r, item)
                == ModuleItem::ModuleDecl(ModuleDecl::TsNamespaceExport(renamed_syntax(r, n))),
        },
{
}

/// Renaming a module renames its items in order, each followed by what it asks for,
/// and keeps its span and its first line.
pub proof fn law_renamed_module(r: Renaming, module: Module)
    ensures
        renamed_module(r, module).span == module.span,
        renamed_module(r, module).shebang == module.shebang,
        renamed_module(r, module).body@ == module.body@.flat_map(
            |item: ModuleItem|
                match extra(r, item) {
                    Some(stmt) => seq![renamed_item(r, item), ModuleItem::Stmt(stmt)],
                    None => seq![renamed_item(r, item)],
                },
        ),
{
    lemma_renamed_in_order(r, module.body);
}

proof fn lemma_renamed_in_order(r: Renaming, items: Run<ModuleItem>)
    ensures
        renamed_items(r, items)@ == items@.flat_map(
            |item: ModuleItem|
                match extra(r, item) {
                    Some(stmt) => seq![renamed_item(r, item), ModuleItem::Stmt(stmt)],
                    None => seq![renamed_item(r, item)],
                },
        ),
    decreases items,
{
    let f = |item: ModuleItem|
        match extra(r, item) {
            Some(stmt) => seq![renamed_item(r, item), ModuleItem::Stmt(stmt)],
            None => seq![renamed_item(r, item)],
        };
    match items {
        Run::Empty => {
            assert(items@.map_values(f).len() == 0);
        },
        Run::One(x) => {
            reveal_with_fuel(run_elements, 2);
            items@.lemma_flat_map_singleton(f);
            assert(items@[0] == *x);
        },
        Run::Join(a, b) => {
            lemma_renamed_in_order(r, *a);
            lemma_renamed_in_order(r, *b);
            lemma_flat_map_add(a@, b@, f);
        },
    }
}

/// A renamer renames to the names that its specifiers bind, with its mark.
pub proof fn law_what_a_renamer_renames_to(renamer: ExportRenamer)
    ensures
        renamer.renaming().mark == renamer.mark@,
        renamer.renaming().imports == renamer.imports@,
{
}

} // verus!
