//! What marking a module keeps.
use crate::hygiene::SyntaxContext;
use crate::local_marker::{
    Marking, bound_catch_clause, bound_class_decl, bound_class_expr, bound_constructor, bound_decl,
    bound_declarator, bound_declarators, bound_default_decl, bound_expr, bound_fn_decl,
    bound_fn_expr, bound_function, bound_item, bound_items, bound_labeled_stmt, bound_member_expr,
    bound_module_decl, bound_node, bound_nodes, bound_pat, bound_pats, bound_setter_prop,
    bound_stmt, bound_syntax, bound_ts_module, bound_var_decl, marked_catch_clause,
    marked_class_decl, marked_class_expr, marked_constructor, marked_decl, marked_declarator,
    marked_declarators, marked_default_decl, marked_expr, marked_fn_decl, marked_fn_expr,
    marked_function, marked_ident, marked_item, marked_items, marked_labeled_stmt,
    marked_member_expr, marked_module, marked_module_decl, marked_node, marked_nodes, marked_pat,
    marked_pats, marked_setter_prop, marked_specifier, marked_specifiers, marked_stmt,
    marked_syntax, marked_ts_module, marked_var_decl,
};
use crate::pattern::{ident_ids, pats_ids};
use crate::run::{lemma_flat_map_add, Run};
use crate::syntax::{
    CatchClause, ClassDecl, ClassExpr, Constructor, Decl, DefaultDecl, ExportSpecifier, Expr,
    FnDecl, FnExpr, Function, Id, Ident, LabeledStmt, MemberExpr, Module, ModuleDecl, ModuleItem,
    Node, Pat, SetterProp, Stmt, Syntax, TsModule, VarDecl, VarDeclarator,
};
use vstd::prelude::*;

verus! {

proof fn lemma_marked_ident(m: Marking, ex: Seq<Id>, ident: Ident)
    ensures
        marked_ident(m, ex, marked_ident(m, ex, ident)) == marked_ident(m, ex, ident),
        m.specifiers.len() == 0 ==> marked_ident(m, ex, ident) == ident,
{
    let marked = marked_ident(m, ex, ident);
    assert(marked.spec_with_ctxt(SyntaxContext::Marked(m.mark)) == marked || marked == ident);
}

pub(crate) proof fn lemma_marked_nodes(m: Marking, ex: Seq<Id>, run: Run<Node>)
    ensures
        bound_nodes(marked_nodes(m, ex, run)) == bound_nodes(run),
        marked_nodes(m, ex, marked_nodes(m, ex, run)) == marked_nodes(m, ex, run),
        m.specifiers.len() == 0 ==> marked_nodes(m, ex, run) == run,
    decreases run,
{
    match run {
        Run::Empty => {},
        Run::One(x) => lemma_marked_node(m, ex, *x),
        Run::Join(a, b) => {
            lemma_marked_nodes(m, ex, *a);
            lemma_marked_nodes(m, ex + bound_nodes(*a), *b);
        },
    }
}

proof fn lemma_marked_node(m: Marking, ex: Seq<Id>, node: Node)
    ensures
        bound_node(marked_node(m, ex, node)) == bound_node(node),
        marked_node(m, ex, marked_node(m, ex, node)) == marked_node(m, ex, node),
        m.specifiers.len() == 0 ==> marked_node(m, ex, node) == node,
    decreases node,
{
    match node {
        Node::Ident(ident) => lemma_marked_ident(m, ex, ident),
        Node::Parts(parts) => lemma_marked_nodes(m, ex, parts),
        Node::CatchClause(n) => lemma_marked_catch_clause(m, ex, n),
        Node::ClassDecl(n) => lemma_marked_class_decl(m, ex, n),
        Node::ClassExpr(n) => lemma_marked_class_expr(m, ex, n),
        Node::Constructor(n) => lemma_marked_constructor(m, ex, n),
        Node::FnDecl(n) => lemma_marked_fn_decl(m, ex, n),
        Node::FnExpr(n) => lemma_marked_fn_expr(m, ex, n),
        Node::Function(n) => lemma_marked_function(m, ex, n),
        Node::LabeledStmt(n) => lemma_marked_labeled_stmt(m, ex, n),
        Node::MemberExpr(n) => lemma_marked_member_expr(m, ex, n),
        Node::SetterProp(n) => lemma_marked_setter_prop(m, ex, n),
        Node::TsModule(n) => lemma_marked_ts_module(m, ex, n),
    }
}

proof fn lemma_marked_syntax(m: Marking, ex: Seq<Id>, node: Syntax)
    ensures
        bound_syntax(marked_syntax(m, ex, node)) == bound_syntax(node),
        marked_syntax(m, ex, marked_syntax(m, ex, node)) == marked_syntax(m, ex, node),
        m.specifiers.len() == 0 ==> marked_syntax(m, ex, node) == node,
    decreases node,
{
    lemma_marked_nodes(m, ex, node.parts);
}

proof fn lemma_marked_catch_clause(m: Marking, ex: Seq<Id>, node: CatchClause)
    ensures
        bound_catch_clause(marked_catch_clause(m, ex, node)) == bound_catch_clause(node),
        marked_catch_clause(m, ex, marked_catch_clause(m, ex, node)) == marked_catch_clause(
            m,
            ex,
            node,
        ),
        m.specifiers.len() == 0 ==> marked_catch_clause(m, ex, node) == node,
    decreases node,
{
    lemma_marked_nodes(m, ex + pats_ids(node.param), node.body);
}

proof fn lemma_marked_class_decl(m: Marking, ex: Seq<Id>, node: ClassDecl)
    ensures
        bound_class_decl(marked_class_decl(m, ex, node)) == bound_class_decl(node),
        marked_class_decl(m, ex, marked_class_decl(m, ex, node)) == marked_class_decl(m, ex, node),
        m.specifiers.len() == 0 ==> marked_class_decl(m, ex, node) == node,
    decreases node,
{
    lemma_marked_syntax(m, ex + seq![node.ident.spec_id()], node.class);
}

proof fn lemma_marked_class_expr(m: Marking, ex: Seq<Id>, node: ClassExpr)
    ensures
        bound_class_expr(marked_class_expr(m, ex, node)) == bound_class_expr(node),
        marked_class_expr(m, ex, marked_class_expr(m, ex, node)) == marked_class_expr(m, ex, node),
        m.specifiers.len() == 0 ==> marked_class_expr(m, ex, node) == node,
    decreases node,
{
    lemma_marked_syntax(m, ex + ident_ids(node.ident), node.class);
}

proof fn lemma_marked_constructor(m: Marking, ex: Seq<Id>, node: Constructor)
    ensures
        bound_constructor(marked_constructor(m, ex, node)) == bound_constructor(node),
        marked_constructor(m, ex, marked_constructor(m, ex, node)) == marked_constructor(
            m,
            ex,
            node,
        ),
        m.specifiers.len() == 0 ==> marked_constructor(m, ex, node) == node,
    decreases node,
{
    lemma_marked_nodes(m, ex + pats_ids(node.params), node.body);
}

proof fn lemma_marked_function(m: Marking, ex: Seq<Id>, node: Function)
    ensures
        bound_function(marked_function(m, ex, node)) == bound_function(node),
        marked_function(m, ex, marked_function(m, ex, node)) == marked_function(m, ex, node),
        m.specifiers.len() == 0 ==> marked_function(m, ex, node) == node,
    decreases node,
{
    lemma_marked_nodes(m, ex + pats_ids(node.params), node.body);
}

proof fn lemma_marked_fn_decl(m: Marking, ex: Seq<Id>, node: FnDecl)
    ensures
        bound_fn_decl(marked_fn_decl(m, ex, node)) == bound_fn_decl(node),
        marked_fn_decl(m, ex, marked_fn_decl(m, ex, node)) == marked_fn_decl(m, ex, node),
        m.specifiers.len() == 0 ==> marked_fn_decl(m, ex, node) == node,
    decreases node,
{
    lemma_marked_function(m, ex + seq![node.ident.spec_id()], node.function);
}

proof fn lemma_marked_fn_expr(m: Marking, ex: Seq<Id>, node: FnExpr)
    ensures
        bound_fn_expr(marked_fn_expr(m, ex, node)) == bound_fn_expr(node),
        marked_fn_expr(m, ex, marked_fn_expr(m, ex, node)) == marked_fn_expr(m, ex, node),
        m.specifiers.len() == 0 ==> marked_fn_expr(m, ex, node) == node,
    decreases node,
{
    lemma_marked_function(m, ex + ident_ids(node.ident), node.function);
}

proof fn lemma_marked_labeled_stmt(m: Marking, ex: Seq<Id>, node: LabeledStmt)
    ensures
        bound_labeled_stmt(marked_labeled_stmt(m, ex, node)) == bound_labeled_stmt(node),
        marked_labeled_stmt(m, ex, marked_labeled_stmt(m, ex, node)) == marked_labeled_stmt(
            m,
            ex,
            node,
        ),
        m.specifiers.len() == 0 ==> marked_labeled_stmt(m, ex, node) == node,
    decreases node,
{
    lemma_marked_nodes(m, ex, node.body);
}

proof fn lemma_marked_member_expr(m: Marking, ex: Seq<Id>, node: MemberExpr)
    ensures
        bound_member_expr(marked_member_expr(m, ex, node)) == bound_member_expr(node),
        marked_member_expr(m, ex, marked_member_expr(m, ex, node)) == marked_member_expr(
            m,
            ex,
            node,
        ),
        m.specifiers.len() == 0 ==> marked_member_expr(m, ex, node) == node,
    decreases node,
{
    lemma_marked_nodes(m, ex, node.obj);
    if node.computed {
        lemma_marked_nodes(m, ex + bound_nodes(node.obj), node.prop);
    }
}

proof fn lemma_marked_setter_prop(m: Marking, ex: Seq<Id>, node: SetterProp)
    ensures
        bound_setter_prop(marked_setter_prop(m, ex, node)) == bound_setter_prop(node),
        marked_setter_prop(m, ex, marked_setter_prop(m, ex, node)) == marked_setter_prop(
            m,
            ex,
            node,
        ),
        m.specifiers.len() == 0 ==> marked_setter_prop(m, ex, node) == node,
    decreases node,
{
    lemma_marked_nodes(m, ex + pats_ids(node.param), node.body);
}

proof fn lemma_marked_expr(m: Marking, ex: Seq<Id>, node: Expr)
    ensures
        bound_expr(marked_expr(m, ex, node)) == bound_expr(node),
        marked_expr(m, ex, marked_expr(m, ex, node)) == marked_expr(m, ex, node),
        m.specifiers.len() == 0 ==> marked_expr(m, ex, node) == node,
    decreases node,
{
    match node {
        Expr::Ident(ident) => lemma_marked_ident(m, ex, ident),
        Expr::Other(syntax) => lemma_marked_syntax(m, ex, syntax),
    }
}

pub(crate) proof fn lemma_marked_pats(m: Marking, ex: Seq<Id>, run: Run<Pat>)
    ensures
        bound_pats(marked_pats(m, ex, run)) == bound_pats(run),
        marked_pats(m, ex, marked_pats(m, ex, run)) == marked_pats(m, ex, run),
        m.specifiers.len() == 0 ==> marked_pats(m, ex, run) == run,
    decreases run,
{
    match run {
        Run::Empty => {},
        Run::One(x) => lemma_marked_pat(m, ex, *x),
        Run::Join(a, b) => {
            lemma_marked_pats(m, ex, *a);
            lemma_marked_pats(m, ex + bound_pats(*a), *b);
        },
    }
}

pub(crate) proof fn lemma_marked_pat(m: Marking, ex: Seq<Id>, node: Pat)
    ensures
        bound_pat(marked_pat(m, ex, node)) == bound_pat(node),
        marked_pat(m, ex, marked_pat(m, ex, node)) == marked_pat(m, ex, node),
        m.specifiers.len() == 0 ==> marked_pat(m, ex, node) == node,
    decreases node,
{
    match node {
        Pat::Ident(ident) => lemma_marked_ident(m, ex, ident),
        Pat::Expr(expr) => lemma_marked_expr(m, ex, expr),
        Pat::PropName(parts) => lemma_marked_pats(m, ex, parts),
        Pat::Type(parts) => lemma_marked_pats(m, ex, parts),
        Pat::Other { origin, parts } => lemma_marked_pats(m, ex, parts),
    }
}

proof fn lemma_marked_declarator(m: Marking, ex: Seq<Id>, node: VarDeclarator)
    ensures
        bound_declarator(marked_declarator(m, ex, node)) == bound_declarator(node),
        marked_declarator(m, ex, marked_declarator(m, ex, node)) == marked_declarator(m, ex, node),
        m.specifiers.len() == 0 ==> marked_declarator(m, ex, node) == node,
    decreases node,
{
    lemma_marked_pat(m, ex, node.name);
    match node.init {
        Some(init) => lemma_marked_expr(m, ex + bound_pat(node.name), init),
        None => {},
    }
}

pub(crate) proof fn lemma_marked_declarators(m: Marking, ex: Seq<Id>, run: Run<VarDeclarator>)
    ensures
        bound_declarators(marked_declarators(m, ex, run)) == bound_declarators(run),
        marked_declarators(m, ex, marked_declarators(m, ex, run)) == marked_declarators(m, ex, run),
        m.specifiers.len() == 0 ==> marked_declarators(m, ex, run) == run,
    decreases run,
{
    match run {
        Run::Empty => {},
        Run::One(x) => lemma_marked_declarator(m, ex, *x),
        Run::Join(a, b) => {
            lemma_marked_declarators(m, ex, *a);
            lemma_marked_declarators(m, ex + bound_declarators(*a), *b);
        },
    }
}

proof fn lemma_marked_var_decl(m: Marking, ex: Seq<Id>, node: VarDecl)
    ensures
        bound_var_decl(marked_var_decl(m, ex, node)) == bound_var_decl(node),
        marked_var_decl(m, ex, marked_var_decl(m, ex, node)) == marked_var_decl(m, ex, node),
        m.specifiers.len() == 0 ==> marked_var_decl(m, ex, node) == node,
    decreases node,
{
    lemma_marked_declarators(m, ex, node.decls);
}

proof fn lemma_marked_ts_module(m: Marking, ex: Seq<Id>, node: TsModule)
    ensures
        bound_ts_module(marked_ts_module(m, ex, node)) == bound_ts_module(node),
        marked_ts_module(m, ex, marked_ts_module(m, ex, node)) == marked_ts_module(m, ex, node),
        m.specifiers.len() == 0 ==> marked_ts_module(m, ex, node) == node,
    decreases node,
{
    lemma_marked_nodes(m, ex, node.id);
    lemma_marked_items(m, ex + bound_nodes(node.id), node.body);
}

proof fn lemma_marked_decl(m: Marking, ex: Seq<Id>, node: Decl)
    ensures
        bound_decl(marked_decl(m, ex, node)) == bound_decl(node),
        marked_decl(m, ex, marked_decl(m, ex, node)) == marked_decl(m, ex, node),
        m.specifiers.len() == 0 ==> marked_decl(m, ex, node) == node,
    decreases node,
{
    match node {
        Decl::Class(n) => lemma_marked_class_decl(m, ex, n),
        Decl::Fn(n) => lemma_marked_fn_decl(m, ex, n),
        Decl::Var(n) => lemma_marked_var_decl(m, ex, n),
        Decl::TsInterface(n) => lemma_marked_syntax(m, ex, n),
        Decl::TsTypeAlias(n) => lemma_marked_syntax(m, ex, n),
        Decl::TsEnum(n) => lemma_marked_syntax(m, ex, n),
        Decl::TsModule(n) => lemma_marked_ts_module(m, ex, n),
    }
}

proof fn lemma_marked_stmt(m: Marking, ex: Seq<Id>, node: Stmt)
    ensures
        bound_stmt(marked_stmt(m, ex, node)) == bound_stmt(node),
        marked_stmt(m, ex, marked_stmt(m, ex, node)) == marked_stmt(m, ex, node),
        m.specifiers.len() == 0 ==> marked_stmt(m, ex, node) == node,
    decreases node,
{
    match node {
        Stmt::Empty { span } => {},
        Stmt::Decl(decl) => lemma_marked_decl(m, ex, decl),
        Stmt::Expr { span, expr } => lemma_marked_expr(m, ex, expr),
        Stmt::Other(syntax) => lemma_marked_syntax(m, ex, syntax),
    }
}

proof fn lemma_marked_specifier(m: Marking, ex: Seq<Id>, node: ExportSpecifier)
    ensures
        marked_specifier(m, ex, marked_specifier(m, ex, node)) == marked_specifier(m, ex, node),
        m.specifiers.len() == 0 ==> marked_specifier(m, ex, node) == node,
{
    match node {
        ExportSpecifier::Namespace { span, name } => lemma_marked_ident(m, ex, name),
        ExportSpecifier::Default { exported } => lemma_marked_ident(m, ex, exported),
        ExportSpecifier::Named { span, orig, exported } => {
            lemma_marked_ident(m, ex, orig);
            match exported {
                Some(exported) => lemma_marked_ident(m, ex, exported),
                None => {},
            }
        },
    }
}

proof fn lemma_marked_specifiers(m: Marking, ex: Seq<Id>, run: Run<ExportSpecifier>)
    ensures
        marked_specifiers(m, ex, marked_specifiers(m, ex, run)) == marked_specifiers(m, ex, run),
        m.specifiers.len() == 0 ==> marked_specifiers(m, ex, run) == run,
    decreases run,
{
    match run {
        Run::Empty => {},
        Run::One(x) => lemma_marked_specifier(m, ex, *x),
        Run::Join(a, b) => {
            lemma_marked_specifiers(m, ex, *a);
            lemma_marked_specifiers(m, ex, *b);
        },
    }
}

proof fn lemma_marked_default_decl(m: Marking, ex: Seq<Id>, node: DefaultDecl)
    ensures
        bound_default_decl(marked_default_decl(m, ex, node)) == bound_default_decl(node),
        marked_default_decl(m, ex, marked_default_decl(m, ex, node)) == marked_default_decl(
            m,
            ex,
            node,
        ),
        m.specifiers.len() == 0 ==> marked_default_decl(m, ex, node) == node,
    decreases node,
{
    match node {
        DefaultDecl::Class(n) => lemma_marked_class_expr(m, ex, n),
        DefaultDecl::Fn(n) => lemma_marked_fn_expr(m, ex, n),
        DefaultDecl::TsInterfaceDecl(n) => lemma_marked_syntax(m, ex, n),
    }
}

proof fn lemma_marked_module_decl(m: Marking, ex: Seq<Id>, node: ModuleDecl)
    ensures
        bound_module_decl(marked_module_decl(m, ex, node)) == bound_module_decl(node),
        marked_module_decl(m, ex, marked_module_decl(m, ex, node)) == marked_module_decl(
            m,
            ex,
            node,
        ),
        m.specifiers.len() == 0 ==> marked_module_decl(m, ex, node) == node,
    decreases node,
{
    match node {
        ModuleDecl::Import(n) => lemma_marked_nodes(m, ex, n.specifiers),
        ModuleDecl::ExportDecl { span, decl } => lemma_marked_decl(m, ex, decl),
        ModuleDecl::ExportNamed(n) => lemma_marked_specifiers(m, ex, n.specifiers),
        ModuleDecl::ExportDefaultDecl { span, decl } => lemma_marked_default_decl(m, ex, decl),
        ModuleDecl::ExportDefaultExpr { span, expr } => lemma_marked_expr(m, ex, expr),
        ModuleDecl::ExportAll { span, src } => {},
        ModuleDecl::TsImportEquals(n) => lemma_marked_syntax(m, ex, n),
        ModuleDecl::TsExportAssignment(n) => lemma_marked_syntax(m, ex, n),
        ModuleDecl::TsNamespaceExport(n) => lemma_marked_syntax(m, ex, n),
    }
}

proof fn lemma_marked_item(m: Marking, ex: Seq<Id>, node: ModuleItem)
    ensures
        bound_item(marked_item(m, ex, node)) == bound_item(node),
        marked_item(m, ex, marked_item(m, ex, node)) == marked_item(m, ex, node),
        m.specifiers.len() == 0 ==> marked_item(m, ex, node) == node,
    decreases node,
{
    match node {
        ModuleItem::ModuleDecl(decl) => lemma_marked_module_decl(m, ex, decl),
        ModuleItem::Stmt(stmt) => lemma_marked_stmt(m, ex, stmt),
    }
}

pub(crate) proof fn lemma_marked_items(m: Marking, ex: Seq<Id>, run: Run<ModuleItem>)
    ensures
        bound_items(marked_items(m, ex, run)) == bound_items(run),
        marked_items(m, ex, marked_items(m, ex, run)) == marked_items(m, ex, run),
        m.specifiers.len() == 0 ==> marked_items(m, ex, run) == run,
    decreases run,
{
    match run {
        Run::Empty => {},
        Run::One(x) => lemma_marked_item(m, ex, *x),
        Run::Join(a, b) => {
            lemma_marked_items(m, ex, *a);
            lemma_marked_items(m, ex + bound_items(*a), *b);
        },
    }
}

/// Marking a module a second time, as for another import of the same names,
/// changes nothing.
pub proof fn law_marking_is_idempotent(m: Marking, ex: Seq<Id>, module: Module)
    ensures
        marked_module(m, ex, marked_module(m, ex, module)) == marked_module(m, ex, module),
{
    lemma_marked_items(m, ex, module.body);
}

/// Marking keeps the names that a module binds: what shadows an imported name
/// before marking shadows it afterwards.
pub proof fn law_marking_keeps_bound_names(m: Marking, ex: Seq<Id>, module: Module)
    ensures
        bound_items(marked_module(m, ex, module).body) == bound_items(module.body),
{
    lemma_marked_items(m, ex, module.body);
}

/// Each item of a module is marked under the names that the items before it
/// bind.
pub proof fn law_marked_in_order(m: Marking, ex: Seq<Id>, items: Run<ModuleItem>, i: int)
    requires
        0 <= i < items@.len(),
    ensures
        marked_items(m, ex, items)@.len() == items@.len(),
        marked_items(m, ex, items)@[i] == marked_item(
            m,
            ex + items@.take(i).flat_map(|item: ModuleItem| bound_item(item)),
            items@[i],
        ),
    decreases items,
{
    let f = |item: ModuleItem| bound_item(item);
    lemma_marked_len(m, ex, items);
    match items {
        Run::Empty => {},
        Run::One(x) => {
            assert(items@.take(0).map_values(f).len() == 0);
            assert(ex + items@.take(0).flat_map(f) == ex);
            assert(items@[0] == *x);
        },
        Run::Join(a, b) => {
            lemma_marked_len(m, ex, *a);
            let rest = ex + bound_items(*a);
            if i < a@.len() {
                law_marked_in_order(m, ex, *a, i);
                assert(items@.take(i) == a@.take(i));
            } else {
                let j = i - a@.len();
                law_marked_in_order(m, rest, *b, j);
                lemma_bound_items(*a);
                lemma_flat_map_add(a@, b@.take(j), f);
                assert(items@.take(i) == a@ + b@.take(j));
                assert(ex + items@.take(i).flat_map(f) == rest + b@.take(j).flat_map(f));
            }
        },
    }
}

pub proof fn lemma_marked_len(m: Marking, ex: Seq<Id>, items: Run<ModuleItem>)
    ensures
        marked_items(m, ex, items)@.len() == items@.len(),
    decreases items,
{
    match items {
        Run::Empty => {},
        Run::One(_) => {},
        Run::Join(a, b) => {
            lemma_marked_len(m, ex, *a);
            lemma_marked_len(m, ex + bound_items(*a), *b);
        },
    }
}

proof fn lemma_bound_items(items: Run<ModuleItem>)
    ensures
        bound_items(items) == items@.flat_map(|item: ModuleItem| bound_item(item)),
    decreases items,
{
    let f = |item: ModuleItem| bound_item(item);
    match items {
        Run::Empty => {
            assert(items@.map_values(f).len() == 0);
        },
        Run::One(x) => {
            items@.lemma_flat_map_singleton(f);
            assert(items@[0] == *x);
        },
        Run::Join(a, b) => {
            lemma_bound_items(*a);
            lemma_bound_items(*b);
            lemma_flat_map_add(a@, b@, f);
        },
    }
}

/// Without specifiers, marking changes nothing.
pub proof fn law_marking_without_specifiers(m: Marking, ex: Seq<Id>, module: Module)
    requires
        m.specifiers.len() == 0,
    ensures
        marked_module(m, ex, module) == module,
{
    lemma_marked_items(m, ex, module.body);
}

} // verus!
