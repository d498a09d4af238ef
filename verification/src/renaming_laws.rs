//! What renaming leaves alone.
use crate::actual_marker::{actual_ident, local_name};
use crate::export_renamer::{
    binding, bindings, const_decl, exported_ident, exported_name, extra, renamed_catch_clause,
    renamed_class_decl, renamed_class_expr, renamed_decl, renamed_declarator, renamed_declarators,
    renamed_default_decl, renamed_expr, renamed_fn_decl, renamed_fn_expr, renamed_ident,
    renamed_item, renamed_items, renamed_labeled_stmt, renamed_member_expr, renamed_module,
    renamed_node, renamed_nodes, renamed_opt_ident, renamed_pat, renamed_pats, renamed_setter_prop,
    renamed_specifier, renamed_specifiers, renamed_stmt, renamed_syntax, renamed_ts_module,
    renamed_var_decl, Renaming,
};
use crate::hygiene::Span;
use crate::run::Run;
use crate::syntax::{
    CatchClause, ClassDecl, ClassExpr, Decl, DefaultDecl, ExportSpecifier, Expr, FnDecl, FnExpr,
    Id, Ident, LabeledStmt, MemberExpr, Module, ModuleDecl, ModuleItem, Node, Pat, SetterProp,
    Stmt, Syntax, TsModule, VarDecl, VarDeclKind, VarDeclarator, Word,
};
use vstd::prelude::*;

verus! {

/// Whether an identifier holds no namespace outside classes and functions.
pub open spec fn plain_ident(node: Ident) -> bool
    decreases node,
{
    match node.type_ann {
        Some(ann) => plain_syntax(*ann),
        None => true,
    }
}

/// Whether an optional identifier holds no namespace outside classes and
/// functions.
pub open spec fn plain_opt_ident(node: Option<Ident>) -> bool
    decreases node,
{
    match node {
        Some(ident) => plain_ident(ident),
        None => true,
    }
}

/// Whether a run of nodes holds no namespace outside classes and functions.
pub open spec fn plain_nodes(run: Run<Node>) -> bool
    decreases run,
{
    match run {
        Run::Empty => true,
        Run::One(x) => plain_node(*x),
        Run::Join(a, b) => plain_nodes(*a) && plain_nodes(*b),
    }
}

/// Whether a node holds no namespace outside classes and functions.
pub open spec fn plain_node(node: Node) -> bool
    decreases node,
{
    match node {
        Node::Ident(ident) => plain_ident(ident),
        Node::Parts(parts) => plain_nodes(parts),
        Node::CatchClause(n) => plain_catch_clause(n),
        Node::ClassDecl(n) => plain_class_decl(n),
        Node::ClassExpr(n) => plain_class_expr(n),
        Node::Constructor(_) => true,
        Node::FnDecl(n) => plain_fn_decl(n),
        Node::FnExpr(n) => plain_fn_expr(n),
        Node::Function(_) => true,
        Node::LabeledStmt(n) => plain_labeled_stmt(n),
        Node::MemberExpr(n) => plain_member_expr(n),
        Node::SetterProp(n) => plain_setter_prop(n),
        Node::TsModule(_) => false,
    }
}

/// Whether syntax holds no namespace outside classes and functions.
pub open spec fn plain_syntax(node: Syntax) -> bool
    decreases node,
{
    plain_nodes(node.parts)
}

/// Whether a catch clause holds no namespace outside classes and functions.
pub open spec fn plain_catch_clause(node: CatchClause) -> bool
    decreases node,
{
    plain_pats(node.param) && plain_nodes(node.body)
}

/// Whether a class declaration holds no namespace outside classes and
/// functions.
pub open spec fn plain_class_decl(node: ClassDecl) -> bool
    decreases node,
{
    plain_ident(node.ident)
}

/// Whether a class expression holds no namespace outside classes and functions.
pub open spec fn plain_class_expr(node: ClassExpr) -> bool
    decreases node,
{
    plain_opt_ident(node.ident)
}

/// Whether a function declaration holds no namespace outside classes and
/// functions.
pub open spec fn plain_fn_decl(node: FnDecl) -> bool
    decreases node,
{
    plain_ident(node.ident)
}

/// Whether a function expression holds no namespace outside classes and
/// functions.
pub open spec fn plain_fn_expr(node: FnExpr) -> bool
    decreases node,
{
    plain_opt_ident(node.ident)
}

/// Whether a labeled statement holds no namespace outside classes and
/// functions.
pub open spec fn plain_labeled_stmt(node: LabeledStmt) -> bool
    decreases node,
{
    plain_ident(node.label) && plain_nodes(node.body)
}

/// Whether a member expression holds no namespace outside classes and
/// functions.
pub open spec fn plain_member_expr(node: MemberExpr) -> bool
    decreases node,
{
    plain_nodes(node.obj) && plain_nodes(node.prop)
}

/// Whether a setter holds no namespace outside classes and functions.
pub open spec fn plain_setter_prop(node: SetterProp) -> bool
    decreases node,
{
    plain_nodes(node.key) && plain_pats(node.param) && plain_nodes(node.body)
}

/// Whether an expression holds no namespace outside classes and functions.
pub open spec fn plain_expr(node: Expr) -> bool
    decreases node,
{
    match node {
        Expr::Ident(ident) => plain_ident(ident),
        Expr::Other(syntax) => plain_syntax(syntax),
    }
}

/// Whether a run of patterns holds no namespace outside classes and functions.
pub open spec fn plain_pats(run: Run<Pat>) -> bool
    decreases run,
{
    match run {
        Run::Empty => true,
        Run::One(x) => plain_pat(*x),
        Run::Join(a, b) => plain_pats(*a) && plain_pats(*b),
    }
}

/// Whether a pattern holds no namespace outside classes and functions.
pub open spec fn plain_pat(node: Pat) -> bool
    decreases node,
{
    match node {
        Pat::Ident(ident) => plain_ident(ident),
        Pat::Expr(expr) => plain_expr(expr),
        Pat::PropName(parts) => plain_pats(parts),
        Pat::Type(parts) => plain_pats(parts),
        Pat::Other { origin, parts } => plain_pats(parts),
    }
}

/// Whether a declarator holds no namespace outside classes and functions.
pub open spec fn plain_declarator(node: VarDeclarator) -> bool
    decreases node,
{
    plain_pat(node.name) && (match node.init {
        Some(init) => plain_expr(init),
        None => true,
    })
}

/// Whether declarators holds no namespace outside classes and functions.
pub open spec fn plain_declarators(run: Run<VarDeclarator>) -> bool
    decreases run,
{
    match run {
        Run::Empty => true,
        Run::One(x) => plain_declarator(*x),
        Run::Join(a, b) => plain_declarators(*a) && plain_declarators(*b),
    }
}

/// Whether a variable declaration holds no namespace outside classes and
/// functions.
pub open spec fn plain_var_decl(node: VarDecl) -> bool
    decreases node,
{
    plain_declarators(node.decls)
}

/// Whether a declaration holds no namespace outside classes and functions.
pub open spec fn plain_decl(node: Decl) -> bool
    decreases node,
{
    match node {
        Decl::Class(n) => plain_class_decl(n),
        Decl::Fn(n) => plain_fn_decl(n),
        Decl::Var(n) => plain_var_decl(n),
        Decl::TsInterface(n) => plain_syntax(n),
        Decl::TsTypeAlias(n) => plain_syntax(n),
        Decl::TsEnum(n) => plain_syntax(n),
        Decl::TsModule(_) => false,
    }
}

/// Whether a statement holds no namespace outside classes and functions.
pub open spec fn plain_stmt(node: Stmt) -> bool
    decreases node,
{
    match node {
        Stmt::Empty { span } => true,
        Stmt::Decl(decl) => plain_decl(decl),
        Stmt::Expr { span, expr } => plain_expr(expr),
        Stmt::Other(syntax) => plain_syntax(syntax),
    }
}

/// Whether an export specifier holds no namespace outside classes and
/// functions.
pub open spec fn plain_specifier(node: ExportSpecifier) -> bool
    decreases node,
{
    match node {
        ExportSpecifier::Namespace { span, name } => plain_ident(name),
        ExportSpecifier::Default { exported } => plain_ident(exported),
        ExportSpecifier::Named { span, orig, exported } => plain_ident(orig) && plain_opt_ident(
            exported,
        ),
    }
}

/// Whether export specifiers holds no namespace outside classes and functions.
pub open spec fn plain_specifiers(run: Run<ExportSpecifier>) -> bool
    decreases run,
{
    match run {
        Run::Empty => true,
        Run::One(x) => plain_specifier(*x),
        Run::Join(a, b) => plain_specifiers(*a) && plain_specifiers(*b),
    }
}

/// Whether a default declaration holds no namespace outside classes and
/// functions.
pub open spec fn plain_default_decl(node: DefaultDecl) -> bool
    decreases node,
{
    match node {
        DefaultDecl::Class(n) => plain_class_expr(n),
        DefaultDecl::Fn(n) => plain_fn_expr(n),
        DefaultDecl::TsInterfaceDecl(n) => plain_syntax(n),
    }
}

/// Whether a module item holds no namespace outside classes and functions.
pub open spec fn plain_item(node: ModuleItem) -> bool
    decreases node,
{
    match node {
        ModuleItem::Stmt(stmt) => plain_stmt(stmt),
        ModuleItem::ModuleDecl(decl) => match decl {
            ModuleDecl::Import(n) => plain_nodes(n.specifiers),
            ModuleDecl::ExportDecl { span, decl } => plain_decl(decl),
            ModuleDecl::ExportNamed(n) => plain_specifiers(n.specifiers),
            ModuleDecl::ExportDefaultDecl { span, decl } => plain_default_decl(decl),
            ModuleDecl::ExportDefaultExpr { span, expr } => plain_expr(expr),
            ModuleDecl::ExportAll { span, src } => true,
            ModuleDecl::TsImportEquals(n) => plain_syntax(n),
            ModuleDecl::TsExportAssignment(n) => plain_syntax(n),
            ModuleDecl::TsNamespaceExport(n) => plain_syntax(n),
        },
    }
}

/// Whether an identifier exports no variables from a namespace outside classes
/// and functions.
pub open spec fn steady_ident(node: Ident) -> bool
    decreases node,
{
    match node.type_ann {
        Some(ann) => steady_syntax(*ann),
        None => true,
    }
}

/// Whether an optional identifier exports no variables from a namespace outside
/// classes and functions.
pub open spec fn steady_opt_ident(node: Option<Ident>) -> bool
    decreases node,
{
    match node {
        Some(ident) => steady_ident(ident),
        None => true,
    }
}

/// Whether a run of nodes exports no variables from a namespace outside classes
/// and functions.
pub open spec fn steady_nodes(run: Run<Node>) -> bool
    decreases run,
{
    match run {
        Run::Empty => true,
        Run::One(x) => steady_node(*x),
        Run::Join(a, b) => steady_nodes(*a) && steady_nodes(*b),
    }
}

/// Whether a node exports no variables from a namespace outside classes and
/// functions.
pub open spec fn steady_node(node: Node) -> bool
    decreases node,
{
    match node {
        Node::Ident(ident) => steady_ident(ident),
        Node::Parts(parts) => steady_nodes(parts),
        Node::CatchClause(n) => steady_catch_clause(n),
        Node::ClassDecl(n) => steady_class_decl(n),
        Node::ClassExpr(n) => steady_class_expr(n),
        Node::Constructor(_) => true,
        Node::FnDecl(n) => steady_fn_decl(n),
        Node::FnExpr(n) => steady_fn_expr(n),
        Node::Function(_) => true,
        Node::LabeledStmt(n) => steady_labeled_stmt(n),
        Node::MemberExpr(n) => steady_member_expr(n),
        Node::SetterProp(n) => steady_setter_prop(n),
        Node::TsModule(n) => steady_ts_module(n),
    }
}

/// Whether syntax exports no variables from a namespace outside classes and
/// functions.
pub open spec fn steady_syntax(node: Syntax) -> bool
    decreases node,
{
    steady_nodes(node.parts)
}

/// Whether a catch clause exports no variables from a namespace outside classes
/// and functions.
pub open spec fn steady_catch_clause(node: CatchClause) -> bool
    decreases node,
{
    steady_pats(node.param) && steady_nodes(node.body)
}

/// Whether a class declaration exports no variables from a namespace outside
/// classes and functions.
pub open spec fn steady_class_decl(node: ClassDecl) -> bool
    decreases node,
{
    steady_ident(node.ident)
}

/// Whether a class expression exports no variables from a namespace outside
/// classes and functions.
pub open spec fn steady_class_expr(node: ClassExpr) -> bool
    decreases node,
{
    steady_opt_ident(node.ident)
}

/// Whether a function declaration exports no variables from a namespace outside
/// classes and functions.
pub open spec fn steady_fn_decl(node: FnDecl) -> bool
    decreases node,
{
    steady_ident(node.ident)
}

/// Whether a function expression exports no variables from a namespace outside
/// classes and functions.
pub open spec fn steady_fn_expr(node: FnExpr) -> bool
    decreases node,
{
    steady_opt_ident(node.ident)
}

/// Whether a labeled statement exports no variables from a namespace outside
/// classes and functions.
pub open spec fn steady_labeled_stmt(node: LabeledStmt) -> bool
    decreases node,
{
    steady_ident(node.label) && steady_nodes(node.body)
}

/// Whether a member expression exports no variables from a namespace outside
/// classes and functions.
pub open spec fn steady_member_expr(node: MemberExpr) -> bool
    decreases node,
{
    steady_nodes(node.obj) && steady_nodes(node.prop)
}

/// Whether a setter exports no variables from a namespace outside classes and
/// functions.
pub open spec fn steady_setter_prop(node: SetterProp) -> bool
    decreases node,
{
    steady_nodes(node.key) && steady_pats(node.param) && steady_nodes(node.body)
}

/// Whether an expression exports no variables from a namespace outside classes
/// and functions.
pub open spec fn steady_expr(node: Expr) -> bool
    decreases node,
{
    match node {
        Expr::Ident(ident) => steady_ident(ident),
        Expr::Other(syntax) => steady_syntax(syntax),
    }
}

/// Whether a run of patterns exports no variables from a namespace outside
/// classes and functions.
pub open spec fn steady_pats(run: Run<Pat>) -> bool
    decreases run,
{
    match run {
        Run::Empty => true,
        Run::One(x) => steady_pat(*x),
        Run::Join(a, b) => steady_pats(*a) && steady_pats(*b),
    }
}

/// Whether a pattern exports no variables from a namespace outside classes and
/// functions.
pub open spec fn steady_pat(node: Pat) -> bool
    decreases node,
{
    match node {
        Pat::Ident(ident) => steady_ident(ident),
        Pat::Expr(expr) => steady_expr(expr),
        Pat::PropName(parts) => steady_pats(parts),
        Pat::Type(parts) => steady_pats(parts),
        Pat::Other { origin, parts } => steady_pats(parts),
    }
}

/// Whether a declarator exports no variables from a namespace outside classes
/// and functions.
pub open spec fn steady_declarator(node: VarDeclarator) -> bool
    decreases node,
{
    steady_pat(node.name) && (match node.init {
        Some(init) => steady_expr(init),
        None => true,
    })
}

/// Whether declarators exports no variables from a namespace outside classes
/// and functions.
pub open spec fn steady_declarators(run: Run<VarDeclarator>) -> bool
    decreases run,
{
    match run {
        Run::Empty => true,
        Run::One(x) => steady_declarator(*x),
        Run::Join(a, b) => steady_declarators(*a) && steady_declarators(*b),
    }
}

/// Whether a variable declaration exports no variables from a namespace outside
/// classes and functions.
pub open spec fn steady_var_decl(node: VarDecl) -> bool
    decreases node,
{
    steady_declarators(node.decls)
}

/// Whether a namespace exports no variables from a namespace outside classes
/// and functions.
pub open spec fn steady_ts_module(node: TsModule) -> bool
    decreases node,
{
    steady_nodes(node.id) && steady_items(node.body)
}

/// Whether a declaration exports no variables from a namespace outside classes
/// and functions.
pub open spec fn steady_decl(node: Decl) -> bool
    decreases node,
{
    match node {
        Decl::Class(n) => steady_class_decl(n),
        Decl::Fn(n) => steady_fn_decl(n),
        Decl::Var(n) => steady_var_decl(n),
        Decl::TsInterface(n) => steady_syntax(n),
        Decl::TsTypeAlias(n) => steady_syntax(n),
        Decl::TsEnum(n) => steady_syntax(n),
        Decl::TsModule(n) => steady_ts_module(n),
    }
}

/// Whether a statement exports no variables from a namespace outside classes
/// and functions.
pub open spec fn steady_stmt(node: Stmt) -> bool
    decreases node,
{
    match node {
        Stmt::Empty { span } => true,
        Stmt::Decl(decl) => steady_decl(decl),
        Stmt::Expr { span, expr } => steady_expr(expr),
        Stmt::Other(syntax) => steady_syntax(syntax),
    }
}

/// Whether an export specifier exports no variables from a namespace outside
/// classes and functions.
pub open spec fn steady_specifier(node: ExportSpecifier) -> bool
    decreases node,
{
    match node {
        ExportSpecifier::Namespace { span, name } => steady_ident(name),
        ExportSpecifier::Default { exported } => steady_ident(exported),
        ExportSpecifier::Named { span, orig, exported } => steady_ident(orig) && steady_opt_ident(
            exported,
        ),
    }
}

/// Whether export specifiers exports no variables from a namespace outside
/// classes and functions.
pub open spec fn steady_specifiers(run: Run<ExportSpecifier>) -> bool
    decreases run,
{
    match run {
        Run::Empty => true,
        Run::One(x) => steady_specifier(*x),
        Run::Join(a, b) => steady_specifiers(*a) && steady_specifiers(*b),
    }
}

/// Whether a default declaration exports no variables from a namespace outside
/// classes and functions.
pub open spec fn steady_default_decl(node: DefaultDecl) -> bool
    decreases node,
{
    match node {
        DefaultDecl::Class(n) => steady_class_expr(n),
        DefaultDecl::Fn(n) => steady_fn_expr(n),
        DefaultDecl::TsInterfaceDecl(n) => steady_syntax(n),
    }
}

/// Whether a module item exports no variables, and none from a namespace outside
/// classes and functions.
pub open spec fn steady_item(node: ModuleItem) -> bool
    decreases node,
{
    match node {
        ModuleItem::Stmt(stmt) => steady_stmt(stmt),
        ModuleItem::ModuleDecl(decl) => match decl {
            ModuleDecl::Import(n) => steady_nodes(n.specifiers),
            ModuleDecl::ExportDecl { span, decl } => !(decl is Var) && steady_decl(decl),
            ModuleDecl::ExportNamed(n) => steady_specifiers(n.specifiers),
            ModuleDecl::ExportDefaultDecl { span, decl } => steady_default_decl(decl),
            ModuleDecl::ExportDefaultExpr { span, expr } => steady_expr(expr),
            ModuleDecl::ExportAll { span, src } => true,
            ModuleDecl::TsImportEquals(n) => steady_syntax(n),
            ModuleDecl::TsExportAssignment(n) => steady_syntax(n),
            ModuleDecl::TsNamespaceExport(n) => steady_syntax(n),
        },
    }
}

/// Whether items export no variables, and none from a namespace outside classes
/// and functions.
pub open spec fn steady_items(run: Run<ModuleItem>) -> bool
    decreases run,
{
    match run {
        Run::Empty => true,
        Run::One(x) => steady_item(*x),
        Run::Join(a, b) => steady_items(*a) && steady_items(*b),
    }
}

/// Whether an item is an export that renaming takes apart: an exported class,
/// function or variable, `export { .. }` or `export default` of a value.
pub open spec fn is_taken_apart(item: ModuleItem) -> bool {
    match item {
        ModuleItem::ModuleDecl(ModuleDecl::ExportDecl { span, decl }) => decl is Class || decl is Fn
            || decl is Var,
        ModuleItem::ModuleDecl(ModuleDecl::ExportNamed(e)) => e.src is None,
        ModuleItem::ModuleDecl(ModuleDecl::ExportDefaultExpr { .. }) => true,
        _ => false,
    }
}

/// Whether an item exports variables by their declaration.
pub open spec fn exports_variables(item: ModuleItem) -> bool {
    item matches ModuleItem::ModuleDecl(ModuleDecl::ExportDecl { span, decl }) && decl is Var
}

proof fn lemma_renamed_ident(r: Renaming, node: Ident)
    ensures
        plain_ident(node) ==> renamed_ident(r, node) == node,
        plain_ident(node) ==> steady_ident(node),
        steady_ident(node) ==> renamed_ident(r, renamed_ident(r, node)) == renamed_ident(
            r,
            node,
        ),
    decreases node,
{
    match node.type_ann {
        Some(ann) => lemma_renamed_syntax(r, *ann),
        None => {},
    }
}

proof fn lemma_renamed_opt_ident(r: Renaming, node: Option<Ident>)
    ensures
        plain_opt_ident(node) ==> renamed_opt_ident(r, node) == node,
        plain_opt_ident(node) ==> steady_opt_ident(node),
        steady_opt_ident(node) ==> renamed_opt_ident(r, renamed_opt_ident(r, node))
            == renamed_opt_ident(r, node),
    decreases node,
{
    match node {
        Some(ident) => lemma_renamed_ident(r, ident),
        None => {},
    }
}

proof fn lemma_renamed_nodes(r: Renaming, run: Run<Node>)
    ensures
        plain_nodes(run) ==> renamed_nodes(r, run) == run,
        plain_nodes(run) ==> steady_nodes(run),
        steady_nodes(run) ==> renamed_nodes(r, renamed_nodes(r, run)) == renamed_nodes(
            r,
            run,
        ),
    decreases run,
{
    match run {
        Run::Empty => {},
        Run::One(x) => lemma_renamed_node(r, *x),
        Run::Join(a, b) => {
            lemma_renamed_nodes(r, *a);
            lemma_renamed_nodes(r, *b);
        },
    }
}

proof fn lemma_renamed_node(r: Renaming, node: Node)
    ensures
        plain_node(node) ==> renamed_node(r, node) == node,
        plain_node(node) ==> steady_node(node),
        steady_node(node) ==> renamed_node(r, renamed_node(r, node)) == renamed_node(
            r,
            node,
        ),
    decreases node,
{
    match node {
        Node::Ident(ident) => lemma_renamed_ident(r, ident),
        Node::Parts(parts) => lemma_renamed_nodes(r, parts),
        Node::CatchClause(n) => lemma_renamed_catch_clause(r, n),
        Node::ClassDecl(n) => lemma_renamed_class_decl(r, n),
        Node::ClassExpr(n) => lemma_renamed_class_expr(r, n),
        Node::Constructor(_) => {},
        Node::FnDecl(n) => lemma_renamed_fn_decl(r, n),
        Node::FnExpr(n) => lemma_renamed_fn_expr(r, n),
        Node::Function(_) => {},
        Node::LabeledStmt(n) => lemma_renamed_labeled_stmt(r, n),
        Node::MemberExpr(n) => lemma_renamed_member_expr(r, n),
        Node::SetterProp(n) => lemma_renamed_setter_prop(r, n),
        Node::TsModule(n) => lemma_renamed_ts_module(r, n),
    }
}

proof fn lemma_renamed_syntax(r: Renaming, node: Syntax)
    ensures
        plain_syntax(node) ==> renamed_syntax(r, node) == node,
        plain_syntax(node) ==> steady_syntax(node),
        steady_syntax(node) ==> renamed_syntax(r, renamed_syntax(r, node)) == renamed_syntax(
            r,
            node,
        ),
    decreases node,
{
    lemma_renamed_nodes(r, node.parts);
}

proof fn lemma_renamed_catch_clause(r: Renaming, node: CatchClause)
    ensures
        plain_catch_clause(node) ==> renamed_catch_clause(r, node) == node,
        plain_catch_clause(node) ==> steady_catch_clause(node),
        steady_catch_clause(node) ==> renamed_catch_clause(r, renamed_catch_clause(r, node))
            == renamed_catch_clause(r, node),
    decreases node,
{
    lemma_renamed_pats(r, node.param);
    lemma_renamed_nodes(r, node.body);
}

proof fn lemma_renamed_class_decl(r: Renaming, node: ClassDecl)
    ensures
        plain_class_decl(node) ==> renamed_class_decl(r, node) == node,
        plain_class_decl(node) ==> steady_class_decl(node),
        steady_class_decl(node) ==> renamed_class_decl(r, renamed_class_decl(r, node))
            == renamed_class_decl(r, node),
    decreases node,
{
    lemma_renamed_ident(r, node.ident);
}

proof fn lemma_renamed_class_expr(r: Renaming, node: ClassExpr)
    ensures
        plain_class_expr(node) ==> renamed_class_expr(r, node) == node,
        plain_class_expr(node) ==> steady_class_expr(node),
        steady_class_expr(node) ==> renamed_class_expr(r, renamed_class_expr(r, node))
            == renamed_class_expr(r, node),
    decreases node,
{
    lemma_renamed_opt_ident(r, node.ident);
}

proof fn lemma_renamed_fn_decl(r: Renaming, node: FnDecl)
    ensures
        plain_fn_decl(node) ==> renamed_fn_decl(r, node) == node,
        plain_fn_decl(node) ==> steady_fn_decl(node),
        steady_fn_decl(node) ==> renamed_fn_decl(r, renamed_fn_decl(r, node)) == renamed_fn_decl(
            r,
            node,
        ),
    decreases node,
{
    lemma_renamed_ident(r, node.ident);
}

proof fn lemma_renamed_fn_expr(r: Renaming, node: FnExpr)
    ensures
        plain_fn_expr(node) ==> renamed_fn_expr(r, node) == node,
        plain_fn_expr(node) ==> steady_fn_expr(node),
        steady_fn_expr(node) ==> renamed_fn_expr(r, renamed_fn_expr(r, node)) == renamed_fn_expr(
            r,
            node,
        ),
    decreases node,
{
    lemma_renamed_opt_ident(r, node.ident);
}

proof fn lemma_renamed_labeled_stmt(r: Renaming, node: LabeledStmt)
    ensures
        plain_labeled_stmt(node) ==> renamed_labeled_stmt(r, node) == node,
        plain_labeled_stmt(node) ==> steady_labeled_stmt(node),
        steady_labeled_stmt(node) ==> renamed_labeled_stmt(r, renamed_labeled_stmt(r, node))
            == renamed_labeled_stmt(r, node),
    decreases node,
{
    lemma_renamed_ident(r, node.label);
    lemma_renamed_nodes(r, node.body);
}

proof fn lemma_renamed_member_expr(r: Renaming, node: MemberExpr)
    ensures
        plain_member_expr(node) ==> renamed_member_expr(r, node) == node,
        plain_member_expr(node) ==> steady_member_expr(node),
        steady_member_expr(node) ==> renamed_member_expr(r, renamed_member_expr(r, node))
            == renamed_member_expr(r, node),
    decreases node,
{
    lemma_renamed_nodes(r, node.obj);
    lemma_renamed_nodes(r, node.prop);
}

proof fn lemma_renamed_setter_prop(r: Renaming, node: SetterProp)
    ensures
        plain_setter_prop(node) ==> renamed_setter_prop(r, node) == node,
        plain_setter_prop(node) ==> steady_setter_prop(node),
        steady_setter_prop(node) ==> renamed_setter_prop(r, renamed_setter_prop(r, node))
            == renamed_setter_prop(r, node),
    decreases node,
{
    lemma_renamed_nodes(r, node.key);
    lemma_renamed_pats(r, node.param);
    lemma_renamed_nodes(r, node.body);
}

proof fn lemma_renamed_expr(r: Renaming, node: Expr)
    ensures
        plain_expr(node) ==> renamed_expr(r, node) == node,
        plain_expr(node) ==> steady_expr(node),
        steady_expr(node) ==> renamed_expr(r, renamed_expr(r, node)) == renamed_expr(
            r,
            node,
        ),
    decreases node,
{
    match node {
        Expr::Ident(ident) => lemma_renamed_ident(r, ident),
        Expr::Other(syntax) => lemma_renamed_syntax(r, syntax),
    }
}

proof fn lemma_renamed_pats(r: Renaming, run: Run<Pat>)
    ensures
        plain_pats(run) ==> renamed_pats(r, run) == run,
        plain_pats(run) ==> steady_pats(run),
        steady_pats(run) ==> renamed_pats(r, renamed_pats(r, run)) == renamed_pats(
            r,
            run,
        ),
    decreases run,
{
    match run {
        Run::Empty => {},
        Run::One(x) => lemma_renamed_pat(r, *x),
        Run::Join(a, b) => {
            lemma_renamed_pats(r, *a);
            lemma_renamed_pats(r, *b);
        },
    }
}

proof fn lemma_renamed_pat(r: Renaming, node: Pat)
    ensures
        plain_pat(node) ==> renamed_pat(r, node) == node,
        plain_pat(node) ==> steady_pat(node),
        steady_pat(node) ==> renamed_pat(r, renamed_pat(r, node)) == renamed_pat(
            r,
            node,
        ),
    decreases node,
{
    match node {
        Pat::Ident(ident) => lemma_renamed_ident(r, ident),
        Pat::Expr(expr) => lemma_renamed_expr(r, expr),
        Pat::PropName(parts) => lemma_renamed_pats(r, parts),
        Pat::Type(parts) => lemma_renamed_pats(r, parts),
        Pat::Other { origin, parts } => lemma_renamed_pats(r, parts),
    }
}

proof fn lemma_renamed_declarator(r: Renaming, node: VarDeclarator)
    ensures
        plain_declarator(node) ==> renamed_declarator(r, node) == node,
        plain_declarator(node) ==> steady_declarator(node),
        steady_declarator(node) ==> renamed_declarator(r, renamed_declarator(r, node))
            == renamed_declarator(r, node),
    decreases node,
{
    lemma_renamed_pat(r, node.name);
    match node.init {
        Some(init) => lemma_renamed_expr(r, init),
        None => {},
    }
}

proof fn lemma_renamed_declarators(r: Renaming, run: Run<VarDeclarator>)
    ensures
        plain_declarators(run) ==> renamed_declarators(r, run) == run,
        plain_declarators(run) ==> steady_declarators(run),
        steady_declarators(run) ==> renamed_declarators(r, renamed_declarators(r, run))
            == renamed_declarators(r, run),
    decreases run,
{
    match run {
        Run::Empty => {},
        Run::One(x) => lemma_renamed_declarator(r, *x),
        Run::Join(a, b) => {
            lemma_renamed_declarators(r, *a);
            lemma_renamed_declarators(r, *b);
        },
    }
}

proof fn lemma_renamed_var_decl(r: Renaming, node: VarDecl)
    ensures
        plain_var_decl(node) ==> renamed_var_decl(r, node) == node,
        plain_var_decl(node) ==> steady_var_decl(node),
        steady_var_decl(node) ==> renamed_var_decl(r, renamed_var_decl(r, node))
            == renamed_var_decl(r, node),
    decreases node,
{
    lemma_renamed_declarators(r, node.decls);
}

proof fn lemma_renamed_ts_module(r: Renaming, node: TsModule)
    ensures
        steady_ts_module(node) ==> renamed_ts_module(r, renamed_ts_module(r, node))
            == renamed_ts_module(r, node),
    decreases node,
{
    lemma_renamed_nodes(r, node.id);
    lemma_renamed_items(r, node.body);
}

proof fn lemma_renamed_decl(r: Renaming, node: Decl)
    ensures
        plain_decl(node) ==> renamed_decl(r, node) == node,
        plain_decl(node) ==> steady_decl(node),
        steady_decl(node) ==> renamed_decl(r, renamed_decl(r, node)) == renamed_decl(
            r,
            node,
        ),
    decreases node,
{
    match node {
        Decl::Class(n) => lemma_renamed_class_decl(r, n),
        Decl::Fn(n) => lemma_renamed_fn_decl(r, n),
        Decl::Var(n) => lemma_renamed_var_decl(r, n),
        Decl::TsInterface(n) => lemma_renamed_syntax(r, n),
        Decl::TsTypeAlias(n) => lemma_renamed_syntax(r, n),
        Decl::TsEnum(n) => lemma_renamed_syntax(r, n),
        Decl::TsModule(n) => lemma_renamed_ts_module(r, n),
    }
}

proof fn lemma_renamed_stmt(r: Renaming, node: Stmt)
    ensures
        plain_stmt(node) ==> renamed_stmt(r, node) == node,
        plain_stmt(node) ==> steady_stmt(node),
        steady_stmt(node) ==> renamed_stmt(r, renamed_stmt(r, node)) == renamed_stmt(
            r,
            node,
        ),
    decreases node,
{
    match node {
        Stmt::Empty { span } => {},
        Stmt::Decl(decl) => lemma_renamed_decl(r, decl),
        Stmt::Expr { span, expr } => lemma_renamed_expr(r, expr),
        Stmt::Other(syntax) => lemma_renamed_syntax(r, syntax),
    }
}

proof fn lemma_renamed_specifier(r: Renaming, node: ExportSpecifier)
    ensures
        plain_specifier(node) ==> renamed_specifier(r, node) == node,
        plain_specifier(node) ==> steady_specifier(node),
        steady_specifier(node) ==> renamed_specifier(r, renamed_specifier(r, node))
            == renamed_specifier(r, node),
    decreases node,
{
    match node {
        ExportSpecifier::Namespace { span, name } => lemma_renamed_ident(r, name),
        ExportSpecifier::Default { exported } => lemma_renamed_ident(r, exported),
        ExportSpecifier::Named { span, orig, exported } => {
            lemma_renamed_ident(r, orig);
            lemma_renamed_opt_ident(r, exported);
        },
    }
}

proof fn lemma_renamed_specifiers(r: Renaming, run: Run<ExportSpecifier>)
    ensures
        plain_specifiers(run) ==> renamed_specifiers(r, run) == run,
        plain_specifiers(run) ==> steady_specifiers(run),
        steady_specifiers(run) ==> renamed_specifiers(r, renamed_specifiers(r, run))
            == renamed_specifiers(r, run),
    decreases run,
{
    match run {
        Run::Empty => {},
        Run::One(x) => lemma_renamed_specifier(r, *x),
        Run::Join(a, b) => {
            lemma_renamed_specifiers(r, *a);
            lemma_renamed_specifiers(r, *b);
        },
    }
}

proof fn lemma_renamed_default_decl(r: Renaming, node: DefaultDecl)
    ensures
        plain_default_decl(node) ==> renamed_default_decl(r, node) == node,
        plain_default_decl(node) ==> steady_default_decl(node),
        steady_default_decl(node) ==> renamed_default_decl(r, renamed_default_decl(r, node))
            == renamed_default_decl(r, node),
    decreases node,
{
    match node {
        DefaultDecl::Class(n) => lemma_renamed_class_expr(r, n),
        DefaultDecl::Fn(n) => lemma_renamed_fn_expr(r, n),
        DefaultDecl::TsInterfaceDecl(n) => lemma_renamed_syntax(r, n),
    }
}

/// What is bound to the importer's names stays as it is once it is renamed.
proof fn lemma_renamed_bindings(r: Renaming, specifiers: Run<ExportSpecifier>)
    requires
        steady_specifiers(specifiers),
    ensures
        renamed_declarators(r, bindings(r, renamed_specifiers(r, specifiers))) == bindings(
            r,
            renamed_specifiers(r, specifiers),
        ),
    decreases specifiers,
{
    match specifiers {
        Run::Empty => {},
        Run::One(x) => {
            lemma_renamed_specifier(r, *x);
            let specifier = renamed_specifier(r, *x);
            let ident = exported_ident(specifier);
            assert(renamed_ident(r, ident) == ident);
            if let Some(local) = local_name(r.imports, exported_name(specifier)) {
                lemma_renamed_binding(r, specifier.spec_span(), local, Expr::Ident(ident));
            }
        },
        Run::Join(a, b) => {
            lemma_renamed_bindings(r, *a);
            lemma_renamed_bindings(r, *b);
        },
    }
}

proof fn lemma_renamed_binding(r: Renaming, span: Span, local: Id, init: Expr)
    requires
        renamed_expr(r, init) == init,
    ensures
        renamed_declarator(r, binding(r, span, local, init)) == binding(r, span, local, init),
{
    let name = local.spec_replace_mark(r.mark).spec_into_ident();
    assert(renamed_ident(r, name) == name);
    assert(renamed_pat(r, Pat::Ident(name)) == Pat::Ident(name));
}

/// A declaration under the importer's names stays as it is once it is renamed.
proof fn lemma_renamed_const(r: Renaming, span: Span, decls: Run<VarDeclarator>)
    requires
        renamed_declarators(r, decls) == decls,
    ensures
        renamed_stmt(r, const_decl(span, decls)) == const_decl(span, decls),
{
    let decl = VarDecl { span, kind: VarDeclKind::Const, declare: false, decls };
    assert(renamed_var_decl(r, decl) == decl);
    assert(renamed_decl(r, Decl::Var(decl)) == Decl::Var(decl));
}

proof fn lemma_renamed_actual(r: Renaming, ident: Ident)
    requires
        renamed_ident(r, ident) == ident,
    ensures
        renamed_ident(r, actual_ident(r.mark, r.imports, ident)) == actual_ident(
            r.mark,
            r.imports,
            ident,
        ),
{
}

/// An item that is renamed stays as it is when it is renamed again.
proof fn lemma_renamed_item(r: Renaming, node: ModuleItem)
    requires
        steady_item(node),
    ensures
        renamed_item(r, renamed_item(r, node)) == renamed_item(r, node),
        extra(r, renamed_item(r, node)) is None,
        extra(r, node) matches Some(stmt) ==> renamed_stmt(r, stmt) == stmt,
    decreases node,
{
    match node {
        ModuleItem::Stmt(stmt) => lemma_renamed_stmt(r, stmt),
        ModuleItem::ModuleDecl(decl) => match decl {
            ModuleDecl::Import(n) => lemma_renamed_nodes(r, n.specifiers),
            ModuleDecl::ExportDecl { span, decl } => {
                lemma_renamed_decl(r, decl);
                match decl {
                    Decl::Class(c) => {
                        lemma_renamed_ident(r, c.ident);
                        lemma_renamed_actual(r, renamed_ident(r, c.ident));
                    },
                    Decl::Fn(f) => {
                        lemma_renamed_ident(r, f.ident);
                        lemma_renamed_actual(r, renamed_ident(r, f.ident));
                    },
                    _ => {},
                }
            },
            ModuleDecl::ExportNamed(n) => {
                lemma_renamed_specifiers(r, n.specifiers);
                lemma_renamed_bindings(r, n.specifiers);
                lemma_renamed_const(r, n.span, bindings(r, renamed_specifiers(r, n.specifiers)));
            },
            ModuleDecl::ExportDefaultDecl { span, decl } => lemma_renamed_default_decl(r, decl),
            ModuleDecl::ExportDefaultExpr { span, expr } => {
                lemma_renamed_expr(r, expr);
                let value = renamed_expr(r, expr);
                if let Some(local) = local_name(r.imports, Word::spec_default_word()) {
                    let bound = binding(r, Span::spec_dummy(), local, value);
                    let decls = Run::One(Box::new(bound));
                    lemma_renamed_binding(r, Span::spec_dummy(), local, value);
                    assert(renamed_declarators(r, decls) == decls);
                    lemma_renamed_const(r, span, decls);
                }
            },
            ModuleDecl::ExportAll { span, src } => {},
            ModuleDecl::TsImportEquals(n) => lemma_renamed_syntax(r, n),
            ModuleDecl::TsExportAssignment(n) => lemma_renamed_syntax(r, n),
            ModuleDecl::TsNamespaceExport(n) => lemma_renamed_syntax(r, n),
        },
    }
}

proof fn lemma_renamed_items(r: Renaming, run: Run<ModuleItem>)
    ensures
        steady_items(run) ==> renamed_items(r, renamed_items(r, run)) == renamed_items(r, run),
    decreases run,
{
    if steady_items(run) {
        match run {
            Run::Empty => {},
            Run::One(x) => {
                lemma_renamed_item(r, *x);
                let item = Run::One(Box::new(renamed_item(r, *x)));
                assert(renamed_items(r, item) == item);
                if let Some(stmt) = extra(r, *x) {
                    let added = Run::One(Box::new(ModuleItem::Stmt(stmt)));
                    assert(renamed_item(r, ModuleItem::Stmt(stmt)) == ModuleItem::Stmt(stmt));
                    assert(extra(r, ModuleItem::Stmt(stmt)) is None);
                    assert(renamed_items(r, added) == added);
                }
            },
            Run::Join(a, b) => {
                lemma_renamed_items(r, *a);
                lemma_renamed_items(r, *b);
            },
        }
    }
}

/// An item that holds no namespace and is no export that renaming takes apart
/// stays as it is, and nothing follows it. Such are statements, imports, exports
/// from another module, default declarations, and exported interfaces, aliases
/// and enums.
pub proof fn law_renaming_leaves_alone(r: Renaming, item: ModuleItem)
    requires
        plain_item(item),
        !is_taken_apart(item),
    ensures
        renamed_item(r, item) == item,
        extra(r, item) is None,
{
    match item {
        ModuleItem::Stmt(stmt) => lemma_renamed_stmt(r, stmt),
        ModuleItem::ModuleDecl(decl) => match decl {
            ModuleDecl::Import(n) => lemma_renamed_nodes(r, n.specifiers),
            ModuleDecl::ExportDecl { span, decl } => lemma_renamed_decl(r, decl),
            ModuleDecl::ExportNamed(n) => lemma_renamed_specifiers(r, n.specifiers),
            ModuleDecl::ExportDefaultDecl { span, decl } => lemma_renamed_default_decl(r, decl),
            ModuleDecl::ExportDefaultExpr { span, expr } => {},
            ModuleDecl::ExportAll { span, src } => {},
            ModuleDecl::TsImportEquals(n) => lemma_renamed_syntax(r, n),
            ModuleDecl::TsExportAssignment(n) => lemma_renamed_syntax(r, n),
            ModuleDecl::TsNamespaceExport(n) => lemma_renamed_syntax(r, n),
        },
    }
}

/// An item that holds no namespace is steady, unless it exports variables.
pub proof fn law_plain_item_is_steady(item: ModuleItem)
    requires
        plain_item(item),
        !exports_variables(item),
    ensures
        steady_item(item),
{
    let r = Renaming { mark: 0, imports: Seq::empty() };
    match item {
        ModuleItem::Stmt(stmt) => lemma_renamed_stmt(r, stmt),
        ModuleItem::ModuleDecl(decl) => match decl {
            ModuleDecl::Import(n) => lemma_renamed_nodes(r, n.specifiers),
            ModuleDecl::ExportDecl { span, decl } => lemma_renamed_decl(r, decl),
            ModuleDecl::ExportNamed(n) => lemma_renamed_specifiers(r, n.specifiers),
            ModuleDecl::ExportDefaultDecl { span, decl } => lemma_renamed_default_decl(r, decl),
            ModuleDecl::ExportDefaultExpr { span, expr } => lemma_renamed_expr(r, expr),
            ModuleDecl::ExportAll { span, src } => {},
            ModuleDecl::TsImportEquals(n) => lemma_renamed_syntax(r, n),
            ModuleDecl::TsExportAssignment(n) => lemma_renamed_syntax(r, n),
            ModuleDecl::TsNamespaceExport(n) => lemma_renamed_syntax(r, n),
        },
    }
}

/// Renaming a module a second time changes nothing, if it exports no variables by
/// their declaration, in namespaces or outside. Exported variables stay exported,
/// so that a second renaming may give them yet another name.
pub proof fn law_renaming_is_idempotent(r: Renaming, module: Module)
    requires
        steady_items(module.body),
    ensures
        renamed_module(r, renamed_module(r, module)) == renamed_module(r, module),
{
    lemma_renamed_items(r, module.body);
}

/// An item that holds no namespace, renamed and followed by what it asks for,
/// stays as it is when it is renamed again, unless it exports variables.
pub proof fn law_item_is_renamed_once(r: Renaming, item: ModuleItem)
    requires
        plain_item(item),
        !exports_variables(item),
    ensures
        renamed_items(r, renamed_items(r, Run::One(Box::new(item)))) == renamed_items(
            r,
            Run::One(Box::new(item)),
        ),
{
    law_plain_item_is_steady(item);
    lemma_renamed_items(r, Run::One(Box::new(item)));
}

} // verus!
