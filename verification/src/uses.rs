//! The places of a module that marking looks at.
use crate::local_marker::{
    Marking, bound_declarators, bound_items, bound_nodes, bound_pat, bound_pats,
    marked_catch_clause, marked_class_decl, marked_class_expr, marked_constructor, marked_decl,
    marked_declarator, marked_declarators, marked_default_decl, marked_expr, marked_fn_decl,
    marked_fn_expr, marked_function, marked_ident, marked_item, marked_items, marked_labeled_stmt,
    marked_member_expr, marked_module, marked_module_decl, marked_node, marked_nodes, marked_pat,
    marked_pats, marked_setter_prop, marked_specifier, marked_specifiers, marked_stmt,
    marked_syntax, marked_ts_module, marked_var_decl,
};
use crate::marking_laws::{
    lemma_marked_declarators, lemma_marked_items, lemma_marked_nodes, lemma_marked_pat,
    lemma_marked_pats,
};
use crate::pattern::{ident_ids, pats_ids};
use crate::run::Run;
use crate::syntax::{
    CatchClause, ClassDecl, ClassExpr, Constructor, Decl, DefaultDecl, ExportSpecifier, Expr,
    FnDecl, FnExpr, Function, Id, Ident, LabeledStmt, MemberExpr, Module, ModuleDecl, ModuleItem,
    Node, Pat, SetterProp, Stmt, Syntax, TsModule, VarDecl, VarDeclarator,
};
use vstd::prelude::*;

verus! {

/// A place at which an identifier stands where marking looks at it, and the
/// names that are hidden there.
pub struct Use {
    pub ident: Ident,
    pub hidden: Seq<Id>,
}

/// The uses, marked.
pub open spec fn marked_uses(m: Marking, uses: Seq<Use>) -> Seq<Use> {
    uses.map_values(
        |u: Use| Use { ident: marked_ident(m, u.hidden, u.ident), hidden: u.hidden },
    )
}

/// The use that an identifier is.
pub open spec fn uses_ident(ex: Seq<Id>, ident: Ident) -> Seq<Use> {
    seq![Use { ident, hidden: ex }]
}

/// The uses in a run of nodes.
pub open spec fn uses_nodes(ex: Seq<Id>, run: Run<Node>) -> Seq<Use>
    decreases run,
{
    match run {
        Run::Empty => Seq::empty(),
        Run::One(x) => uses_node(ex, *x),
        Run::Join(a, b) => uses_nodes(ex, *a) + uses_nodes(ex + bound_nodes(*a), *b),
    }
}

/// The uses in a node.
pub open spec fn uses_node(ex: Seq<Id>, node: Node) -> Seq<Use>
    decreases node,
{
    match node {
        Node::Ident(ident) => uses_ident(ex, ident),
        Node::Parts(parts) => uses_nodes(ex, parts),
        Node::CatchClause(n) => uses_catch_clause(ex, n),
        Node::ClassDecl(n) => uses_class_decl(ex, n),
        Node::ClassExpr(n) => uses_class_expr(ex, n),
        Node::Constructor(n) => uses_constructor(ex, n),
        Node::FnDecl(n) => uses_fn_decl(ex, n),
        Node::FnExpr(n) => uses_fn_expr(ex, n),
        Node::Function(n) => uses_function(ex, n),
        Node::LabeledStmt(n) => uses_labeled_stmt(ex, n),
        Node::MemberExpr(n) => uses_member_expr(ex, n),
        Node::SetterProp(n) => uses_setter_prop(ex, n),
        Node::TsModule(n) => uses_ts_module(ex, n),
    }
}

/// The uses in syntax.
pub open spec fn uses_syntax(ex: Seq<Id>, node: Syntax) -> Seq<Use>
    decreases node,
{
    uses_nodes(ex, node.parts)
}

/// The uses in the body, where the parameter hides names.
pub open spec fn uses_catch_clause(ex: Seq<Id>, node: CatchClause) -> Seq<Use>
    decreases node,
{
    uses_nodes(ex + pats_ids(node.param), node.body)
}

/// The uses in the class, where its name hides names.
pub open spec fn uses_class_decl(ex: Seq<Id>, node: ClassDecl) -> Seq<Use>
    decreases node,
{
    uses_syntax(ex + seq![node.ident.spec_id()], node.class)
}

/// The uses in the class, where its name hides names.
pub open spec fn uses_class_expr(ex: Seq<Id>, node: ClassExpr) -> Seq<Use>
    decreases node,
{
    uses_syntax(ex + ident_ids(node.ident), node.class)
}

/// The uses in the body, where the parameters hide names.
pub open spec fn uses_constructor(ex: Seq<Id>, node: Constructor) -> Seq<Use>
    decreases node,
{
    uses_nodes(ex + pats_ids(node.params), node.body)
}

/// The uses in the body, where the parameters hide names.
pub open spec fn uses_function(ex: Seq<Id>, node: Function) -> Seq<Use>
    decreases node,
{
    uses_nodes(ex + pats_ids(node.params), node.body)
}

/// The uses in the function, where its name hides names.
pub open spec fn uses_fn_decl(ex: Seq<Id>, node: FnDecl) -> Seq<Use>
    decreases node,
{
    uses_function(ex + seq![node.ident.spec_id()], node.function)
}

/// The uses in the function, where its name hides names.
pub open spec fn uses_fn_expr(ex: Seq<Id>, node: FnExpr) -> Seq<Use>
    decreases node,
{
    uses_function(ex + ident_ids(node.ident), node.function)
}

/// The uses in the body; the label is none.
pub open spec fn uses_labeled_stmt(ex: Seq<Id>, node: LabeledStmt) -> Seq<Use>
    decreases node,
{
    uses_nodes(ex, node.body)
}

/// The uses in the object, and in the property if it is computed.
pub open spec fn uses_member_expr(ex: Seq<Id>, node: MemberExpr) -> Seq<Use>
    decreases node,
{
    if node.computed {
        uses_nodes(ex, node.obj) + uses_nodes(ex + bound_nodes(node.obj), node.prop)
    } else {
        uses_nodes(ex, node.obj)
    }
}

/// The uses in the body, where the parameter hides names.
pub open spec fn uses_setter_prop(ex: Seq<Id>, node: SetterProp) -> Seq<Use>
    decreases node,
{
    uses_nodes(ex + pats_ids(node.param), node.body)
}

/// The uses in an expression.
pub open spec fn uses_expr(ex: Seq<Id>, node: Expr) -> Seq<Use>
    decreases node,
{
    match node {
        Expr::Ident(ident) => uses_ident(ex, ident),
        Expr::Other(syntax) => uses_syntax(ex, syntax),
    }
}

/// The uses in a run of patterns.
pub open spec fn uses_pats(ex: Seq<Id>, run: Run<Pat>) -> Seq<Use>
    decreases run,
{
    match run {
        Run::Empty => Seq::empty(),
        Run::One(x) => uses_pat(ex, *x),
        Run::Join(a, b) => uses_pats(ex, *a) + uses_pats(ex + bound_pats(*a), *b),
    }
}

/// The identifiers of a pattern.
pub open spec fn uses_pat(ex: Seq<Id>, node: Pat) -> Seq<Use>
    decreases node,
{
    match node {
        Pat::Ident(ident) => uses_ident(ex, ident),
        Pat::Expr(expr) => uses_expr(ex, expr),
        Pat::PropName(parts) => uses_pats(ex, parts),
        Pat::Type(parts) => uses_pats(ex, parts),
        Pat::Other { origin, parts } => uses_pats(ex, parts),
    }
}

/// The uses in a declarator.
pub open spec fn uses_declarator(ex: Seq<Id>, node: VarDeclarator) -> Seq<Use>
    decreases node,
{
    uses_pat(ex, node.name) + (match node.init {
        Some(init) => uses_expr(ex + bound_pat(node.name), init),
        None => Seq::empty(),
    })
}

/// The uses in declarators.
pub open spec fn uses_declarators(ex: Seq<Id>, run: Run<VarDeclarator>) -> Seq<Use>
    decreases run,
{
    match run {
        Run::Empty => Seq::empty(),
        Run::One(x) => uses_declarator(ex, *x),
        Run::Join(a, b) => uses_declarators(ex, *a)
            + uses_declarators(ex + bound_declarators(*a), *b),
    }
}

/// The uses in a variable declaration.
pub open spec fn uses_var_decl(ex: Seq<Id>, node: VarDecl) -> Seq<Use>
    decreases node,
{
    uses_declarators(ex, node.decls)
}

/// The identifiers of the name of a namespace, and the uses in its items.
pub open spec fn uses_ts_module(ex: Seq<Id>, node: TsModule) -> Seq<Use>
    decreases node,
{
    uses_nodes(ex, node.id) + uses_items(ex + bound_nodes(node.id), node.body)
}

/// The uses in a declaration.
pub open spec fn uses_decl(ex: Seq<Id>, node: Decl) -> Seq<Use>
    decreases node,
{
    match node {
        Decl::Class(n) => uses_class_decl(ex, n),
        Decl::Fn(n) => uses_fn_decl(ex, n),
        Decl::Var(n) => uses_var_decl(ex, n),
        Decl::TsInterface(n) => uses_syntax(ex, n),
        Decl::TsTypeAlias(n) => uses_syntax(ex, n),
        Decl::TsEnum(n) => uses_syntax(ex, n),
        Decl::TsModule(n) => uses_ts_module(ex, n),
    }
}

/// The uses in a statement.
pub open spec fn uses_stmt(ex: Seq<Id>, node: Stmt) -> Seq<Use>
    decreases node,
{
    match node {
        Stmt::Empty { span } => Seq::empty(),
        Stmt::Decl(decl) => uses_decl(ex, decl),
        Stmt::Expr { span, expr } => uses_expr(ex, expr),
        Stmt::Other(syntax) => uses_syntax(ex, syntax),
    }
}

/// The identifiers of an export specifier.
pub open spec fn uses_specifier(ex: Seq<Id>, node: ExportSpecifier) -> Seq<Use> {
    match node {
        ExportSpecifier::Namespace { span, name } => uses_ident(ex, name),
        ExportSpecifier::Default { exported } => uses_ident(ex, exported),
        ExportSpecifier::Named { span, orig, exported } => uses_ident(ex, orig) + (match exported {
            Some(exported) => uses_ident(ex, exported),
            None => Seq::empty(),
        }),
    }
}

/// The identifiers of export specifiers.
pub open spec fn uses_specifiers(ex: Seq<Id>, run: Run<ExportSpecifier>) -> Seq<Use>
    decreases run,
{
    match run {
        Run::Empty => Seq::empty(),
        Run::One(x) => uses_specifier(ex, *x),
        Run::Join(a, b) => uses_specifiers(ex, *a) + uses_specifiers(ex, *b),
    }
}

/// The uses in a default declaration.
pub open spec fn uses_default_decl(ex: Seq<Id>, node: DefaultDecl) -> Seq<Use>
    decreases node,
{
    match node {
        DefaultDecl::Class(n) => uses_class_expr(ex, n),
        DefaultDecl::Fn(n) => uses_fn_expr(ex, n),
        DefaultDecl::TsInterfaceDecl(n) => uses_syntax(ex, n),
    }
}

/// The uses in an import or export.
pub open spec fn uses_module_decl(ex: Seq<Id>, node: ModuleDecl) -> Seq<Use>
    decreases node,
{
    match node {
        ModuleDecl::Import(n) => uses_nodes(ex, n.specifiers),
        ModuleDecl::ExportDecl { span, decl } => uses_decl(ex, decl),
        ModuleDecl::ExportNamed(n) => uses_specifiers(ex, n.specifiers),
        ModuleDecl::ExportDefaultDecl { span, decl } => uses_default_decl(ex, decl),
        ModuleDecl::ExportDefaultExpr { span, expr } => uses_expr(ex, expr),
        ModuleDecl::ExportAll { span, src } => Seq::empty(),
        ModuleDecl::TsImportEquals(n) => uses_syntax(ex, n),
        ModuleDecl::TsExportAssignment(n) => uses_syntax(ex, n),
        ModuleDecl::TsNamespaceExport(n) => uses_syntax(ex, n),
    }
}

/// The uses in a module item.
pub open spec fn uses_item(ex: Seq<Id>, node: ModuleItem) -> Seq<Use>
    decreases node,
{
    match node {
        ModuleItem::ModuleDecl(decl) => uses_module_decl(ex, decl),
        ModuleItem::Stmt(stmt) => uses_stmt(ex, stmt),
    }
}

/// The uses in the items of a module.
pub open spec fn uses_items(ex: Seq<Id>, run: Run<ModuleItem>) -> Seq<Use>
    decreases run,
{
    match run {
        Run::Empty => Seq::empty(),
        Run::One(x) => uses_item(ex, *x),
        Run::Join(a, b) => uses_items(ex, *a) + uses_items(ex + bound_items(*a), *b),
    }
}

proof fn lemma_uses_ident(m: Marking, ex: Seq<Id>, ident: Ident)
    ensures
        uses_ident(ex, marked_ident(m, ex, ident)) == marked_uses(m, uses_ident(ex, ident)),
{
}

proof fn lemma_uses_nodes(m: Marking, ex: Seq<Id>, run: Run<Node>)
    ensures
        uses_nodes(ex, marked_nodes(m, ex, run)) == marked_uses(m, uses_nodes(ex, run)),
    decreases run,
{
    match run {
        Run::Empty => {},
        Run::One(x) => lemma_uses_node(m, ex, *x),
        Run::Join(a, b) => {
            lemma_marked_nodes(m, ex, *a);
            lemma_uses_nodes(m, ex, *a);
            lemma_uses_nodes(m, ex + bound_nodes(*a), *b);
        },
    }
}

proof fn lemma_uses_node(m: Marking, ex: Seq<Id>, node: Node)
    ensures
        uses_node(ex, marked_node(m, ex, node)) == marked_uses(m, uses_node(ex, node)),
    decreases node,
{
    match node {
        Node::Ident(ident) => lemma_uses_ident(m, ex, ident),
        Node::Parts(parts) => lemma_uses_nodes(m, ex, parts),
        Node::CatchClause(n) => lemma_uses_catch_clause(m, ex, n),
        Node::ClassDecl(n) => lemma_uses_class_decl(m, ex, n),
        Node::ClassExpr(n) => lemma_uses_class_expr(m, ex, n),
        Node::Constructor(n) => lemma_uses_constructor(m, ex, n),
        Node::FnDecl(n) => lemma_uses_fn_decl(m, ex, n),
        Node::FnExpr(n) => lemma_uses_fn_expr(m, ex, n),
        Node::Function(n) => lemma_uses_function(m, ex, n),
        Node::LabeledStmt(n) => lemma_uses_labeled_stmt(m, ex, n),
        Node::MemberExpr(n) => lemma_uses_member_expr(m, ex, n),
        Node::SetterProp(n) => lemma_uses_setter_prop(m, ex, n),
        Node::TsModule(n) => lemma_uses_ts_module(m, ex, n),
    }
}

proof fn lemma_uses_syntax(m: Marking, ex: Seq<Id>, node: Syntax)
    ensures
        uses_syntax(ex, marked_syntax(m, ex, node)) == marked_uses(m, uses_syntax(ex, node)),
    decreases node,
{
    lemma_uses_nodes(m, ex, node.parts);
}

proof fn lemma_uses_catch_clause(m: Marking, ex: Seq<Id>, node: CatchClause)
    ensures
        uses_catch_clause(ex, marked_catch_clause(m, ex, node)) == marked_uses(
            m,
            uses_catch_clause(ex, node),
        ),
    decreases node,
{
    lemma_uses_nodes(m, ex + pats_ids(node.param), node.body);
}

proof fn lemma_uses_class_decl(m: Marking, ex: Seq<Id>, node: ClassDecl)
    ensures
        uses_class_decl(ex, marked_class_decl(m, ex, node)) == marked_uses(
            m,
            uses_class_decl(ex, node),
        ),
    decreases node,
{
    lemma_uses_syntax(m, ex + seq![node.ident.spec_id()], node.class);
}

proof fn lemma_uses_class_expr(m: Marking, ex: Seq<Id>, node: ClassExpr)
    ensures
        uses_class_expr(ex, marked_class_expr(m, ex, node)) == marked_uses(
            m,
            uses_class_expr(ex, node),
        ),
    decreases node,
{
    lemma_uses_syntax(m, ex + ident_ids(node.ident), node.class);
}

proof fn lemma_uses_constructor(m: Marking, ex: Seq<Id>, node: Constructor)
    ensures
        uses_constructor(ex, marked_constructor(m, ex, node)) == marked_uses(
            m,
            uses_constructor(ex, node),
        ),
    decreases node,
{
    lemma_uses_nodes(m, ex + pats_ids(node.params), node.body);
}

proof fn lemma_uses_function(m: Marking, ex: Seq<Id>, node: Function)
    ensures
        uses_function(ex, marked_function(m, ex, node)) == marked_uses(m, uses_function(ex, node)),
    decreases node,
{
    lemma_uses_nodes(m, ex + pats_ids(node.params), node.body);
}

proof fn lemma_uses_fn_decl(m: Marking, ex: Seq<Id>, node: FnDecl)
    ensures
        uses_fn_decl(ex, marked_fn_decl(m, ex, node)) == marked_uses(m, uses_fn_decl(ex, node)),
    decreases node,
{
    lemma_uses_function(m, ex + seq![node.ident.spec_id()], node.function);
}

proof fn lemma_uses_fn_expr(m: Marking, ex: Seq<Id>, node: FnExpr)
    ensures
        uses_fn_expr(ex, marked_fn_expr(m, ex, node)) == marked_uses(m, uses_fn_expr(ex, node)),
    decreases node,
{
    lemma_uses_function(m, ex + ident_ids(node.ident), node.function);
}

proof fn lemma_uses_labeled_stmt(m: Marking, ex: Seq<Id>, node: LabeledStmt)
    ensures
        uses_labeled_stmt(ex, marked_labeled_stmt(m, ex, node)) == marked_uses(
            m,
            uses_labeled_stmt(ex, node),
        ),
    decreases node,
{
    lemma_uses_nodes(m, ex, node.body);
}

proof fn lemma_uses_member_expr(m: Marking, ex: Seq<Id>, node: MemberExpr)
    ensures
        uses_member_expr(ex, marked_member_expr(m, ex, node)) == marked_uses(
            m,
            uses_member_expr(ex, node),
        ),
    decreases node,
{
    lemma_marked_nodes(m, ex, node.obj);
    lemma_uses_nodes(m, ex, node.obj);
    if node.computed {
        lemma_uses_nodes(m, ex + bound_nodes(node.obj), node.prop);
    }
}

proof fn lemma_uses_setter_prop(m: Marking, ex: Seq<Id>, node: SetterProp)
    ensures
        uses_setter_prop(ex, marked_setter_prop(m, ex, node)) == marked_uses(
            m,
            uses_setter_prop(ex, node),
        ),
    decreases node,
{
    lemma_uses_nodes(m, ex + pats_ids(node.param), node.body);
}

proof fn lemma_uses_expr(m: Marking, ex: Seq<Id>, node: Expr)
    ensures
        uses_expr(ex, marked_expr(m, ex, node)) == marked_uses(m, uses_expr(ex, node)),
    decreases node,
{
    match node {
        Expr::Ident(ident) => lemma_uses_ident(m, ex, ident),
        Expr::Other(syntax) => lemma_uses_syntax(m, ex, syntax),
    }
}

proof fn lemma_uses_pats(m: Marking, ex: Seq<Id>, run: Run<Pat>)
    ensures
        uses_pats(ex, marked_pats(m, ex, run)) == marked_uses(m, uses_pats(ex, run)),
    decreases run,
{
    match run {
        Run::Empty => {},
        Run::One(x) => lemma_uses_pat(m, ex, *x),
        Run::Join(a, b) => {
            lemma_marked_pats(m, ex, *a);
            lemma_uses_pats(m, ex, *a);
            lemma_uses_pats(m, ex + bound_pats(*a), *b);
        },
    }
}

proof fn lemma_uses_pat(m: Marking, ex: Seq<Id>, node: Pat)
    ensures
        uses_pat(ex, marked_pat(m, ex, node)) == marked_uses(m, uses_pat(ex, node)),
    decreases node,
{
    match node {
        Pat::Ident(ident) => lemma_uses_ident(m, ex, ident),
        Pat::Expr(expr) => lemma_uses_expr(m, ex, expr),
        Pat::PropName(parts) => lemma_uses_pats(m, ex, parts),
        Pat::Type(parts) => lemma_uses_pats(m, ex, parts),
        Pat::Other { origin, parts } => lemma_uses_pats(m, ex, parts),
    }
}

proof fn lemma_uses_declarator(m: Marking, ex: Seq<Id>, node: VarDeclarator)
    ensures
        uses_declarator(ex, marked_declarator(m, ex, node)) == marked_uses(
            m,
            uses_declarator(ex, node),
        ),
    decreases node,
{
    lemma_marked_pat(m, ex, node.name);
    lemma_uses_pat(m, ex, node.name);
    match node.init {
        Some(init) => lemma_uses_expr(m, ex + bound_pat(node.name), init),
        None => {},
    }
}

proof fn lemma_uses_declarators(m: Marking, ex: Seq<Id>, run: Run<VarDeclarator>)
    ensures
        uses_declarators(ex, marked_declarators(m, ex, run)) == marked_uses(
            m,
            uses_declarators(ex, run),
        ),
    decreases run,
{
    match run {
        Run::Empty => {},
        Run::One(x) => lemma_uses_declarator(m, ex, *x),
        Run::Join(a, b) => {
            lemma_marked_declarators(m, ex, *a);
            lemma_uses_declarators(m, ex, *a);
            lemma_uses_declarators(m, ex + bound_declarators(*a), *b);
        },
    }
}

proof fn lemma_uses_var_decl(m: Marking, ex: Seq<Id>, node: VarDecl)
    ensures
        uses_var_decl(ex, marked_var_decl(m, ex, node)) == marked_uses(m, uses_var_decl(ex, node)),
    decreases node,
{
    lemma_uses_declarators(m, ex, node.decls);
}

proof fn lemma_uses_ts_module(m: Marking, ex: Seq<Id>, node: TsModule)
    ensures
        uses_ts_module(ex, marked_ts_module(m, ex, node)) == marked_uses(
            m,
            uses_ts_module(ex, node),
        ),
    decreases node,
{
    lemma_marked_nodes(m, ex, node.id);
    lemma_uses_nodes(m, ex, node.id);
    lemma_uses_items(m, ex + bound_nodes(node.id), node.body);
}

proof fn lemma_uses_decl(m: Marking, ex: Seq<Id>, node: Decl)
    ensures
        uses_decl(ex, marked_decl(m, ex, node)) == marked_uses(m, uses_decl(ex, node)),
    decreases node,
{
    match node {
        Decl::Class(n) => lemma_uses_class_decl(m, ex, n),
        Decl::Fn(n) => lemma_uses_fn_decl(m, ex, n),
        Decl::Var(n) => lemma_uses_var_decl(m, ex, n),
        Decl::TsInterface(n) => lemma_uses_syntax(m, ex, n),
        Decl::TsTypeAlias(n) => lemma_uses_syntax(m, ex, n),
        Decl::TsEnum(n) => lemma_uses_syntax(m, ex, n),
        Decl::TsModule(n) => lemma_uses_ts_module(m, ex, n),
    }
}

proof fn lemma_uses_stmt(m: Marking, ex: Seq<Id>, node: Stmt)
    ensures
        uses_stmt(ex, marked_stmt(m, ex, node)) == marked_uses(m, uses_stmt(ex, node)),
    decreases node,
{
    match node {
        Stmt::Empty { span } => {},
        Stmt::Decl(decl) => lemma_uses_decl(m, ex, decl),
        Stmt::Expr { span, expr } => lemma_uses_expr(m, ex, expr),
        Stmt::Other(syntax) => lemma_uses_syntax(m, ex, syntax),
    }
}

proof fn lemma_uses_specifier(m: Marking, ex: Seq<Id>, node: ExportSpecifier)
    ensures
        uses_specifier(ex, marked_specifier(m, ex, node)) == marked_uses(
            m,
            uses_specifier(ex, node),
        ),
{
}

proof fn lemma_uses_specifiers(m: Marking, ex: Seq<Id>, run: Run<ExportSpecifier>)
    ensures
        uses_specifiers(ex, marked_specifiers(m, ex, run)) == marked_uses(
            m,
            uses_specifiers(ex, run),
        ),
    decreases run,
{
    match run {
        Run::Empty => {},
        Run::One(x) => lemma_uses_specifier(m, ex, *x),
        Run::Join(a, b) => {
            lemma_uses_specifiers(m, ex, *a);
            lemma_uses_specifiers(m, ex, *b);
        },
    }
}

proof fn lemma_uses_default_decl(m: Marking, ex: Seq<Id>, node: DefaultDecl)
    ensures
        uses_default_decl(ex, marked_default_decl(m, ex, node)) == marked_uses(
            m,
            uses_default_decl(ex, node),
        ),
    decreases node,
{
    match node {
        DefaultDecl::Class(n) => lemma_uses_class_expr(m, ex, n),
        DefaultDecl::Fn(n) => lemma_uses_fn_expr(m, ex, n),
        DefaultDecl::TsInterfaceDecl(n) => lemma_uses_syntax(m, ex, n),
    }
}

proof fn lemma_uses_module_decl(m: Marking, ex: Seq<Id>, node: ModuleDecl)
    ensures
        uses_module_decl(ex, marked_module_decl(m, ex, node)) == marked_uses(
            m,
            uses_module_decl(ex, node),
        ),
    decreases node,
{
    match node {
        ModuleDecl::Import(n) => lemma_uses_nodes(m, ex, n.specifiers),
        ModuleDecl::ExportDecl { span, decl } => lemma_uses_decl(m, ex, decl),
        ModuleDecl::ExportNamed(n) => lemma_uses_specifiers(m, ex, n.specifiers),
        ModuleDecl::ExportDefaultDecl { span, decl } => lemma_uses_default_decl(m, ex, decl),
        ModuleDecl::ExportDefaultExpr { span, expr } => lemma_uses_expr(m, ex, expr),
        ModuleDecl::ExportAll { span, src } => {},
        ModuleDecl::TsImportEquals(n) => lemma_uses_syntax(m, ex, n),
        ModuleDecl::TsExportAssignment(n) => lemma_uses_syntax(m, ex, n),
        ModuleDecl::TsNamespaceExport(n) => lemma_uses_syntax(m, ex, n),
    }
}

proof fn lemma_uses_item(m: Marking, ex: Seq<Id>, node: ModuleItem)
    ensures
        uses_item(ex, marked_item(m, ex, node)) == marked_uses(m, uses_item(ex, node)),
    decreases node,
{
    match node {
        ModuleItem::ModuleDecl(decl) => lemma_uses_module_decl(m, ex, decl),
        ModuleItem::Stmt(stmt) => lemma_uses_stmt(m, ex, stmt),
    }
}

proof fn lemma_uses_items(m: Marking, ex: Seq<Id>, run: Run<ModuleItem>)
    ensures
        uses_items(ex, marked_items(m, ex, run)) == marked_uses(m, uses_items(ex, run)),
    decreases run,
{
    match run {
        Run::Empty => {},
        Run::One(x) => lemma_uses_item(m, ex, *x),
        Run::Join(a, b) => {
            lemma_marked_items(m, ex, *a);
            lemma_uses_items(m, ex, *a);
            lemma_uses_items(m, ex + bound_items(*a), *b);
        },
    }
}

/// Marking a module marks each of its uses under what is hidden there, and
/// leaves the names that are hidden as they are.
pub proof fn law_marking_marks_each_use(m: Marking, ex: Seq<Id>, module: Module)
    ensures
        uses_items(ex, marked_module(m, ex, module).body) == marked_uses(
            m,
            uses_items(ex, module.body),
        ),
{
    lemma_uses_items(m, ex, module.body);
}

} // verus!
