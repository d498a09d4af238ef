//! The namespaces that renaming reaches.
use crate::export_renamer::{
    renamed_catch_clause, renamed_class_decl, renamed_class_expr, renamed_decl, renamed_declarator,
    renamed_declarators, renamed_default_decl, renamed_expr, renamed_fn_decl, renamed_fn_expr,
    renamed_ident, renamed_items, renamed_labeled_stmt, renamed_member_expr, renamed_node,
    renamed_nodes, renamed_opt_ident, renamed_pat, renamed_pats, renamed_setter_prop,
    renamed_specifier, renamed_specifiers, renamed_stmt, renamed_syntax, renamed_ts_module,
    renamed_var_decl, Renaming,
};
use crate::run::Run;
use crate::syntax::{
    CatchClause, ClassDecl, ClassExpr, Decl, DefaultDecl, ExportSpecifier, Expr, FnDecl, FnExpr,
    Ident, LabeledStmt, MemberExpr, Node, Pat, SetterProp, Stmt, Syntax, TsModule, VarDecl,
    VarDeclarator,
};
use vstd::prelude::*;

verus! {

/// Namespaces, each renamed: its name and its items.
pub open spec fn all_renamed(r: Renaming, namespaces: Seq<TsModule>) -> Seq<TsModule> {
    namespaces.map_values(
        |n: TsModule|
            TsModule {
                origin: n.origin,
                id: renamed_nodes(r, n.id),
                body: renamed_items(r, n.body),
            },
    )
}

/// The outermost namespaces in the type annotation of an identifier, in order.
pub open spec fn namespaces_in_ident(node: Ident) -> Seq<TsModule>
    decreases node,
{
    match node.type_ann {
        Some(ann) => namespaces_in_syntax(*ann),
        None => Seq::empty(),
    }
}

/// The outermost namespaces in an optional identifier, in order.
pub open spec fn namespaces_in_opt_ident(node: Option<Ident>) -> Seq<TsModule>
    decreases node,
{
    match node {
        Some(ident) => namespaces_in_ident(ident),
        None => Seq::empty(),
    }
}

/// The outermost namespaces in a run of nodes, in order.
pub open spec fn namespaces_in_nodes(run: Run<Node>) -> Seq<TsModule>
    decreases run,
{
    match run {
        Run::Empty => Seq::empty(),
        Run::One(x) => namespaces_in_node(*x),
        Run::Join(a, b) => namespaces_in_nodes(*a) + namespaces_in_nodes(*b),
    }
}

/// The outermost namespaces in a node, in order.
pub open spec fn namespaces_in_node(node: Node) -> Seq<TsModule>
    decreases node,
{
    match node {
        Node::Ident(ident) => namespaces_in_ident(ident),
        Node::Parts(parts) => namespaces_in_nodes(parts),
        Node::CatchClause(n) => namespaces_in_catch_clause(n),
        Node::ClassDecl(n) => namespaces_in_class_decl(n),
        Node::ClassExpr(n) => namespaces_in_class_expr(n),
        Node::Constructor(n) => Seq::empty(),
        Node::FnDecl(n) => namespaces_in_fn_decl(n),
        Node::FnExpr(n) => namespaces_in_fn_expr(n),
        Node::Function(n) => Seq::empty(),
        Node::LabeledStmt(n) => namespaces_in_labeled_stmt(n),
        Node::MemberExpr(n) => namespaces_in_member_expr(n),
        Node::SetterProp(n) => namespaces_in_setter_prop(n),
        Node::TsModule(n) => namespaces_in_ts_module(n),
    }
}

/// The outermost namespaces in syntax, in order.
pub open spec fn namespaces_in_syntax(node: Syntax) -> Seq<TsModule>
    decreases node,
{
    namespaces_in_nodes(node.parts)
}

/// The outermost namespaces in a catch clause, in order.
pub open spec fn namespaces_in_catch_clause(node: CatchClause) -> Seq<TsModule>
    decreases node,
{
    namespaces_in_pats(node.param) + namespaces_in_nodes(node.body)
}

/// The outermost namespaces in a class declaration, but for the class, in
/// order.
pub open spec fn namespaces_in_class_decl(node: ClassDecl) -> Seq<TsModule>
    decreases node,
{
    namespaces_in_ident(node.ident)
}

/// The outermost namespaces in a class expression, but for the class, in order.
pub open spec fn namespaces_in_class_expr(node: ClassExpr) -> Seq<TsModule>
    decreases node,
{
    namespaces_in_opt_ident(node.ident)
}

/// The outermost namespaces in a function declaration, but for the function, in
/// order.
pub open spec fn namespaces_in_fn_decl(node: FnDecl) -> Seq<TsModule>
    decreases node,
{
    namespaces_in_ident(node.ident)
}

/// The outermost namespaces in a function expression, but for the function, in
/// order.
pub open spec fn namespaces_in_fn_expr(node: FnExpr) -> Seq<TsModule>
    decreases node,
{
    namespaces_in_opt_ident(node.ident)
}

/// The outermost namespaces in a labeled statement, in order.
pub open spec fn namespaces_in_labeled_stmt(node: LabeledStmt) -> Seq<TsModule>
    decreases node,
{
    namespaces_in_ident(node.label) + namespaces_in_nodes(node.body)
}

/// The outermost namespaces in a member expression, in order.
pub open spec fn namespaces_in_member_expr(node: MemberExpr) -> Seq<TsModule>
    decreases node,
{
    namespaces_in_nodes(node.obj) + namespaces_in_nodes(node.prop)
}

/// The outermost namespaces in a setter, in order.
pub open spec fn namespaces_in_setter_prop(node: SetterProp) -> Seq<TsModule>
    decreases node,
{
    namespaces_in_nodes(node.key) + namespaces_in_pats(node.param) + namespaces_in_nodes(node.body)
}

/// The outermost namespaces in an expression, in order.
pub open spec fn namespaces_in_expr(node: Expr) -> Seq<TsModule>
    decreases node,
{
    match node {
        Expr::Ident(ident) => namespaces_in_ident(ident),
        Expr::Other(syntax) => namespaces_in_syntax(syntax),
    }
}

/// The outermost namespaces in a run of patterns, in order.
pub open spec fn namespaces_in_pats(run: Run<Pat>) -> Seq<TsModule>
    decreases run,
{
    match run {
        Run::Empty => Seq::empty(),
        Run::One(x) => namespaces_in_pat(*x),
        Run::Join(a, b) => namespaces_in_pats(*a) + namespaces_in_pats(*b),
    }
}

/// The outermost namespaces in a pattern, in order.
pub open spec fn namespaces_in_pat(node: Pat) -> Seq<TsModule>
    decreases node,
{
    match node {
        Pat::Ident(ident) => namespaces_in_ident(ident),
        Pat::Expr(expr) => namespaces_in_expr(expr),
        Pat::PropName(parts) => namespaces_in_pats(parts),
        Pat::Type(parts) => namespaces_in_pats(parts),
        Pat::Other { origin, parts } => namespaces_in_pats(parts),
    }
}

/// The outermost namespaces in a declarator, in order.
pub open spec fn namespaces_in_declarator(node: VarDeclarator) -> Seq<TsModule>
    decreases node,
{
    namespaces_in_pat(node.name) + (match node.init {
        Some(init) => namespaces_in_expr(init),
        None => Seq::empty(),
    })
}

/// The outermost namespaces in a run of declarators, in order.
pub open spec fn namespaces_in_declarators(run: Run<VarDeclarator>) -> Seq<TsModule>
    decreases run,
{
    match run {
        Run::Empty => Seq::empty(),
        Run::One(x) => namespaces_in_declarator(*x),
        Run::Join(a, b) => namespaces_in_declarators(*a) + namespaces_in_declarators(*b),
    }
}

/// The outermost namespaces in a variable declaration, in order.
pub open spec fn namespaces_in_var_decl(node: VarDecl) -> Seq<TsModule>
    decreases node,
{
    namespaces_in_declarators(node.decls)
}

/// The namespace itself.
pub open spec fn namespaces_in_ts_module(node: TsModule) -> Seq<TsModule> {
    seq![node]
}

/// The outermost namespaces in a declaration, in order.
pub open spec fn namespaces_in_decl(node: Decl) -> Seq<TsModule>
    decreases node,
{
    match node {
        Decl::Class(n) => namespaces_in_class_decl(n),
        Decl::Fn(n) => namespaces_in_fn_decl(n),
        Decl::Var(n) => namespaces_in_var_decl(n),
        Decl::TsInterface(n) => namespaces_in_syntax(n),
        Decl::TsTypeAlias(n) => namespaces_in_syntax(n),
        Decl::TsEnum(n) => namespaces_in_syntax(n),
        Decl::TsModule(n) => namespaces_in_ts_module(n),
    }
}

/// The outermost namespaces in a statement, in order.
pub open spec fn namespaces_in_stmt(node: Stmt) -> Seq<TsModule>
    decreases node,
{
    match node {
        Stmt::Empty { span } => Seq::empty(),
        Stmt::Decl(decl) => namespaces_in_decl(decl),
        Stmt::Expr { span, expr } => namespaces_in_expr(expr),
        Stmt::Other(syntax) => namespaces_in_syntax(syntax),
    }
}

/// The outermost namespaces in an export specifier, in order.
pub open spec fn namespaces_in_specifier(node: ExportSpecifier) -> Seq<TsModule>
    decreases node,
{
    match node {
        ExportSpecifier::Namespace { span, name } => namespaces_in_ident(name),
        ExportSpecifier::Default { exported } => namespaces_in_ident(exported),
        ExportSpecifier::Named { span, orig, exported } => namespaces_in_ident(orig)
            + namespaces_in_opt_ident(exported),
    }
}

/// The outermost namespaces in a run of export specifiers, in order.
pub open spec fn namespaces_in_specifiers(run: Run<ExportSpecifier>) -> Seq<TsModule>
    decreases run,
{
    match run {
        Run::Empty => Seq::empty(),
        Run::One(x) => namespaces_in_specifier(*x),
        Run::Join(a, b) => namespaces_in_specifiers(*a) + namespaces_in_specifiers(*b),
    }
}

/// The outermost namespaces in a default declaration, in order.
pub open spec fn namespaces_in_default_decl(node: DefaultDecl) -> Seq<TsModule>
    decreases node,
{
    match node {
        DefaultDecl::Class(n) => namespaces_in_class_expr(n),
        DefaultDecl::Fn(n) => namespaces_in_fn_expr(n),
        DefaultDecl::TsInterfaceDecl(n) => namespaces_in_syntax(n),
    }
}

/// An identifier, with a blank in the place of each
/// outermost namespace.
pub open spec fn blanked_ident(node: Ident) -> Ident
    decreases node,
{
    Ident {
        type_ann: match node.type_ann {
            Some(ann) => Some(Box::new(blanked_syntax(*ann))),
            None => None,
        },
        ..node
    }
}

/// An optional identifier, with a blank in the place of each outermost
/// namespace.
pub open spec fn blanked_opt_ident(node: Option<Ident>) -> Option<Ident>
    decreases node,
{
    match node {
        Some(ident) => Some(blanked_ident(ident)),
        None => None,
    }
}

/// A run of nodes, with a blank in the place of each outermost namespace.
pub open spec fn blanked_nodes(run: Run<Node>) -> Run<Node>
    decreases run,
{
    match run {
        Run::Empty => Run::Empty,
        Run::One(x) => Run::One(Box::new(blanked_node(*x))),
        Run::Join(a, b) => Run::Join(
            Box::new(blanked_nodes(*a)),
            Box::new(blanked_nodes(*b)),
        ),
    }
}

/// A node, with a blank in the place of each outermost namespace.
pub open spec fn blanked_node(node: Node) -> Node
    decreases node,
{
    match node {
        Node::Ident(ident) => Node::Ident(blanked_ident(ident)),
        Node::Parts(parts) => Node::Parts(blanked_nodes(parts)),
        Node::CatchClause(n) => Node::CatchClause(blanked_catch_clause(n)),
        Node::ClassDecl(n) => Node::ClassDecl(blanked_class_decl(n)),
        Node::ClassExpr(n) => Node::ClassExpr(blanked_class_expr(n)),
        Node::Constructor(n) => Node::Constructor(n),
        Node::FnDecl(n) => Node::FnDecl(blanked_fn_decl(n)),
        Node::FnExpr(n) => Node::FnExpr(blanked_fn_expr(n)),
        Node::Function(n) => Node::Function(n),
        Node::LabeledStmt(n) => Node::LabeledStmt(blanked_labeled_stmt(n)),
        Node::MemberExpr(n) => Node::MemberExpr(blanked_member_expr(n)),
        Node::SetterProp(n) => Node::SetterProp(blanked_setter_prop(n)),
        Node::TsModule(n) => Node::TsModule(blanked_ts_module(n)),
    }
}

/// Syntax, with a blank in the place of each outermost namespace.
pub open spec fn blanked_syntax(node: Syntax) -> Syntax
    decreases node,
{
    Syntax { parts: blanked_nodes(node.parts), ..node }
}

/// A catch clause, with a blank in the place of each outermost namespace.
pub open spec fn blanked_catch_clause(node: CatchClause) -> CatchClause
    decreases node,
{
    CatchClause { param: blanked_pats(node.param), body: blanked_nodes(node.body) }
}

/// A class declaration, but for the class, with a blank in the place of each
/// outermost namespace.
pub open spec fn blanked_class_decl(node: ClassDecl) -> ClassDecl
    decreases node,
{
    ClassDecl { ident: blanked_ident(node.ident), ..node }
}

/// A class expression, but for the class, with a blank in the place of each
/// outermost namespace.
pub open spec fn blanked_class_expr(node: ClassExpr) -> ClassExpr
    decreases node,
{
    ClassExpr { ident: blanked_opt_ident(node.ident), ..node }
}

/// A function declaration, but for the function, with a blank in the place of
/// each outermost namespace.
pub open spec fn blanked_fn_decl(node: FnDecl) -> FnDecl
    decreases node,
{
    FnDecl { ident: blanked_ident(node.ident), ..node }
}

/// A function expression, but for the function, with a blank in the place of
/// each outermost namespace.
pub open spec fn blanked_fn_expr(node: FnExpr) -> FnExpr
    decreases node,
{
    FnExpr { ident: blanked_opt_ident(node.ident), ..node }
}

/// A labeled statement, with a blank in the place of each outermost namespace.
pub open spec fn blanked_labeled_stmt(node: LabeledStmt) -> LabeledStmt
    decreases node,
{
    LabeledStmt { label: blanked_ident(node.label), body: blanked_nodes(node.body) }
}

/// A member expression, with a blank in the place of each outermost namespace.
pub open spec fn blanked_member_expr(node: MemberExpr) -> MemberExpr
    decreases node,
{
    MemberExpr { obj: blanked_nodes(node.obj), prop: blanked_nodes(node.prop), ..node }
}

/// A setter, with a blank in the place of each outermost namespace.
pub open spec fn blanked_setter_prop(node: SetterProp) -> SetterProp
    decreases node,
{
    SetterProp {
        key: blanked_nodes(node.key),
        param: blanked_pats(node.param),
        body: blanked_nodes(node.body),
    }
}

/// An expression, with a blank in the place of each outermost namespace.
pub open spec fn blanked_expr(node: Expr) -> Expr
    decreases node,
{
    match node {
        Expr::Ident(ident) => Expr::Ident(blanked_ident(ident)),
        Expr::Other(syntax) => Expr::Other(blanked_syntax(syntax)),
    }
}

/// A run of patterns, with a blank in the place of each outermost namespace.
pub open spec fn blanked_pats(run: Run<Pat>) -> Run<Pat>
    decreases run,
{
    match run {
        Run::Empty => Run::Empty,
        Run::One(x) => Run::One(Box::new(blanked_pat(*x))),
        Run::Join(a, b) => Run::Join(
            Box::new(blanked_pats(*a)),
            Box::new(blanked_pats(*b)),
        ),
    }
}

/// A pattern, with a blank in the place of each outermost namespace.
pub open spec fn blanked_pat(node: Pat) -> Pat
    decreases node,
{
    match node {
        Pat::Ident(ident) => Pat::Ident(blanked_ident(ident)),
        Pat::Expr(expr) => Pat::Expr(blanked_expr(expr)),
        Pat::PropName(parts) => Pat::PropName(blanked_pats(parts)),
        Pat::Type(parts) => Pat::Type(blanked_pats(parts)),
        Pat::Other { origin, parts } => Pat::Other { origin, parts: blanked_pats(parts) },
    }
}

/// A declarator, with a blank in the place of each outermost namespace.
pub open spec fn blanked_declarator(node: VarDeclarator) -> VarDeclarator
    decreases node,
{
    VarDeclarator {
        name: blanked_pat(node.name),
        init: match node.init {
            Some(init) => Some(blanked_expr(init)),
            None => None,
        },
        ..node
    }
}

/// A run of declarators, with a blank in the place of each outermost namespace.
pub open spec fn blanked_declarators(run: Run<VarDeclarator>) -> Run<VarDeclarator>
    decreases run,
{
    match run {
        Run::Empty => Run::Empty,
        Run::One(x) => Run::One(Box::new(blanked_declarator(*x))),
        Run::Join(a, b) => Run::Join(
            Box::new(blanked_declarators(*a)),
            Box::new(blanked_declarators(*b)),
        ),
    }
}

/// A variable declaration, with a blank in the place of each outermost
/// namespace.
pub open spec fn blanked_var_decl(node: VarDecl) -> VarDecl
    decreases node,
{
    VarDecl { decls: blanked_declarators(node.decls), ..node }
}

/// A blank.
pub open spec fn blanked_ts_module(node: TsModule) -> TsModule {
    TsModule { origin: 0, id: Run::Empty, body: Run::Empty }
}

/// A declaration, with a blank in the place of each outermost namespace.
pub open spec fn blanked_decl(node: Decl) -> Decl
    decreases node,
{
    match node {
        Decl::Class(n) => Decl::Class(blanked_class_decl(n)),
        Decl::Fn(n) => Decl::Fn(blanked_fn_decl(n)),
        Decl::Var(n) => Decl::Var(blanked_var_decl(n)),
        Decl::TsInterface(n) => Decl::TsInterface(blanked_syntax(n)),
        Decl::TsTypeAlias(n) => Decl::TsTypeAlias(blanked_syntax(n)),
        Decl::TsEnum(n) => Decl::TsEnum(blanked_syntax(n)),
        Decl::TsModule(n) => Decl::TsModule(blanked_ts_module(n)),
    }
}

/// A statement, with a blank in the place of each outermost namespace.
pub open spec fn blanked_stmt(node: Stmt) -> Stmt
    decreases node,
{
    match node {
        Stmt::Empty { span } => Stmt::Empty { span },
        Stmt::Decl(decl) => Stmt::Decl(blanked_decl(decl)),
        Stmt::Expr { span, expr } => Stmt::Expr { span, expr: blanked_expr(expr) },
        Stmt::Other(syntax) => Stmt::Other(blanked_syntax(syntax)),
    }
}

/// An export specifier, with a blank in the place of each outermost namespace.
pub open spec fn blanked_specifier(node: ExportSpecifier) -> ExportSpecifier
    decreases node,
{
    match node {
        ExportSpecifier::Namespace { span, name } => ExportSpecifier::Namespace {
            span,
            name: blanked_ident(name),
        },
        ExportSpecifier::Default { exported } => ExportSpecifier::Default {
            exported: blanked_ident(exported),
        },
        ExportSpecifier::Named { span, orig, exported } => ExportSpecifier::Named {
            span,
            orig: blanked_ident(orig),
            exported: blanked_opt_ident(exported),
        },
    }
}

/// A run of export specifiers, with a blank in the place of each outermost
/// namespace.
pub open spec fn blanked_specifiers(run: Run<ExportSpecifier>) -> Run<ExportSpecifier>
    decreases run,
{
    match run {
        Run::Empty => Run::Empty,
        Run::One(x) => Run::One(Box::new(blanked_specifier(*x))),
        Run::Join(a, b) => Run::Join(
            Box::new(blanked_specifiers(*a)),
            Box::new(blanked_specifiers(*b)),
        ),
    }
}

/// A default declaration, with a blank in the place of each outermost
/// namespace.
pub open spec fn blanked_default_decl(node: DefaultDecl) -> DefaultDecl
    decreases node,
{
    match node {
        DefaultDecl::Class(n) => DefaultDecl::Class(blanked_class_expr(n)),
        DefaultDecl::Fn(n) => DefaultDecl::Fn(blanked_fn_expr(n)),
        DefaultDecl::TsInterfaceDecl(n) => DefaultDecl::TsInterfaceDecl(blanked_syntax(n)),
    }
}

proof fn lemma_namespaces_in_ident(r: Renaming, node: Ident)
    ensures
        namespaces_in_ident(renamed_ident(r, node)) == all_renamed(
            r,
            namespaces_in_ident(node),
        ),
        blanked_ident(renamed_ident(r, node)) == blanked_ident(node),
    decreases node,
{
    match node.type_ann {
        Some(ann) => lemma_namespaces_in_syntax(r, *ann),
        None => {},
    }
}

proof fn lemma_namespaces_in_opt_ident(r: Renaming, node: Option<Ident>)
    ensures
        namespaces_in_opt_ident(renamed_opt_ident(r, node)) == all_renamed(
            r,
            namespaces_in_opt_ident(node),
        ),
        blanked_opt_ident(renamed_opt_ident(r, node)) == blanked_opt_ident(node),
    decreases node,
{
    match node {
        Some(ident) => lemma_namespaces_in_ident(r, ident),
        None => {},
    }
}

proof fn lemma_namespaces_in_nodes(r: Renaming, run: Run<Node>)
    ensures
        namespaces_in_nodes(renamed_nodes(r, run)) == all_renamed(
            r,
            namespaces_in_nodes(run),
        ),
        blanked_nodes(renamed_nodes(r, run)) == blanked_nodes(run),
    decreases run,
{
    match run {
        Run::Empty => {},
        Run::One(x) => lemma_namespaces_in_node(r, *x),
        Run::Join(a, b) => {
            lemma_namespaces_in_nodes(r, *a);
            lemma_namespaces_in_nodes(r, *b);
        },
    }
}

proof fn lemma_namespaces_in_node(r: Renaming, node: Node)
    ensures
        namespaces_in_node(renamed_node(r, node)) == all_renamed(
            r,
            namespaces_in_node(node),
        ),
        blanked_node(renamed_node(r, node)) == blanked_node(node),
    decreases node,
{
    match node {
        Node::Ident(ident) => lemma_namespaces_in_ident(r, ident),
        Node::Parts(parts) => lemma_namespaces_in_nodes(r, parts),
        Node::CatchClause(n) => lemma_namespaces_in_catch_clause(r, n),
        Node::ClassDecl(n) => lemma_namespaces_in_class_decl(r, n),
        Node::ClassExpr(n) => lemma_namespaces_in_class_expr(r, n),
        Node::Constructor(n) => {},
        Node::FnDecl(n) => lemma_namespaces_in_fn_decl(r, n),
        Node::FnExpr(n) => lemma_namespaces_in_fn_expr(r, n),
        Node::Function(n) => {},
        Node::LabeledStmt(n) => lemma_namespaces_in_labeled_stmt(r, n),
        Node::MemberExpr(n) => lemma_namespaces_in_member_expr(r, n),
        Node::SetterProp(n) => lemma_namespaces_in_setter_prop(r, n),
        Node::TsModule(n) => lemma_namespaces_in_ts_module(r, n),
    }
}

proof fn lemma_namespaces_in_syntax(r: Renaming, node: Syntax)
    ensures
        namespaces_in_syntax(renamed_syntax(r, node)) == all_renamed(
            r,
            namespaces_in_syntax(node),
        ),
        blanked_syntax(renamed_syntax(r, node)) == blanked_syntax(node),
    decreases node,
{
    lemma_namespaces_in_nodes(r, node.parts);
}

proof fn lemma_namespaces_in_catch_clause(r: Renaming, node: CatchClause)
    ensures
        namespaces_in_catch_clause(renamed_catch_clause(r, node)) == all_renamed(
            r,
            namespaces_in_catch_clause(node),
        ),
        blanked_catch_clause(renamed_catch_clause(r, node)) == blanked_catch_clause(node),
    decreases node,
{
    lemma_namespaces_in_pats(r, node.param);
    lemma_namespaces_in_nodes(r, node.body);
}

proof fn lemma_namespaces_in_class_decl(r: Renaming, node: ClassDecl)
    ensures
        namespaces_in_class_decl(renamed_class_decl(r, node)) == all_renamed(
            r,
            namespaces_in_class_decl(node),
        ),
        blanked_class_decl(renamed_class_decl(r, node)) == blanked_class_decl(node),
    decreases node,
{
    lemma_namespaces_in_ident(r, node.ident);
}

proof fn lemma_namespaces_in_class_expr(r: Renaming, node: ClassExpr)
    ensures
        namespaces_in_class_expr(renamed_class_expr(r, node)) == all_renamed(
            r,
            namespaces_in_class_expr(node),
        ),
        blanked_class_expr(renamed_class_expr(r, node)) == blanked_class_expr(node),
    decreases node,
{
    lemma_namespaces_in_opt_ident(r, node.ident);
}

proof fn lemma_namespaces_in_fn_decl(r: Renaming, node: FnDecl)
    ensures
        namespaces_in_fn_decl(renamed_fn_decl(r, node)) == all_renamed(
            r,
            namespaces_in_fn_decl(node),
        ),
        blanked_fn_decl(renamed_fn_decl(r, node)) == blanked_fn_decl(node),
    decreases node,
{
    lemma_namespaces_in_ident(r, node.ident);
}

proof fn lemma_namespaces_in_fn_expr(r: Renaming, node: FnExpr)
    ensures
        namespaces_in_fn_expr(renamed_fn_expr(r, node)) == all_renamed(
            r,
            namespaces_in_fn_expr(node),
        ),
        blanked_fn_expr(renamed_fn_expr(r, node)) == blanked_fn_expr(node),
    decreases node,
{
    lemma_namespaces_in_opt_ident(r, node.ident);
}

proof fn lemma_namespaces_in_labeled_stmt(r: Renaming, node: LabeledStmt)
    ensures
        namespaces_in_labeled_stmt(renamed_labeled_stmt(r, node)) == all_renamed(
            r,
            namespaces_in_labeled_stmt(node),
        ),
        blanked_labeled_stmt(renamed_labeled_stmt(r, node)) == blanked_labeled_stmt(node),
    decreases node,
{
    lemma_namespaces_in_ident(r, node.label);
    lemma_namespaces_in_nodes(r, node.body);
}

proof fn lemma_namespaces_in_member_expr(r: Renaming, node: MemberExpr)
    ensures
        namespaces_in_member_expr(renamed_member_expr(r, node)) == all_renamed(
            r,
            namespaces_in_member_expr(node),
        ),
        blanked_member_expr(renamed_member_expr(r, node)) == blanked_member_expr(node),
    decreases node,
{
    lemma_namespaces_in_nodes(r, node.obj);
    lemma_namespaces_in_nodes(r, node.prop);
}

proof fn lemma_namespaces_in_setter_prop(r: Renaming, node: SetterProp)
    ensures
        namespaces_in_setter_prop(renamed_setter_prop(r, node)) == all_renamed(
            r,
            namespaces_in_setter_prop(node),
        ),
        blanked_setter_prop(renamed_setter_prop(r, node)) == blanked_setter_prop(node),
    decreases node,
{
    lemma_namespaces_in_nodes(r, node.key);
    lemma_namespaces_in_pats(r, node.param);
    lemma_namespaces_in_nodes(r, node.body);
}

proof fn lemma_namespaces_in_expr(r: Renaming, node: Expr)
    ensures
        namespaces_in_expr(renamed_expr(r, node)) == all_renamed(
            r,
            namespaces_in_expr(node),
        ),
        blanked_expr(renamed_expr(r, node)) == blanked_expr(node),
    decreases node,
{
    match node {
        Expr::Ident(ident) => lemma_namespaces_in_ident(r, ident),
        Expr::Other(syntax) => lemma_namespaces_in_syntax(r, syntax),
    }
}

proof fn lemma_namespaces_in_pats(r: Renaming, run: Run<Pat>)
    ensures
        namespaces_in_pats(renamed_pats(r, run)) == all_renamed(
            r,
            namespaces_in_pats(run),
        ),
        blanked_pats(renamed_pats(r, run)) == blanked_pats(run),
    decreases run,
{
    match run {
        Run::Empty => {},
        Run::One(x) => lemma_namespaces_in_pat(r, *x),
        Run::Join(a, b) => {
            lemma_namespaces_in_pats(r, *a);
            lemma_namespaces_in_pats(r, *b);
        },
    }
}

proof fn lemma_namespaces_in_pat(r: Renaming, node: Pat)
    ensures
        namespaces_in_pat(renamed_pat(r, node)) == all_renamed(
            r,
            namespaces_in_pat(node),
        ),
        blanked_pat(renamed_pat(r, node)) == blanked_pat(node),
    decreases node,
{
    match node {
        Pat::Ident(ident) => lemma_namespaces_in_ident(r, ident),
        Pat::Expr(expr) => lemma_namespaces_in_expr(r, expr),
        Pat::PropName(parts) => lemma_namespaces_in_pats(r, parts),
        Pat::Type(parts) => lemma_namespaces_in_pats(r, parts),
        Pat::Other { origin, parts } => lemma_namespaces_in_pats(r, parts),
    }
}

proof fn lemma_namespaces_in_declarator(r: Renaming, node: VarDeclarator)
    ensures
        namespaces_in_declarator(renamed_declarator(r, node)) == all_renamed(
            r,
            namespaces_in_declarator(node),
        ),
        blanked_declarator(renamed_declarator(r, node)) == blanked_declarator(node),
    decreases node,
{
    lemma_namespaces_in_pat(r, node.name);
    match node.init {
        Some(init) => lemma_namespaces_in_expr(r, init),
        None => {},
    }
}

proof fn lemma_namespaces_in_declarators(r: Renaming, run: Run<VarDeclarator>)
    ensures
        namespaces_in_declarators(renamed_declarators(r, run)) == all_renamed(
            r,
            namespaces_in_declarators(run),
        ),
        blanked_declarators(renamed_declarators(r, run)) == blanked_declarators(run),
    decreases run,
{
    match run {
        Run::Empty => {},
        Run::One(x) => lemma_namespaces_in_declarator(r, *x),
        Run::Join(a, b) => {
            lemma_namespaces_in_declarators(r, *a);
            lemma_namespaces_in_declarators(r, *b);
        },
    }
}

proof fn lemma_namespaces_in_var_decl(r: Renaming, node: VarDecl)
    ensures
        namespaces_in_var_decl(renamed_var_decl(r, node)) == all_renamed(
            r,
            namespaces_in_var_decl(node),
        ),
        blanked_var_decl(renamed_var_decl(r, node)) == blanked_var_decl(node),
    decreases node,
{
    lemma_namespaces_in_declarators(r, node.decls);
}

proof fn lemma_namespaces_in_ts_module(r: Renaming, node: TsModule)
    ensures
        namespaces_in_ts_module(renamed_ts_module(r, node)) == all_renamed(
            r,
            namespaces_in_ts_module(node),
        ),
        blanked_ts_module(renamed_ts_module(r, node)) == blanked_ts_module(node),
{
}

proof fn lemma_namespaces_in_decl(r: Renaming, node: Decl)
    ensures
        namespaces_in_decl(renamed_decl(r, node)) == all_renamed(
            r,
            namespaces_in_decl(node),
        ),
        blanked_decl(renamed_decl(r, node)) == blanked_decl(node),
    decreases node,
{
    match node {
        Decl::Class(n) => lemma_namespaces_in_class_decl(r, n),
        Decl::Fn(n) => lemma_namespaces_in_fn_decl(r, n),
        Decl::Var(n) => lemma_namespaces_in_var_decl(r, n),
        Decl::TsInterface(n) => lemma_namespaces_in_syntax(r, n),
        Decl::TsTypeAlias(n) => lemma_namespaces_in_syntax(r, n),
        Decl::TsEnum(n) => lemma_namespaces_in_syntax(r, n),
        Decl::TsModule(n) => lemma_namespaces_in_ts_module(r, n),
    }
}

proof fn lemma_namespaces_in_stmt(r: Renaming, node: Stmt)
    ensures
        namespaces_in_stmt(renamed_stmt(r, node)) == all_renamed(
            r,
            namespaces_in_stmt(node),
        ),
        blanked_stmt(renamed_stmt(r, node)) == blanked_stmt(node),
    decreases node,
{
    match node {
        Stmt::Empty { span } => {},
        Stmt::Decl(decl) => lemma_namespaces_in_decl(r, decl),
        Stmt::Expr { span, expr } => lemma_namespaces_in_expr(r, expr),
        Stmt::Other(syntax) => lemma_namespaces_in_syntax(r, syntax),
    }
}

proof fn lemma_namespaces_in_specifier(r: Renaming, node: ExportSpecifier)
    ensures
        namespaces_in_specifier(renamed_specifier(r, node)) == all_renamed(
            r,
            namespaces_in_specifier(node),
        ),
        blanked_specifier(renamed_specifier(r, node)) == blanked_specifier(node),
    decreases node,
{
    match node {
        ExportSpecifier::Namespace { span, name } => lemma_namespaces_in_ident(r, name),
        ExportSpecifier::Default { exported } => lemma_namespaces_in_ident(r, exported),
        ExportSpecifier::Named { span, orig, exported } => {
            lemma_namespaces_in_ident(r, orig);
            lemma_namespaces_in_opt_ident(r, exported);
        },
    }
}

proof fn lemma_namespaces_in_specifiers(r: Renaming, run: Run<ExportSpecifier>)
    ensures
        namespaces_in_specifiers(renamed_specifiers(r, run)) == all_renamed(
            r,
            namespaces_in_specifiers(run),
        ),
        blanked_specifiers(renamed_specifiers(r, run)) == blanked_specifiers(run),
    decreases run,
{
    match run {
        Run::Empty => {},
        Run::One(x) => lemma_namespaces_in_specifier(r, *x),
        Run::Join(a, b) => {
            lemma_namespaces_in_specifiers(r, *a);
            lemma_namespaces_in_specifiers(r, *b);
        },
    }
}

proof fn lemma_namespaces_in_default_decl(r: Renaming, node: DefaultDecl)
    ensures
        namespaces_in_default_decl(renamed_default_decl(r, node)) == all_renamed(
            r,
            namespaces_in_default_decl(node),
        ),
        blanked_default_decl(renamed_default_decl(r, node)) == blanked_default_decl(node),
    decreases node,
{
    match node {
        DefaultDecl::Class(n) => lemma_namespaces_in_class_expr(r, n),
        DefaultDecl::Fn(n) => lemma_namespaces_in_fn_expr(r, n),
        DefaultDecl::TsInterfaceDecl(n) => lemma_namespaces_in_syntax(r, n),
    }
}

/// Renaming nodes renames what each outermost namespace in it exports, and
/// changes nothing else. It does not enter classes and functions.
pub proof fn law_renaming_nodes(r: Renaming, run: Run<Node>)
    ensures
        namespaces_in_nodes(renamed_nodes(r, run)) == all_renamed(
            r,
            namespaces_in_nodes(run),
        ),
        blanked_nodes(renamed_nodes(r, run)) == blanked_nodes(run),
{
    lemma_namespaces_in_nodes(r, run);
}

/// Renaming syntax renames what each outermost namespace in it exports, and
/// changes nothing else. It does not enter classes and functions.
pub proof fn law_renaming_syntax(r: Renaming, node: Syntax)
    ensures
        namespaces_in_syntax(renamed_syntax(r, node)) == all_renamed(
            r,
            namespaces_in_syntax(node),
        ),
        blanked_syntax(renamed_syntax(r, node)) == blanked_syntax(node),
{
    lemma_namespaces_in_syntax(r, node);
}

/// Renaming an expression renames what each outermost namespace in it exports,
/// and changes nothing else. It does not enter classes and functions.
pub proof fn law_renaming_expr(r: Renaming, node: Expr)
    ensures
        namespaces_in_expr(renamed_expr(r, node)) == all_renamed(
            r,
            namespaces_in_expr(node),
        ),
        blanked_expr(renamed_expr(r, node)) == blanked_expr(node),
{
    lemma_namespaces_in_expr(r, node);
}

/// Renaming an identifier renames what each outermost namespace in it exports,
/// and changes nothing else. It does not enter classes and functions.
pub proof fn law_renaming_ident(r: Renaming, node: Ident)
    ensures
        namespaces_in_ident(renamed_ident(r, node)) == all_renamed(
            r,
            namespaces_in_ident(node),
        ),
        blanked_ident(renamed_ident(r, node)) == blanked_ident(node),
{
    lemma_namespaces_in_ident(r, node);
}

/// Renaming declarators renames what each outermost namespace in it exports,
/// and changes nothing else. It does not enter classes and functions.
pub proof fn law_renaming_declarators(r: Renaming, run: Run<VarDeclarator>)
    ensures
        namespaces_in_declarators(renamed_declarators(r, run)) == all_renamed(
            r,
            namespaces_in_declarators(run),
        ),
        blanked_declarators(renamed_declarators(r, run)) == blanked_declarators(run),
{
    lemma_namespaces_in_declarators(r, run);
}

/// Renaming a declaration renames what each outermost namespace in it exports,
/// and changes nothing else. It does not enter classes and functions.
pub proof fn law_renaming_decl(r: Renaming, node: Decl)
    ensures
        namespaces_in_decl(renamed_decl(r, node)) == all_renamed(
            r,
            namespaces_in_decl(node),
        ),
        blanked_decl(renamed_decl(r, node)) == blanked_decl(node),
{
    lemma_namespaces_in_decl(r, node);
}

/// Renaming a statement renames what each outermost namespace in it exports,
/// and changes nothing else. It does not enter classes and functions.
pub proof fn law_renaming_stmt(r: Renaming, node: Stmt)
    ensures
        namespaces_in_stmt(renamed_stmt(r, node)) == all_renamed(
            r,
            namespaces_in_stmt(node),
        ),
        blanked_stmt(renamed_stmt(r, node)) == blanked_stmt(node),
{
    lemma_namespaces_in_stmt(r, node);
}

/// Renaming export specifiers renames what each outermost namespace in it
/// exports, and changes nothing else. It does not enter classes and functions.
pub proof fn law_renaming_specifiers(r: Renaming, run: Run<ExportSpecifier>)
    ensures
        namespaces_in_specifiers(renamed_specifiers(r, run)) == all_renamed(
            r,
            namespaces_in_specifiers(run),
        ),
        blanked_specifiers(renamed_specifiers(r, run)) == blanked_specifiers(run),
{
    lemma_namespaces_in_specifiers(r, run);
}

/// Renaming a default declaration renames what each outermost namespace in it
/// exports, and changes nothing else. It does not enter classes and functions.
pub proof fn law_renaming_default_decl(r: Renaming, node: DefaultDecl)
    ensures
        namespaces_in_default_decl(renamed_default_decl(r, node)) == all_renamed(
            r,
            namespaces_in_default_decl(node),
        ),
        blanked_default_decl(renamed_default_decl(r, node)) == blanked_default_decl(node),
{
    lemma_namespaces_in_default_decl(r, node);
}

} // verus!
