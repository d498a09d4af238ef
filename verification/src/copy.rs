//! Copying of syntax.
use crate::run::Run;
use crate::syntax::{
    CatchClause, ClassDecl, ClassExpr, Constructor, Decl, DefaultDecl, ExportSpecifier, Expr,
    FnDecl, FnExpr, Function, Ident, ImportDecl, LabeledStmt, MemberExpr, Module, ModuleDecl,
    ModuleItem, NamedExport, Node, Pat, SetterProp, Stmt, Syntax, TsModule, VarDecl, VarDeclarator,
};
use vstd::prelude::*;

verus! {

/// A copy of an identifier.
fn copy_ident(node: &Ident) -> (r: Ident)
    ensures
        r == *node,
    decreases node,
{
    Ident {
        span: node.span,
        sym: node.sym,
        type_ann: match &node.type_ann {
            Some(ann) => Some(Box::new(copy_syntax(ann))),
            None => None,
        },
        optional: node.optional,
    }
}

/// A copy of an identifier, if there is one.
fn copy_opt_ident(node: &Option<Ident>) -> (r: Option<Ident>)
    ensures
        r == *node,
    decreases node,
{
    match node {
        Some(ident) => Some(copy_ident(ident)),
        None => None,
    }
}

/// A copy of a run.
fn copy_nodes(run: &Run<Node>) -> (r: Run<Node>)
    ensures
        r == *run,
    decreases run,
{
    match run {
        Run::Empty => Run::Empty,
        Run::One(x) => Run::One(Box::new(copy_node(x))),
        Run::Join(a, b) => Run::Join(Box::new(copy_nodes(a)), Box::new(copy_nodes(b))),
    }
}

/// A copy of a node.
fn copy_node(node: &Node) -> (r: Node)
    ensures
        r == *node,
    decreases node,
{
    match node {
        Node::Ident(ident) => Node::Ident(copy_ident(ident)),
        Node::Parts(parts) => Node::Parts(copy_nodes(parts)),
        Node::CatchClause(n) => Node::CatchClause(copy_catch_clause(n)),
        Node::ClassDecl(n) => Node::ClassDecl(copy_class_decl(n)),
        Node::ClassExpr(n) => Node::ClassExpr(copy_class_expr(n)),
        Node::Constructor(n) => Node::Constructor(copy_constructor(n)),
        Node::FnDecl(n) => Node::FnDecl(copy_fn_decl(n)),
        Node::FnExpr(n) => Node::FnExpr(copy_fn_expr(n)),
        Node::Function(n) => Node::Function(copy_function(n)),
        Node::LabeledStmt(n) => Node::LabeledStmt(copy_labeled_stmt(n)),
        Node::MemberExpr(n) => Node::MemberExpr(copy_member_expr(n)),
        Node::SetterProp(n) => Node::SetterProp(copy_setter_prop(n)),
        Node::TsModule(n) => Node::TsModule(copy_ts_module(n)),
    }
}

/// A copy of syntax.
fn copy_syntax(node: &Syntax) -> (r: Syntax)
    ensures
        r == *node,
    decreases node,
{
    Syntax {
        origin: node.origin,
        parts: copy_nodes(&node.parts),
    }
}

/// A copy of a catch clause.
fn copy_catch_clause(node: &CatchClause) -> (r: CatchClause)
    ensures
        r == *node,
    decreases node,
{
    CatchClause {
        param: copy_pats(&node.param),
        body: copy_nodes(&node.body),
    }
}

/// A copy of a class declaration.
fn copy_class_decl(node: &ClassDecl) -> (r: ClassDecl)
    ensures
        r == *node,
    decreases node,
{
    ClassDecl {
        ident: copy_ident(&node.ident),
        declare: node.declare,
        class: copy_syntax(&node.class),
    }
}

/// A copy of a class expression.
fn copy_class_expr(node: &ClassExpr) -> (r: ClassExpr)
    ensures
        r == *node,
    decreases node,
{
    ClassExpr {
        ident: copy_opt_ident(&node.ident),
        class: copy_syntax(&node.class),
    }
}

/// A copy of a constructor.
fn copy_constructor(node: &Constructor) -> (r: Constructor)
    ensures
        r == *node,
    decreases node,
{
    Constructor {
        params: copy_pats(&node.params),
        body: copy_nodes(&node.body),
    }
}

/// A copy of a function.
fn copy_function(node: &Function) -> (r: Function)
    ensures
        r == *node,
    decreases node,
{
    Function {
        origin: node.origin,
        params: copy_pats(&node.params),
        body: copy_nodes(&node.body),
    }
}

/// A copy of a function declaration.
fn copy_fn_decl(node: &FnDecl) -> (r: FnDecl)
    ensures
        r == *node,
    decreases node,
{
    FnDecl {
        ident: copy_ident(&node.ident),
        declare: node.declare,
        function: copy_function(&node.function),
    }
}

/// A copy of a function expression.
fn copy_fn_expr(node: &FnExpr) -> (r: FnExpr)
    ensures
        r == *node,
    decreases node,
{
    FnExpr {
        ident: copy_opt_ident(&node.ident),
        function: copy_function(&node.function),
    }
}

/// A copy of a labeled statement.
fn copy_labeled_stmt(node: &LabeledStmt) -> (r: LabeledStmt)
    ensures
        r == *node,
    decreases node,
{
    LabeledStmt {
        label: copy_ident(&node.label),
        body: copy_nodes(&node.body),
    }
}

/// A copy of a member expression.
fn copy_member_expr(node: &MemberExpr) -> (r: MemberExpr)
    ensures
        r == *node,
    decreases node,
{
    MemberExpr {
        obj: copy_nodes(&node.obj),
        prop: copy_nodes(&node.prop),
        computed: node.computed,
    }
}

/// A copy of a setter.
fn copy_setter_prop(node: &SetterProp) -> (r: SetterProp)
    ensures
        r == *node,
    decreases node,
{
    SetterProp {
        key: copy_nodes(&node.key),
        param: copy_pats(&node.param),
        body: copy_nodes(&node.body),
    }
}

/// A copy of an expression.
fn copy_expr(node: &Expr) -> (r: Expr)
    ensures
        r == *node,
    decreases node,
{
    match node {
        Expr::Ident(ident) => Expr::Ident(copy_ident(ident)),
        Expr::Other(syntax) => Expr::Other(copy_syntax(syntax)),
    }
}

/// A copy of a run.
fn copy_pats(run: &Run<Pat>) -> (r: Run<Pat>)
    ensures
        r == *run,
    decreases run,
{
    match run {
        Run::Empty => Run::Empty,
        Run::One(x) => Run::One(Box::new(copy_pat(x))),
        Run::Join(a, b) => Run::Join(Box::new(copy_pats(a)), Box::new(copy_pats(b))),
    }
}

/// A copy of a pattern.
fn copy_pat(node: &Pat) -> (r: Pat)
    ensures
        r == *node,
    decreases node,
{
    match node {
        Pat::Ident(ident) => Pat::Ident(copy_ident(ident)),
        Pat::Expr(expr) => Pat::Expr(copy_expr(expr)),
        Pat::PropName(parts) => Pat::PropName(copy_pats(parts)),
        Pat::Type(parts) => Pat::Type(copy_pats(parts)),
        Pat::Other { origin, parts } => Pat::Other { origin: *origin, parts: copy_pats(parts) },
    }
}

/// A copy of a declarator.
fn copy_declarator(node: &VarDeclarator) -> (r: VarDeclarator)
    ensures
        r == *node,
    decreases node,
{
    VarDeclarator {
        span: node.span,
        name: copy_pat(&node.name),
        init: match &node.init {
            Some(init) => Some(copy_expr(init)),
            None => None,
        },
        definite: node.definite,
    }
}

/// A copy of a run.
fn copy_declarators(run: &Run<VarDeclarator>) -> (r: Run<VarDeclarator>)
    ensures
        r == *run,
    decreases run,
{
    match run {
        Run::Empty => Run::Empty,
        Run::One(x) => Run::One(Box::new(copy_declarator(x))),
        Run::Join(a, b) => Run::Join(Box::new(copy_declarators(a)), Box::new(copy_declarators(b))),
    }
}

/// A copy of a variable declaration.
fn copy_var_decl(node: &VarDecl) -> (r: VarDecl)
    ensures
        r == *node,
    decreases node,
{
    VarDecl {
        span: node.span,
        kind: node.kind,
        declare: node.declare,
        decls: copy_declarators(&node.decls),
    }
}

/// A copy of a namespace.
fn copy_ts_module(node: &TsModule) -> (r: TsModule)
    ensures
        r == *node,
    decreases node,
{
    TsModule {
        origin: node.origin,
        id: copy_nodes(&node.id),
        body: copy_items(&node.body),
    }
}

/// A copy of a declaration.
fn copy_decl(node: &Decl) -> (r: Decl)
    ensures
        r == *node,
    decreases node,
{
    match node {
        Decl::Class(n) => Decl::Class(copy_class_decl(n)),
        Decl::Fn(n) => Decl::Fn(copy_fn_decl(n)),
        Decl::Var(n) => Decl::Var(copy_var_decl(n)),
        Decl::TsInterface(n) => Decl::TsInterface(copy_syntax(n)),
        Decl::TsTypeAlias(n) => Decl::TsTypeAlias(copy_syntax(n)),
        Decl::TsEnum(n) => Decl::TsEnum(copy_syntax(n)),
        Decl::TsModule(n) => Decl::TsModule(copy_ts_module(n)),
    }
}

/// A copy of a statement.
fn copy_stmt(node: &Stmt) -> (r: Stmt)
    ensures
        r == *node,
    decreases node,
{
    match node {
        Stmt::Empty { span } => Stmt::Empty { span: *span },
        Stmt::Decl(decl) => Stmt::Decl(copy_decl(decl)),
        Stmt::Expr { span, expr } => Stmt::Expr { span: *span, expr: copy_expr(expr) },
        Stmt::Other(syntax) => Stmt::Other(copy_syntax(syntax)),
    }
}

/// A copy of an export specifier.
fn copy_specifier(node: &ExportSpecifier) -> (r: ExportSpecifier)
    ensures
        r == *node,
    decreases node,
{
    match node {
        ExportSpecifier::Namespace { span, name } => {
            ExportSpecifier::Namespace { span: *span, name: copy_ident(name) }
        },
        ExportSpecifier::Default { exported } => {
            ExportSpecifier::Default { exported: copy_ident(exported) }
        },
        ExportSpecifier::Named { span, orig, exported } => ExportSpecifier::Named {
            span: *span,
            orig: copy_ident(orig),
            exported: copy_opt_ident(exported),
        },
    }
}

/// A copy of a run.
fn copy_specifiers(run: &Run<ExportSpecifier>) -> (r: Run<ExportSpecifier>)
    ensures
        r == *run,
    decreases run,
{
    match run {
        Run::Empty => Run::Empty,
        Run::One(x) => Run::One(Box::new(copy_specifier(x))),
        Run::Join(a, b) => Run::Join(Box::new(copy_specifiers(a)), Box::new(copy_specifiers(b))),
    }
}

/// A copy of a default declaration.
fn copy_default_decl(node: &DefaultDecl) -> (r: DefaultDecl)
    ensures
        r == *node,
    decreases node,
{
    match node {
        DefaultDecl::Class(n) => DefaultDecl::Class(copy_class_expr(n)),
        DefaultDecl::Fn(n) => DefaultDecl::Fn(copy_fn_expr(n)),
        DefaultDecl::TsInterfaceDecl(n) => DefaultDecl::TsInterfaceDecl(copy_syntax(n)),
    }
}

/// A copy of an import or export.
fn copy_module_decl(node: &ModuleDecl) -> (r: ModuleDecl)
    ensures
        r == *node,
    decreases node,
{
    match node {
        ModuleDecl::Import(n) => ModuleDecl::Import(
            ImportDecl {
                origin: n.origin,
                span: n.span,
                specifiers: copy_nodes(&n.specifiers),
                src: n.src,
                type_only: n.type_only,
            },
        ),
        ModuleDecl::ExportDecl { span, decl } => {
            ModuleDecl::ExportDecl { span: *span, decl: copy_decl(decl) }
        },
        ModuleDecl::ExportNamed(n) => ModuleDecl::ExportNamed(
            NamedExport {
                span: n.span,
                specifiers: copy_specifiers(&n.specifiers),
                src: n.src,
                type_only: n.type_only,
            },
        ),
        ModuleDecl::ExportDefaultDecl { span, decl } => {
            ModuleDecl::ExportDefaultDecl { span: *span, decl: copy_default_decl(decl) }
        },
        ModuleDecl::ExportDefaultExpr { span, expr } => {
            ModuleDecl::ExportDefaultExpr { span: *span, expr: copy_expr(expr) }
        },
        ModuleDecl::ExportAll { span, src } => ModuleDecl::ExportAll { span: *span, src: *src },
        ModuleDecl::TsImportEquals(n) => ModuleDecl::TsImportEquals(copy_syntax(n)),
        ModuleDecl::TsExportAssignment(n) => ModuleDecl::TsExportAssignment(copy_syntax(n)),
        ModuleDecl::TsNamespaceExport(n) => ModuleDecl::TsNamespaceExport(copy_syntax(n)),
    }
}

/// A copy of a module item.
fn copy_item(node: &ModuleItem) -> (r: ModuleItem)
    ensures
        r == *node,
    decreases node,
{
    match node {
        ModuleItem::ModuleDecl(decl) => ModuleItem::ModuleDecl(copy_module_decl(decl)),
        ModuleItem::Stmt(stmt) => ModuleItem::Stmt(copy_stmt(stmt)),
    }
}

/// A copy of a run.
fn copy_items(run: &Run<ModuleItem>) -> (r: Run<ModuleItem>)
    ensures
        r == *run,
    decreases run,
{
    match run {
        Run::Empty => Run::Empty,
        Run::One(x) => Run::One(Box::new(copy_item(x))),
        Run::Join(a, b) => Run::Join(Box::new(copy_items(a)), Box::new(copy_items(b))),
    }
}

impl Clone for Module {
    fn clone(&self) -> (r: Self)
        ensures
            r == *self,
    {
        Module { span: self.span, body: copy_items(&self.body), shebang: self.shebang }
    }
}

} // verus!
