//! Marking of imported names in the module that imports them.
use crate::hygiene::{Mark, SyntaxContext};
use crate::pattern::{find_ids, ident_ids, pats_ids};
use crate::run::Run;
use crate::specifier::Specifier;
use crate::syntax::{
    CatchClause, ClassDecl, ClassExpr, Constructor, Decl, DefaultDecl, ExportSpecifier, Expr,
    FnDecl, FnExpr, Function, Id, Ident, ImportDecl, LabeledStmt, MemberExpr, Module, ModuleDecl,
    ModuleItem, NamedExport, Node, Pat, SetterProp, Stmt, Syntax, TsModule, VarDecl, VarDeclarator,
};
use vstd::prelude::*;

verus! {

/// What a [`LocalMarker`] marks, and how.
pub struct Marking {
    pub mark: u32,
    pub specifiers: Seq<Specifier>,
    pub is_export: bool,
}

impl Marking {
    /// Whether `specifier` is about the name `id`.
    pub open spec fn is_about(self, specifier: Specifier, id: Id) -> bool {
        if self.is_export {
            specifier.spec_foreign() == id
        } else {
            specifier.spec_local() == id
        }
    }

    /// Whether one of the specifiers is about the name `id`.
    pub open spec fn covers(self, id: Id) -> bool {
        exists|i: int|
            0 <= i < self.specifiers.len() && self.is_about(#[trigger] self.specifiers[i], id)
    }
}

/// An identifier, marked if it is covered and not excluded.
pub open spec fn marked_ident(m: Marking, ex: Seq<Id>, ident: Ident) -> Ident {
    if !ex.contains(ident.spec_id()) && m.covers(ident.spec_id()) {
        ident.spec_with_ctxt(SyntaxContext::Marked(m.mark))
    } else {
        ident
    }
}

/// A run of nodes: each is marked under what is excluded before it.
pub open spec fn marked_nodes(m: Marking, ex: Seq<Id>, run: Run<Node>) -> Run<Node>
    decreases run,
{
    match run {
        Run::Empty => Run::Empty,
        Run::One(x) => Run::One(Box::new(marked_node(m, ex, *x))),
        Run::Join(a, b) => Run::Join(
            Box::new(marked_nodes(m, ex, *a)),
            Box::new(marked_nodes(m, ex + bound_nodes(*a), *b)),
        ),
    }
}

/// The names that marking a run excludes, in the order of the visit.
pub open spec fn bound_nodes(run: Run<Node>) -> Seq<Id>
    decreases run,
{
    match run {
        Run::Empty => Seq::empty(),
        Run::One(x) => bound_node(*x),
        Run::Join(a, b) => bound_nodes(*a) + bound_nodes(*b),
    }
}

/// A node, marked.
pub open spec fn marked_node(m: Marking, ex: Seq<Id>, node: Node) -> Node
    decreases node,
{
    match node {
        Node::Ident(ident) => Node::Ident(marked_ident(m, ex, ident)),
        Node::Parts(parts) => Node::Parts(marked_nodes(m, ex, parts)),
        Node::CatchClause(n) => Node::CatchClause(marked_catch_clause(m, ex, n)),
        Node::ClassDecl(n) => Node::ClassDecl(marked_class_decl(m, ex, n)),
        Node::ClassExpr(n) => Node::ClassExpr(marked_class_expr(m, ex, n)),
        Node::Constructor(n) => Node::Constructor(marked_constructor(m, ex, n)),
        Node::FnDecl(n) => Node::FnDecl(marked_fn_decl(m, ex, n)),
        Node::FnExpr(n) => Node::FnExpr(marked_fn_expr(m, ex, n)),
        Node::Function(n) => Node::Function(marked_function(m, ex, n)),
        Node::LabeledStmt(n) => Node::LabeledStmt(marked_labeled_stmt(m, ex, n)),
        Node::MemberExpr(n) => Node::MemberExpr(marked_member_expr(m, ex, n)),
        Node::SetterProp(n) => Node::SetterProp(marked_setter_prop(m, ex, n)),
        Node::TsModule(n) => Node::TsModule(marked_ts_module(m, ex, n)),
    }
}

/// The names that marking a node excludes, in the order of the visit.
pub open spec fn bound_node(node: Node) -> Seq<Id>
    decreases node,
{
    match node {
        Node::Ident(_) => Seq::empty(),
        Node::Parts(parts) => bound_nodes(parts),
        Node::CatchClause(n) => bound_catch_clause(n),
        Node::ClassDecl(n) => bound_class_decl(n),
        Node::ClassExpr(n) => bound_class_expr(n),
        Node::Constructor(n) => bound_constructor(n),
        Node::FnDecl(n) => bound_fn_decl(n),
        Node::FnExpr(n) => bound_fn_expr(n),
        Node::Function(n) => bound_function(n),
        Node::LabeledStmt(n) => bound_labeled_stmt(n),
        Node::MemberExpr(n) => bound_member_expr(n),
        Node::SetterProp(n) => bound_setter_prop(n),
        Node::TsModule(n) => bound_ts_module(n),
    }
}

/// Syntax with its parts marked.
pub open spec fn marked_syntax(m: Marking, ex: Seq<Id>, node: Syntax) -> Syntax
    decreases node,
{
    Syntax { parts: marked_nodes(m, ex, node.parts), ..node }
}

/// The names that marking syntax excludes.
pub open spec fn bound_syntax(node: Syntax) -> Seq<Id>
    decreases node,
{
    bound_nodes(node.parts)
}

/// A catch clause: its parameter shadows in the body, and stays as it is.
pub open spec fn marked_catch_clause(m: Marking, ex: Seq<Id>, node: CatchClause) -> CatchClause
    decreases node,
{
    CatchClause { body: marked_nodes(m, ex + pats_ids(node.param), node.body), ..node }
}

/// The names of the parameter, then those of the body.
pub open spec fn bound_catch_clause(node: CatchClause) -> Seq<Id>
    decreases node,
{
    pats_ids(node.param) + bound_nodes(node.body)
}

/// A class: its name shadows from here on, and stays as it is.
pub open spec fn marked_class_decl(m: Marking, ex: Seq<Id>, node: ClassDecl) -> ClassDecl
    decreases node,
{
    ClassDecl { class: marked_syntax(m, ex + seq![node.ident.spec_id()], node.class), ..node }
}

/// The name of the class, then the names in it.
pub open spec fn bound_class_decl(node: ClassDecl) -> Seq<Id>
    decreases node,
{
    seq![node.ident.spec_id()] + bound_syntax(node.class)
}

/// A class expression: its name shadows from here on, and stays as it is.
pub open spec fn marked_class_expr(m: Marking, ex: Seq<Id>, node: ClassExpr) -> ClassExpr
    decreases node,
{
    ClassExpr { class: marked_syntax(m, ex + ident_ids(node.ident), node.class), ..node }
}

/// The name of the class if it has one, then the names in it.
pub open spec fn bound_class_expr(node: ClassExpr) -> Seq<Id>
    decreases node,
{
    ident_ids(node.ident) + bound_syntax(node.class)
}

/// A constructor: its parameters shadow in the body, and stay as they are.
pub open spec fn marked_constructor(m: Marking, ex: Seq<Id>, node: Constructor) -> Constructor
    decreases node,
{
    Constructor { body: marked_nodes(m, ex + pats_ids(node.params), node.body), ..node }
}

/// The names of the parameters, then those of the body.
pub open spec fn bound_constructor(node: Constructor) -> Seq<Id>
    decreases node,
{
    pats_ids(node.params) + bound_nodes(node.body)
}

/// A function: its parameters shadow in the body, and stay as they are.
pub open spec fn marked_function(m: Marking, ex: Seq<Id>, node: Function) -> Function
    decreases node,
{
    Function { body: marked_nodes(m, ex + pats_ids(node.params), node.body), ..node }
}

/// The names of the parameters, then those of the body.
pub open spec fn bound_function(node: Function) -> Seq<Id>
    decreases node,
{
    pats_ids(node.params) + bound_nodes(node.body)
}

/// A function declaration: its name shadows from here on, and stays as it is.
pub open spec fn marked_fn_decl(m: Marking, ex: Seq<Id>, node: FnDecl) -> FnDecl
    decreases node,
{
    FnDecl { function: marked_function(m, ex + seq![node.ident.spec_id()], node.function), ..node }
}

/// The name of the function, then the names in it.
pub open spec fn bound_fn_decl(node: FnDecl) -> Seq<Id>
    decreases node,
{
    seq![node.ident.spec_id()] + bound_function(node.function)
}

/// A function expression: its name shadows from here on, and stays as it is.
pub open spec fn marked_fn_expr(m: Marking, ex: Seq<Id>, node: FnExpr) -> FnExpr
    decreases node,
{
    FnExpr { function: marked_function(m, ex + ident_ids(node.ident), node.function), ..node }
}

/// The name of the function if it has one, then the names in it.
pub open spec fn bound_fn_expr(node: FnExpr) -> Seq<Id>
    decreases node,
{
    ident_ids(node.ident) + bound_function(node.function)
}

/// A labeled statement: the label stays as it is.
pub open spec fn marked_labeled_stmt(m: Marking, ex: Seq<Id>, node: LabeledStmt) -> LabeledStmt
    decreases node,
{
    LabeledStmt { body: marked_nodes(m, ex, node.body), ..node }
}

/// The names of the body.
pub open spec fn bound_labeled_stmt(node: LabeledStmt) -> Seq<Id>
    decreases node,
{
    bound_nodes(node.body)
}

/// A member expression: a property that is not computed stays as it is.
pub open spec fn marked_member_expr(m: Marking, ex: Seq<Id>, node: MemberExpr) -> MemberExpr
    decreases node,
{
    MemberExpr {
        obj: marked_nodes(m, ex, node.obj),
        prop: if node.computed {
            marked_nodes(m, ex + bound_nodes(node.obj), node.prop)
        } else {
            node.prop
        },
        computed: node.computed,
    }
}

/// The names of the parts that are visited.
pub open spec fn bound_member_expr(node: MemberExpr) -> Seq<Id>
    decreases node,
{
    if node.computed {
        bound_nodes(node.obj) + bound_nodes(node.prop)
    } else {
        bound_nodes(node.obj)
    }
}

/// A setter: its parameter shadows in the body, and stays as it is, as does the
/// key.
pub open spec fn marked_setter_prop(m: Marking, ex: Seq<Id>, node: SetterProp) -> SetterProp
    decreases node,
{
    SetterProp { body: marked_nodes(m, ex + pats_ids(node.param), node.body), ..node }
}

/// The names of the parameter, then those of the body.
pub open spec fn bound_setter_prop(node: SetterProp) -> Seq<Id>
    decreases node,
{
    pats_ids(node.param) + bound_nodes(node.body)
}

/// An expression, marked.
pub open spec fn marked_expr(m: Marking, ex: Seq<Id>, node: Expr) -> Expr
    decreases node,
{
    match node {
        Expr::Ident(ident) => Expr::Ident(marked_ident(m, ex, ident)),
        Expr::Other(syntax) => Expr::Other(marked_syntax(m, ex, syntax)),
    }
}

/// The names that marking an expression excludes.
pub open spec fn bound_expr(node: Expr) -> Seq<Id>
    decreases node,
{
    match node {
        Expr::Ident(_) => Seq::empty(),
        Expr::Other(syntax) => bound_syntax(syntax),
    }
}

/// A run of patterns: each is marked under what is excluded before it.
pub open spec fn marked_pats(m: Marking, ex: Seq<Id>, run: Run<Pat>) -> Run<Pat>
    decreases run,
{
    match run {
        Run::Empty => Run::Empty,
        Run::One(x) => Run::One(Box::new(marked_pat(m, ex, *x))),
        Run::Join(a, b) => Run::Join(
            Box::new(marked_pats(m, ex, *a)),
            Box::new(marked_pats(m, ex + bound_pats(*a), *b)),
        ),
    }
}

/// The names that marking a run excludes, in the order of the visit.
pub open spec fn bound_pats(run: Run<Pat>) -> Seq<Id>
    decreases run,
{
    match run {
        Run::Empty => Seq::empty(),
        Run::One(x) => bound_pat(*x),
        Run::Join(a, b) => bound_pats(*a) + bound_pats(*b),
    }
}

/// A pattern, with every identifier in it marked.
pub open spec fn marked_pat(m: Marking, ex: Seq<Id>, node: Pat) -> Pat
    decreases node,
{
    match node {
        Pat::Ident(ident) => Pat::Ident(marked_ident(m, ex, ident)),
        Pat::Expr(expr) => Pat::Expr(marked_expr(m, ex, expr)),
        Pat::PropName(parts) => Pat::PropName(marked_pats(m, ex, parts)),
        Pat::Type(parts) => Pat::Type(marked_pats(m, ex, parts)),
        Pat::Other { origin, parts } => Pat::Other { origin, parts: marked_pats(m, ex, parts) },
    }
}

/// The names that marking a pattern excludes: those of the expressions in it.
pub open spec fn bound_pat(node: Pat) -> Seq<Id>
    decreases node,
{
    match node {
        Pat::Ident(_) => Seq::empty(),
        Pat::Expr(expr) => bound_expr(expr),
        Pat::PropName(parts) => bound_pats(parts),
        Pat::Type(parts) => bound_pats(parts),
        Pat::Other { origin, parts } => bound_pats(parts),
    }
}

/// A declarator: first its name is marked, then its value.
pub open spec fn marked_declarator(m: Marking, ex: Seq<Id>, node: VarDeclarator) -> VarDeclarator
    decreases node,
{
    VarDeclarator {
        name: marked_pat(m, ex, node.name),
        init: match node.init {
            Some(init) => Some(marked_expr(m, ex + bound_pat(node.name), init)),
            None => None,
        },
        ..node
    }
}

/// The names of the pattern, then those of the value.
pub open spec fn bound_declarator(node: VarDeclarator) -> Seq<Id>
    decreases node,
{
    bound_pat(node.name) + (match node.init {
        Some(init) => bound_expr(init),
        None => Seq::empty(),
    })
}

/// The declarators of a declaration: each is marked under what is excluded before it.
pub open spec fn marked_declarators(
    m: Marking,
    ex: Seq<Id>,
    run: Run<VarDeclarator>,
) -> Run<VarDeclarator>
    decreases run,
{
    match run {
        Run::Empty => Run::Empty,
        Run::One(x) => Run::One(Box::new(marked_declarator(m, ex, *x))),
        Run::Join(a, b) => Run::Join(
            Box::new(marked_declarators(m, ex, *a)),
            Box::new(marked_declarators(m, ex + bound_declarators(*a), *b)),
        ),
    }
}

/// The names that marking a run excludes, in the order of the visit.
pub open spec fn bound_declarators(run: Run<VarDeclarator>) -> Seq<Id>
    decreases run,
{
    match run {
        Run::Empty => Seq::empty(),
        Run::One(x) => bound_declarator(*x),
        Run::Join(a, b) => bound_declarators(*a) + bound_declarators(*b),
    }
}

/// A variable declaration, marked.
pub open spec fn marked_var_decl(m: Marking, ex: Seq<Id>, node: VarDecl) -> VarDecl
    decreases node,
{
    VarDecl { decls: marked_declarators(m, ex, node.decls), ..node }
}

/// The names that marking a variable declaration excludes.
pub open spec fn bound_var_decl(node: VarDecl) -> Seq<Id>
    decreases node,
{
    bound_declarators(node.decls)
}

/// A namespace: first its name is marked, then the items in it.
pub open spec fn marked_ts_module(m: Marking, ex: Seq<Id>, node: TsModule) -> TsModule
    decreases node,
{
    TsModule {
        id: marked_nodes(m, ex, node.id),
        body: marked_items(m, ex + bound_nodes(node.id), node.body),
        ..node
    }
}

/// The names of its name, then those of its items.
pub open spec fn bound_ts_module(node: TsModule) -> Seq<Id>
    decreases node,
{
    bound_nodes(node.id) + bound_items(node.body)
}

/// A declaration, marked.
pub open spec fn marked_decl(m: Marking, ex: Seq<Id>, node: Decl) -> Decl
    decreases node,
{
    match node {
        Decl::Class(n) => Decl::Class(marked_class_decl(m, ex, n)),
        Decl::Fn(n) => Decl::Fn(marked_fn_decl(m, ex, n)),
        Decl::Var(n) => Decl::Var(marked_var_decl(m, ex, n)),
        Decl::TsInterface(n) => Decl::TsInterface(marked_syntax(m, ex, n)),
        Decl::TsTypeAlias(n) => Decl::TsTypeAlias(marked_syntax(m, ex, n)),
        Decl::TsEnum(n) => Decl::TsEnum(marked_syntax(m, ex, n)),
        Decl::TsModule(n) => Decl::TsModule(marked_ts_module(m, ex, n)),
    }
}

/// The names that marking a declaration excludes.
pub open spec fn bound_decl(node: Decl) -> Seq<Id>
    decreases node,
{
    match node {
        Decl::Class(n) => bound_class_decl(n),
        Decl::Fn(n) => bound_fn_decl(n),
        Decl::Var(n) => bound_var_decl(n),
        Decl::TsInterface(n) => bound_syntax(n),
        Decl::TsTypeAlias(n) => bound_syntax(n),
        Decl::TsEnum(n) => bound_syntax(n),
        Decl::TsModule(n) => bound_ts_module(n),
    }
}

/// A statement, marked.
pub open spec fn marked_stmt(m: Marking, ex: Seq<Id>, node: Stmt) -> Stmt
    decreases node,
{
    match node {
        Stmt::Empty { span } => Stmt::Empty { span },
        Stmt::Decl(decl) => Stmt::Decl(marked_decl(m, ex, decl)),
        Stmt::Expr { span, expr } => Stmt::Expr { span, expr: marked_expr(m, ex, expr) },
        Stmt::Other(syntax) => Stmt::Other(marked_syntax(m, ex, syntax)),
    }
}

/// The names that marking a statement excludes.
pub open spec fn bound_stmt(node: Stmt) -> Seq<Id>
    decreases node,
{
    match node {
        Stmt::Empty { span } => Seq::empty(),
        Stmt::Decl(decl) => bound_decl(decl),
        Stmt::Expr { span, expr } => bound_expr(expr),
        Stmt::Other(syntax) => bound_syntax(syntax),
    }
}

/// An export specifier, with its identifiers marked.
pub open spec fn marked_specifier(
    m: Marking,
    ex: Seq<Id>,
    node: ExportSpecifier,
) -> ExportSpecifier {
    match node {
        ExportSpecifier::Namespace { span, name } => ExportSpecifier::Namespace {
            span,
            name: marked_ident(m, ex, name),
        },
        ExportSpecifier::Default { exported } => ExportSpecifier::Default {
            exported: marked_ident(m, ex, exported),
        },
        ExportSpecifier::Named { span, orig, exported } => ExportSpecifier::Named {
            span,
            orig: marked_ident(m, ex, orig),
            exported: match exported {
                Some(exported) => Some(marked_ident(m, ex, exported)),
                None => None,
            },
        },
    }
}

/// The specifiers of an export, marked; none of them excludes a name.
pub open spec fn marked_specifiers(
    m: Marking,
    ex: Seq<Id>,
    run: Run<ExportSpecifier>,
) -> Run<ExportSpecifier>
    decreases run,
{
    match run {
        Run::Empty => Run::Empty,
        Run::One(x) => Run::One(Box::new(marked_specifier(m, ex, *x))),
        Run::Join(a, b) => Run::Join(
            Box::new(marked_specifiers(m, ex, *a)),
            Box::new(marked_specifiers(m, ex, *b)),
        ),
    }
}

/// A default declaration, marked.
pub open spec fn marked_default_decl(m: Marking, ex: Seq<Id>, node: DefaultDecl) -> DefaultDecl
    decreases node,
{
    match node {
        DefaultDecl::Class(n) => DefaultDecl::Class(marked_class_expr(m, ex, n)),
        DefaultDecl::Fn(n) => DefaultDecl::Fn(marked_fn_expr(m, ex, n)),
        DefaultDecl::TsInterfaceDecl(n) => DefaultDecl::TsInterfaceDecl(marked_syntax(m, ex, n)),
    }
}

/// The names that marking a default declaration excludes.
pub open spec fn bound_default_decl(node: DefaultDecl) -> Seq<Id>
    decreases node,
{
    match node {
        DefaultDecl::Class(n) => bound_class_expr(n),
        DefaultDecl::Fn(n) => bound_fn_expr(n),
        DefaultDecl::TsInterfaceDecl(n) => bound_syntax(n),
    }
}

/// An import or export, marked.
pub open spec fn marked_module_decl(m: Marking, ex: Seq<Id>, node: ModuleDecl) -> ModuleDecl
    decreases node,
{
    match node {
        ModuleDecl::Import(n) => ModuleDecl::Import(
            ImportDecl { specifiers: marked_nodes(m, ex, n.specifiers), ..n },
        ),
        ModuleDecl::ExportDecl { span, decl } => ModuleDecl::ExportDecl {
            span,
            decl: marked_decl(m, ex, decl),
        },
        ModuleDecl::ExportNamed(n) => ModuleDecl::ExportNamed(
            NamedExport { specifiers: marked_specifiers(m, ex, n.specifiers), ..n },
        ),
        ModuleDecl::ExportDefaultDecl { span, decl } => ModuleDecl::ExportDefaultDecl {
            span,
            decl: marked_default_decl(m, ex, decl),
        },
        ModuleDecl::ExportDefaultExpr { span, expr } => ModuleDecl::ExportDefaultExpr {
            span,
            expr: marked_expr(m, ex, expr),
        },
        ModuleDecl::ExportAll { span, src } => ModuleDecl::ExportAll { span, src },
        ModuleDecl::TsImportEquals(n) => ModuleDecl::TsImportEquals(marked_syntax(m, ex, n)),
        ModuleDecl::TsExportAssignment(n) => ModuleDecl::TsExportAssignment(
            marked_syntax(m, ex, n),
        ),
        ModuleDecl::TsNamespaceExport(n) => ModuleDecl::TsNamespaceExport(
            marked_syntax(m, ex, n),
        ),
    }
}

/// The names that marking an import or export excludes.
pub open spec fn bound_module_decl(node: ModuleDecl) -> Seq<Id>
    decreases node,
{
    match node {
        ModuleDecl::Import(n) => bound_nodes(n.specifiers),
        ModuleDecl::ExportDecl { span, decl } => bound_decl(decl),
        ModuleDecl::ExportNamed(n) => Seq::empty(),
        ModuleDecl::ExportDefaultDecl { span, decl } => bound_default_decl(decl),
        ModuleDecl::ExportDefaultExpr { span, expr } => bound_expr(expr),
        ModuleDecl::ExportAll { span, src } => Seq::empty(),
        ModuleDecl::TsImportEquals(n) => bound_syntax(n),
        ModuleDecl::TsExportAssignment(n) => bound_syntax(n),
        ModuleDecl::TsNamespaceExport(n) => bound_syntax(n),
    }
}

/// A module item, marked.
pub open spec fn marked_item(m: Marking, ex: Seq<Id>, node: ModuleItem) -> ModuleItem
    decreases node,
{
    match node {
        ModuleItem::ModuleDecl(decl) => ModuleItem::ModuleDecl(marked_module_decl(m, ex, decl)),
        ModuleItem::Stmt(stmt) => ModuleItem::Stmt(marked_stmt(m, ex, stmt)),
    }
}

/// The names that marking a module item excludes.
pub open spec fn bound_item(node: ModuleItem) -> Seq<Id>
    decreases node,
{
    match node {
        ModuleItem::ModuleDecl(decl) => bound_module_decl(decl),
        ModuleItem::Stmt(stmt) => bound_stmt(stmt),
    }
}

/// The items of a module: each is marked under what is excluded before it.
pub open spec fn marked_items(m: Marking, ex: Seq<Id>, run: Run<ModuleItem>) -> Run<ModuleItem>
    decreases run,
{
    match run {
        Run::Empty => Run::Empty,
        Run::One(x) => Run::One(Box::new(marked_item(m, ex, *x))),
        Run::Join(a, b) => Run::Join(
            Box::new(marked_items(m, ex, *a)),
            Box::new(marked_items(m, ex + bound_items(*a), *b)),
        ),
    }
}

/// The names that marking a run excludes, in the order of the visit.
pub open spec fn bound_items(run: Run<ModuleItem>) -> Seq<Id>
    decreases run,
{
    match run {
        Run::Empty => Seq::empty(),
        Run::One(x) => bound_item(*x),
        Run::Join(a, b) => bound_items(*a) + bound_items(*b),
    }
}

/// A module, marked.
pub open spec fn marked_module(m: Marking, ex: Seq<Id>, module: Module) -> Module {
    Module { body: marked_items(m, ex, module.body), ..module }
}

/// Applied to the importer module, and marks (connects) imported idents.
pub struct LocalMarker<'a> {
    pub globals: &'a swc_common::Globals,
    /// Mark applied to imported idents.
    pub mark: Mark,
    pub specifiers: &'a [Specifier],
    pub is_export: bool,
    /// Names that are shadowed, and so not marked.
    pub excluded: Vec<Id>,
}

impl<'a> LocalMarker<'a> {
    /// What is marked, and how.
    pub open spec fn marking(self) -> Marking {
        Marking { mark: self.mark@, specifiers: self.specifiers@, is_export: self.is_export }
    }

    /// Whether `self` is `before` with the names `ids` excluded besides.
    pub open spec fn has_excluded(self, before: Self, ids: Seq<Id>) -> bool {
        &&& self.excluded@ =~= before.excluded@ + ids
        &&& self.globals == before.globals
        &&& self.mark == before.mark
        &&& self.specifiers == before.specifiers
        &&& self.is_export == before.is_export
    }

    /// Whether `self` is `other` with only the first `len` names excluded.
    pub open spec fn is_cut_from(self, other: Self, len: nat) -> bool {
        &&& self.excluded@ =~= other.excluded@.take(len as int)
        &&& self.globals == other.globals
        &&& self.mark == other.mark
        &&& self.specifiers == other.specifiers
        &&& self.is_export == other.is_export
    }

    /// Excludes the names that the patterns bind.
    pub fn exclude(&mut self, excluded_idents: &Run<Pat>)
        ensures
            final(self).has_excluded(*old(self), pats_ids(*excluded_idents)),
    {
        let mut ids = find_ids(excluded_idents);
        self.excluded.append(&mut ids);
    }

    /// Excludes the name of an identifier, if there is one.
    pub fn exclude_ident(&mut self, ident: &Option<Ident>)
        ensures
            final(self).has_excluded(*old(self), ident_ids(*ident)),
    {
        match ident {
            Some(ident) => self.exclude_id(ident.id()),
            None => {},
        }
    }

    fn exclude_id(&mut self, id: Id)
        ensures
            final(self).has_excluded(*old(self), seq![id]),
    {
        self.excluded.push(id);
    }

    /// Calls `op` with the names that the patterns bind excluded, and gives back
    /// what it returned. Afterwards these names, and those that `op` has added
    /// behind them, are excluded no longer.
    ///
    /// `op` must not take names away that were excluded before the call.
    pub fn recurse<F, Ret>(&mut self, excluded_idents: Run<Pat>, op: F) -> (r: Ret) where
        F: FnOnce(Run<Pat>, &mut LocalMarker<'a>) -> Ret,

        requires
            forall|m: &mut LocalMarker<'a>|
                #![auto]
                (*m).has_excluded(*old(self), pats_ids(excluded_idents)) ==> call_requires(
                    op,
                    (excluded_idents, m),
                ),
            forall|m: &mut LocalMarker<'a>, ret: Ret|
                #![auto]
                (*m).has_excluded(*old(self), pats_ids(excluded_idents)) && call_ensures(
                    op,
                    (excluded_idents, m),
                    ret,
                ) ==> old(self).excluded@.len() <= (*final(m)).excluded@.len(),
        ensures
            exists|m: &mut LocalMarker<'a>|
                #![auto]
                (*m).has_excluded(*old(self), pats_ids(excluded_idents)) && call_ensures(
                    op,
                    (excluded_idents, m),
                    r,
                ) && final(self).is_cut_from(*final(m), old(self).excluded@.len()),
            (forall|m: &mut LocalMarker<'a>, ret: Ret|
                #![auto]
                (*m).has_excluded(*old(self), pats_ids(excluded_idents)) && call_ensures(
                    op,
                    (excluded_idents, m),
                    ret,
                ) ==> old(self).excluded@.is_prefix_of((*final(m)).excluded@))
                ==> final(self).excluded@ == old(self).excluded@,
    {
        let len: usize = self.excluded.len();
        self.exclude(&excluded_idents);
        let r = op(excluded_idents, self);
        self.excluded.truncate(len);
        r
    }

    fn is_excluded(&self, id: Id) -> (r: bool)
        ensures
            r == self.excluded@.contains(id),
    {
        let mut i: usize = 0;
        while i < self.excluded.len()
            invariant
                i <= self.excluded@.len(),
                forall|j: int| 0 <= j < i ==> self.excluded@[j] != id,
            decreases self.excluded@.len() - i,
        {
            if self.excluded[i] == id {
                return true;
            }
            i += 1;
        }
        false
    }

    fn covers(&self, id: Id) -> (r: bool)
        ensures
            r == self.marking().covers(id),
    {
        let mut i: usize = 0;
        while i < self.specifiers.len()
            invariant
                i <= self.specifiers@.len(),
                forall|j: int|
                    0 <= j < i ==> !self.marking().is_about(#[trigger] self.specifiers@[j], id),
            decreases self.specifiers@.len() - i,
        {
            let name = if self.is_export {
                self.specifiers[i].foreign()
            } else {
                self.specifiers[i].local()
            };
            if name == id {
                assert(self.marking().is_about(self.marking().specifiers[i as int], id));
                return true;
            }
            i += 1;
        }
        false
    }

    /// Marks an identifier, unless it is excluded or no specifier is about it.
    pub fn fold_ident(&mut self, node: Ident) -> (r: Ident)
        ensures
            r == marked_ident(old(self).marking(), old(self).excluded@, node),
            *final(self) == *old(self),
    {
        if self.is_excluded(node.id()) {
            return node;
        }
        if self.covers(node.id()) {
            node.with_ctxt(SyntaxContext::with_mark(self.globals, self.mark))
        } else {
            node
        }
    }

    /// Folds nodes, first to last.
    pub fn fold_nodes(&mut self, run: Run<Node>) -> (r: Run<Node>)
        ensures
            r == marked_nodes(old(self).marking(), old(self).excluded@, run),
            final(self).has_excluded(*old(self), bound_nodes(run)),
        decreases run,
    {
        match run {
            Run::Empty => Run::Empty,
            Run::One(x) => Run::One(Box::new(self.fold_node(*x))),
            Run::Join(a, b) => {
                let a = self.fold_nodes(*a);
                let b = self.fold_nodes(*b);
                Run::Join(Box::new(a), Box::new(b))
            },
        }
    }

    /// Folds a node.
    pub fn fold_node(&mut self, node: Node) -> (r: Node)
        ensures
            r == marked_node(old(self).marking(), old(self).excluded@, node),
            final(self).has_excluded(*old(self), bound_node(node)),
        decreases node,
    {
        match node {
            Node::Ident(ident) => Node::Ident(self.fold_ident(ident)),
            Node::Parts(parts) => Node::Parts(self.fold_nodes(parts)),
            Node::CatchClause(n) => Node::CatchClause(self.fold_catch_clause(n)),
            Node::ClassDecl(n) => Node::ClassDecl(self.fold_class_decl(n)),
            Node::ClassExpr(n) => Node::ClassExpr(self.fold_class_expr(n)),
            Node::Constructor(n) => Node::Constructor(self.fold_constructor(n)),
            Node::FnDecl(n) => Node::FnDecl(self.fold_fn_decl(n)),
            Node::FnExpr(n) => Node::FnExpr(self.fold_fn_expr(n)),
            Node::Function(n) => Node::Function(self.fold_function(n)),
            Node::LabeledStmt(n) => Node::LabeledStmt(self.fold_labeled_stmt(n)),
            Node::MemberExpr(n) => Node::MemberExpr(self.fold_member_expr(n)),
            Node::SetterProp(n) => Node::SetterProp(self.fold_setter_prop(n)),
            Node::TsModule(n) => Node::TsModule(self.fold_ts_module(n)),
        }
    }

    /// Folds the parts of syntax.
    pub fn fold_syntax(&mut self, node: Syntax) -> (r: Syntax)
        ensures
            r == marked_syntax(old(self).marking(), old(self).excluded@, node),
            final(self).has_excluded(*old(self), bound_syntax(node)),
        decreases node,
    {
        Syntax { origin: node.origin, parts: self.fold_nodes(node.parts) }
    }

    /// Excludes the parameter, and folds the body.
    pub fn fold_catch_clause(&mut self, node: CatchClause) -> (r: CatchClause)
        ensures
            r == marked_catch_clause(old(self).marking(), old(self).excluded@, node),
            final(self).has_excluded(*old(self), bound_catch_clause(node)),
        decreases node,
    {
        self.exclude(&node.param);
        CatchClause { param: node.param, body: self.fold_nodes(node.body) }
    }

    /// Excludes the name of the class, and folds the class.
    pub fn fold_class_decl(&mut self, node: ClassDecl) -> (r: ClassDecl)
        ensures
            r == marked_class_decl(old(self).marking(), old(self).excluded@, node),
            final(self).has_excluded(*old(self), bound_class_decl(node)),
        decreases node,
    {
        self.exclude_id(node.ident.id());
        ClassDecl { ident: node.ident, declare: node.declare, class: self.fold_syntax(node.class) }
    }

    /// Excludes the name of the class, and folds the class.
    pub fn fold_class_expr(&mut self, node: ClassExpr) -> (r: ClassExpr)
        ensures
            r == marked_class_expr(old(self).marking(), old(self).excluded@, node),
            final(self).has_excluded(*old(self), bound_class_expr(node)),
        decreases node,
    {
        self.exclude_ident(&node.ident);
        ClassExpr { ident: node.ident, class: self.fold_syntax(node.class) }
    }

    /// Excludes the parameters, and folds the body.
    pub fn fold_constructor(&mut self, node: Constructor) -> (r: Constructor)
        ensures
            r == marked_constructor(old(self).marking(), old(self).excluded@, node),
            final(self).has_excluded(*old(self), bound_constructor(node)),
        decreases node,
    {
        self.exclude(&node.params);
        Constructor { params: node.params, body: self.fold_nodes(node.body) }
    }

    /// Excludes the name of the function, and folds the function.
    pub fn fold_fn_decl(&mut self, node: FnDecl) -> (r: FnDecl)
        ensures
            r == marked_fn_decl(old(self).marking(), old(self).excluded@, node),
            final(self).has_excluded(*old(self), bound_fn_decl(node)),
        decreases node,
    {
        self.exclude_id(node.ident.id());
        FnDecl {
            ident: node.ident,
            declare: node.declare,
            function: self.fold_function(node.function),
        }
    }

    /// Excludes the name of the function, and folds the function.
    pub fn fold_fn_expr(&mut self, node: FnExpr) -> (r: FnExpr)
        ensures
            r == marked_fn_expr(old(self).marking(), old(self).excluded@, node),
            final(self).has_excluded(*old(self), bound_fn_expr(node)),
        decreases node,
    {
        self.exclude_ident(&node.ident);
        FnExpr { ident: node.ident, function: self.fold_function(node.function) }
    }

    /// Excludes the parameters, and folds the body.
    pub fn fold_function(&mut self, node: Function) -> (r: Function)
        ensures
            r == marked_function(old(self).marking(), old(self).excluded@, node),
            final(self).has_excluded(*old(self), bound_function(node)),
        decreases node,
    {
        self.exclude(&node.params);
        Function { origin: node.origin, params: node.params, body: self.fold_nodes(node.body) }
    }

    /// Folds the body.
    pub fn fold_labeled_stmt(&mut self, node: LabeledStmt) -> (r: LabeledStmt)
        ensures
            r == marked_labeled_stmt(old(self).marking(), old(self).excluded@, node),
            final(self).has_excluded(*old(self), bound_labeled_stmt(node)),
        decreases node,
    {
        LabeledStmt { label: node.label, body: self.fold_nodes(node.body) }
    }

    /// Folds the object, and the property if it is computed.
    pub fn fold_member_expr(&mut self, node: MemberExpr) -> (r: MemberExpr)
        ensures
            r == marked_member_expr(old(self).marking(), old(self).excluded@, node),
            final(self).has_excluded(*old(self), bound_member_expr(node)),
        decreases node,
    {
        let obj = self.fold_nodes(node.obj);
        let prop = if node.computed {
            self.fold_nodes(node.prop)
        } else {
            node.prop
        };
        MemberExpr { obj, prop, computed: node.computed }
    }

    /// Excludes the parameter, and folds the body.
    pub fn fold_setter_prop(&mut self, node: SetterProp) -> (r: SetterProp)
        ensures
            r == marked_setter_prop(old(self).marking(), old(self).excluded@, node),
            final(self).has_excluded(*old(self), bound_setter_prop(node)),
        decreases node,
    {
        self.exclude(&node.param);
        SetterProp { key: node.key, param: node.param, body: self.fold_nodes(node.body) }
    }

    /// Folds an expression.
    pub fn fold_expr(&mut self, node: Expr) -> (r: Expr)
        ensures
            r == marked_expr(old(self).marking(), old(self).excluded@, node),
            final(self).has_excluded(*old(self), bound_expr(node)),
        decreases node,
    {
        match node {
            Expr::Ident(ident) => Expr::Ident(self.fold_ident(ident)),
            Expr::Other(syntax) => Expr::Other(self.fold_syntax(syntax)),
        }
    }

    /// Folds patterns, first to last.
    pub fn fold_pats(&mut self, run: Run<Pat>) -> (r: Run<Pat>)
        ensures
            r == marked_pats(old(self).marking(), old(self).excluded@, run),
            final(self).has_excluded(*old(self), bound_pats(run)),
        decreases run,
    {
        match run {
            Run::Empty => Run::Empty,
            Run::One(x) => Run::One(Box::new(self.fold_pat(*x))),
            Run::Join(a, b) => {
                let a = self.fold_pats(*a);
                let b = self.fold_pats(*b);
                Run::Join(Box::new(a), Box::new(b))
            },
        }
    }

    /// Folds a pattern.
    pub fn fold_pat(&mut self, node: Pat) -> (r: Pat)
        ensures
            r == marked_pat(old(self).marking(), old(self).excluded@, node),
            final(self).has_excluded(*old(self), bound_pat(node)),
        decreases node,
    {
        match node {
            Pat::Ident(ident) => Pat::Ident(self.fold_ident(ident)),
            Pat::Expr(expr) => Pat::Expr(self.fold_expr(expr)),
            Pat::PropName(parts) => Pat::PropName(self.fold_pats(parts)),
            Pat::Type(parts) => Pat::Type(self.fold_pats(parts)),
            Pat::Other { origin, parts } => Pat::Other { origin, parts: self.fold_pats(parts) },
        }
    }

    /// Folds the name of a declarator, then its value.
    pub fn fold_declarator(&mut self, node: VarDeclarator) -> (r: VarDeclarator)
        ensures
            r == marked_declarator(old(self).marking(), old(self).excluded@, node),
            final(self).has_excluded(*old(self), bound_declarator(node)),
        decreases node,
    {
        let name = self.fold_pat(node.name);
        let init = match node.init {
            Some(init) => Some(self.fold_expr(init)),
            None => None,
        };
        VarDeclarator { span: node.span, name, init, definite: node.definite }
    }

    /// Folds declarators, first to last.
    pub fn fold_declarators(&mut self, run: Run<VarDeclarator>) -> (r: Run<VarDeclarator>)
        ensures
            r == marked_declarators(old(self).marking(), old(self).excluded@, run),
            final(self).has_excluded(*old(self), bound_declarators(run)),
        decreases run,
    {
        match run {
            Run::Empty => Run::Empty,
            Run::One(x) => Run::One(Box::new(self.fold_declarator(*x))),
            Run::Join(a, b) => {
                let a = self.fold_declarators(*a);
                let b = self.fold_declarators(*b);
                Run::Join(Box::new(a), Box::new(b))
            },
        }
    }

    /// Folds a variable declaration.
    pub fn fold_var_decl(&mut self, node: VarDecl) -> (r: VarDecl)
        ensures
            r == marked_var_decl(old(self).marking(), old(self).excluded@, node),
            final(self).has_excluded(*old(self), bound_var_decl(node)),
        decreases node,
    {
        VarDecl {
            span: node.span,
            kind: node.kind,
            declare: node.declare,
            decls: self.fold_declarators(node.decls),
        }
    }

    /// Folds the name of a namespace, then its items.
    pub fn fold_ts_module(&mut self, node: TsModule) -> (r: TsModule)
        ensures
            r == marked_ts_module(old(self).marking(), old(self).excluded@, node),
            final(self).has_excluded(*old(self), bound_ts_module(node)),
        decreases node,
    {
        let id = self.fold_nodes(node.id);
        let body = self.fold_items(node.body);
        TsModule { origin: node.origin, id, body }
    }

    /// Folds a declaration.
    pub fn fold_decl(&mut self, node: Decl) -> (r: Decl)
        ensures
            r == marked_decl(old(self).marking(), old(self).excluded@, node),
            final(self).has_excluded(*old(self), bound_decl(node)),
        decreases node,
    {
        match node {
            Decl::Class(n) => Decl::Class(self.fold_class_decl(n)),
            Decl::Fn(n) => Decl::Fn(self.fold_fn_decl(n)),
            Decl::Var(n) => Decl::Var(self.fold_var_decl(n)),
            Decl::TsInterface(n) => Decl::TsInterface(self.fold_syntax(n)),
            Decl::TsTypeAlias(n) => Decl::TsTypeAlias(self.fold_syntax(n)),
            Decl::TsEnum(n) => Decl::TsEnum(self.fold_syntax(n)),
            Decl::TsModule(n) => Decl::TsModule(self.fold_ts_module(n)),
        }
    }

    /// Folds a statement.
    pub fn fold_stmt(&mut self, node: Stmt) -> (r: Stmt)
        ensures
            r == marked_stmt(old(self).marking(), old(self).excluded@, node),
            final(self).has_excluded(*old(self), bound_stmt(node)),
        decreases node,
    {
        match node {
            Stmt::Empty { span } => Stmt::Empty { span },
            Stmt::Decl(decl) => Stmt::Decl(self.fold_decl(decl)),
            Stmt::Expr { span, expr } => Stmt::Expr { span, expr: self.fold_expr(expr) },
            Stmt::Other(syntax) => Stmt::Other(self.fold_syntax(syntax)),
        }
    }

    /// Folds the identifiers of an export specifier.
    pub fn fold_specifier(&mut self, node: ExportSpecifier) -> (r: ExportSpecifier)
        ensures
            r == marked_specifier(old(self).marking(), old(self).excluded@, node),
            *final(self) == *old(self),
    {
        match node {
            ExportSpecifier::Namespace { span, name } => {
                ExportSpecifier::Namespace { span, name: self.fold_ident(name) }
            },
            ExportSpecifier::Default { exported } => {
                ExportSpecifier::Default { exported: self.fold_ident(exported) }
            },
            ExportSpecifier::Named { span, orig, exported } => {
                let orig = self.fold_ident(orig);
                let exported = match exported {
                    Some(exported) => Some(self.fold_ident(exported)),
                    None => None,
                };
                ExportSpecifier::Named { span, orig, exported }
            },
        }
    }

    /// Folds export specifiers, first to last.
    pub fn fold_specifiers(&mut self, run: Run<ExportSpecifier>) -> (r: Run<ExportSpecifier>)
        ensures
            r == marked_specifiers(old(self).marking(), old(self).excluded@, run),
            *final(self) == *old(self),
        decreases run,
    {
        match run {
            Run::Empty => Run::Empty,
            Run::One(x) => Run::One(Box::new(self.fold_specifier(*x))),
            Run::Join(a, b) => {
                let a = self.fold_specifiers(*a);
                let b = self.fold_specifiers(*b);
                Run::Join(Box::new(a), Box::new(b))
            },
        }
    }

    /// Folds a default declaration.
    pub fn fold_default_decl(&mut self, node: DefaultDecl) -> (r: DefaultDecl)
        ensures
            r == marked_default_decl(old(self).marking(), old(self).excluded@, node),
            final(self).has_excluded(*old(self), bound_default_decl(node)),
        decreases node,
    {
        match node {
            DefaultDecl::Class(n) => DefaultDecl::Class(self.fold_class_expr(n)),
            DefaultDecl::Fn(n) => DefaultDecl::Fn(self.fold_fn_expr(n)),
            DefaultDecl::TsInterfaceDecl(n) => DefaultDecl::TsInterfaceDecl(self.fold_syntax(n)),
        }
    }

    /// Folds an import or export.
    pub fn fold_module_decl(&mut self, node: ModuleDecl) -> (r: ModuleDecl)
        ensures
            r == marked_module_decl(old(self).marking(), old(self).excluded@, node),
            final(self).has_excluded(*old(self), bound_module_decl(node)),
        decreases node,
    {
        match node {
            ModuleDecl::Import(n) => ModuleDecl::Import(
                ImportDecl {
                    origin: n.origin,
                    span: n.span,
                    specifiers: self.fold_nodes(n.specifiers),
                    src: n.src,
                    type_only: n.type_only,
                },
            ),
            ModuleDecl::ExportDecl { span, decl } => {
                ModuleDecl::ExportDecl { span, decl: self.fold_decl(decl) }
            },
            ModuleDecl::ExportNamed(n) => ModuleDecl::ExportNamed(
                NamedExport {
                    span: n.span,
                    specifiers: self.fold_specifiers(n.specifiers),
                    src: n.src,
                    type_only: n.type_only,
                },
            ),
            ModuleDecl::ExportDefaultDecl { span, decl } => {
                ModuleDecl::ExportDefaultDecl { span, decl: self.fold_default_decl(decl) }
            },
            ModuleDecl::ExportDefaultExpr { span, expr } => {
                ModuleDecl::ExportDefaultExpr { span, expr: self.fold_expr(expr) }
            },
            ModuleDecl::ExportAll { span, src } => ModuleDecl::ExportAll { span, src },
            ModuleDecl::TsImportEquals(n) => ModuleDecl::TsImportEquals(self.fold_syntax(n)),
            ModuleDecl::TsExportAssignment(n) => {
                ModuleDecl::TsExportAssignment(self.fold_syntax(n))
            },
            ModuleDecl::TsNamespaceExport(n) => ModuleDecl::TsNamespaceExport(self.fold_syntax(n)),
        }
    }

    /// Folds a module item.
    pub fn fold_item(&mut self, node: ModuleItem) -> (r: ModuleItem)
        ensures
            r == marked_item(old(self).marking(), old(self).excluded@, node),
            final(self).has_excluded(*old(self), bound_item(node)),
        decreases node,
    {
        match node {
            ModuleItem::ModuleDecl(decl) => ModuleItem::ModuleDecl(self.fold_module_decl(decl)),
            ModuleItem::Stmt(stmt) => ModuleItem::Stmt(self.fold_stmt(stmt)),
        }
    }

    /// Folds module items, first to last.
    pub fn fold_items(&mut self, run: Run<ModuleItem>) -> (r: Run<ModuleItem>)
        ensures
            r == marked_items(old(self).marking(), old(self).excluded@, run),
            final(self).has_excluded(*old(self), bound_items(run)),
        decreases run,
    {
        match run {
            Run::Empty => Run::Empty,
            Run::One(x) => Run::One(Box::new(self.fold_item(*x))),
            Run::Join(a, b) => {
                let a = self.fold_items(*a);
                let b = self.fold_items(*b);
                Run::Join(Box::new(a), Box::new(b))
            },
        }
    }

    /// Folds a module.
    pub fn fold_module(&mut self, module: Module) -> (r: Module)
        ensures
            r == marked_module(old(self).marking(), old(self).excluded@, module),
            final(self).has_excluded(*old(self), bound_items(module.body)),
    {
        Module {
            span: module.span,
            body: self.fold_items(module.body),
            shebang: module.shebang,
        }
    }
}

} // verus!
