//! Renaming of what a dependency exports to the names that its importer uses.
use crate::actual_marker::{
    actual_declarators, actual_ident, find_taker, lemma_taker_is_first, local_name, takes,
    ActualMarker,
};
use crate::hygiene::{Mark, Span};
use crate::run::Run;
use crate::specifier::Specifier;
use crate::syntax::{
    CatchClause, ClassDecl, ClassExpr, Decl, DefaultDecl, ExportSpecifier, Expr, FnDecl, FnExpr,
    Id, Ident, ImportDecl, LabeledStmt, MemberExpr, Module, ModuleDecl, ModuleItem, NamedExport,
    Node, Pat, SetterProp, Stmt, Syntax, TsModule, VarDecl, VarDeclKind, VarDeclarator, Word,
};
use vstd::prelude::*;

verus! {

/// What an [`ExportRenamer`] renames to: the importer's specifiers, and the
/// mark that its names get.
pub struct Renaming {
    pub mark: u32,
    pub imports: Seq<Specifier>,
}

/// The name under which a specifier exports.
pub open spec fn exported_name(specifier: ExportSpecifier) -> Word {
    match specifier {
        ExportSpecifier::Namespace { span, name } => name.sym,
        ExportSpecifier::Default { exported } => Word::spec_default_word(),
        ExportSpecifier::Named { span, orig, exported: Some(exported) } => exported.sym,
        ExportSpecifier::Named { span, orig, exported: None } => orig.sym,
    }
}

/// The identifier that a specifier exports.
pub open spec fn exported_ident(specifier: ExportSpecifier) -> Ident {
    match specifier {
        ExportSpecifier::Namespace { span, name } => name,
        ExportSpecifier::Default { exported } => Ident::spec_new(
            Word::spec_default_word(),
            exported.span,
        ),
        ExportSpecifier::Named { span, orig, exported } => orig,
    }
}

/// `name = init` for a name of the importer.
pub open spec fn binding(r: Renaming, span: Span, local: Id, init: Expr) -> VarDeclarator {
    VarDeclarator {
        span,
        name: Pat::Ident(local.spec_replace_mark(r.mark).spec_into_ident()),
        init: Some(init),
        definite: false,
    }
}

/// `const decls;`
pub open spec fn const_decl(span: Span, decls: Run<VarDeclarator>) -> Stmt {
    Stmt::Decl(Decl::Var(VarDecl { span, kind: VarDeclKind::Const, declare: false, decls }))
}

/// One declarator for each specifier that the importer takes by name: it binds
/// the importer's name to the identifier that is exported.
pub open spec fn bindings(r: Renaming, specifiers: Run<ExportSpecifier>) -> Run<VarDeclarator>
    decreases specifiers,
{
    match specifiers {
        Run::Empty => Run::Empty,
        Run::One(x) => match local_name(r.imports, exported_name(*x)) {
            Some(local) => Run::One(
                Box::new(binding(r, x.spec_span(), local, Expr::Ident(exported_ident(*x)))),
            ),
            None => Run::Empty,
        },
        Run::Join(a, b) => Run::Join(Box::new(bindings(r, *a)), Box::new(bindings(r, *b))),
    }
}

/// A declaration that is exported: a class or function turns into a plain
/// declaration under the importer's name, variables get the importer's names,
/// and anything else stays exported as it is.
pub open spec fn renamed_export(r: Renaming, span: Span, decl: Decl) -> ModuleItem {
    match decl {
        Decl::Class(c) => ModuleItem::Stmt(
            Stmt::Decl(
                Decl::Class(
                    ClassDecl { ident: actual_ident(r.mark, r.imports, c.ident), ..c },
                ),
            ),
        ),
        Decl::Fn(f) => ModuleItem::Stmt(
            Stmt::Decl(
                Decl::Fn(FnDecl { ident: actual_ident(r.mark, r.imports, f.ident), ..f }),
            ),
        ),
        Decl::Var(v) => ModuleItem::ModuleDecl(
            ModuleDecl::ExportDecl {
                span,
                decl: Decl::Var(
                    VarDecl { decls: actual_declarators(r.mark, r.imports, v.decls), ..v },
                ),
            },
        ),
        _ => ModuleItem::ModuleDecl(ModuleDecl::ExportDecl { span, decl }),
    }
}

/// `export default expr`: binds the importer's name to the value if the
/// importer takes the default export, and else only evaluates it.
pub open spec fn renamed_default(r: Renaming, span: Span, expr: Expr) -> Stmt {
    match local_name(r.imports, Word::spec_default_word()) {
        Some(local) => const_decl(
            span,
            Run::One(Box::new(binding(r, Span::spec_dummy(), local, expr))),
        ),
        None => Stmt::Expr { span, expr },
    }
}

/// An identifier, whose type annotation has what the namespaces in it export
/// renamed.
pub open spec fn renamed_ident(r: Renaming, node: Ident) -> Ident
    decreases node,
{
    Ident {
        type_ann: match node.type_ann {
            Some(ann) => Some(Box::new(renamed_syntax(r, *ann))),
            None => None,
        },
        ..node
    }
}

/// An identifier, if there is one.
pub open spec fn renamed_opt_ident(r: Renaming, node: Option<Ident>) -> Option<Ident>
    decreases node,
{
    match node {
        Some(ident) => Some(renamed_ident(r, ident)),
        None => None,
    }
}

/// Nodes, each with what the namespaces in it export renamed.
pub open spec fn renamed_nodes(r: Renaming, run: Run<Node>) -> Run<Node>
    decreases run,
{
    match run {
        Run::Empty => Run::Empty,
        Run::One(x) => Run::One(Box::new(renamed_node(r, *x))),
        Run::Join(a, b) => Run::Join(
            Box::new(renamed_nodes(r, *a)),
            Box::new(renamed_nodes(r, *b)),
        ),
    }
}

/// A node, with what the namespaces in it export renamed. Constructors and
/// functions stay as they are.
pub open spec fn renamed_node(r: Renaming, node: Node) -> Node
    decreases node,
{
    match node {
        Node::Ident(ident) => Node::Ident(renamed_ident(r, ident)),
        Node::Parts(parts) => Node::Parts(renamed_nodes(r, parts)),
        Node::CatchClause(n) => Node::CatchClause(renamed_catch_clause(r, n)),
        Node::ClassDecl(n) => Node::ClassDecl(renamed_class_decl(r, n)),
        Node::ClassExpr(n) => Node::ClassExpr(renamed_class_expr(r, n)),
        Node::Constructor(n) => Node::Constructor(n),
        Node::FnDecl(n) => Node::FnDecl(renamed_fn_decl(r, n)),
        Node::FnExpr(n) => Node::FnExpr(renamed_fn_expr(r, n)),
        Node::Function(n) => Node::Function(n),
        Node::LabeledStmt(n) => Node::LabeledStmt(renamed_labeled_stmt(r, n)),
        Node::MemberExpr(n) => Node::MemberExpr(renamed_member_expr(r, n)),
        Node::SetterProp(n) => Node::SetterProp(renamed_setter_prop(r, n)),
        Node::TsModule(n) => Node::TsModule(renamed_ts_module(r, n)),
    }
}

/// Syntax, with what the namespaces in it export renamed.
pub open spec fn renamed_syntax(r: Renaming, node: Syntax) -> Syntax
    decreases node,
{
    Syntax { parts: renamed_nodes(r, node.parts), ..node }
}

/// A catch clause, with what the namespaces in it export renamed.
pub open spec fn renamed_catch_clause(r: Renaming, node: CatchClause) -> CatchClause
    decreases node,
{
    CatchClause { param: renamed_pats(r, node.param), body: renamed_nodes(r, node.body) }
}

/// A class declaration: the class stays as it is.
pub open spec fn renamed_class_decl(r: Renaming, node: ClassDecl) -> ClassDecl
    decreases node,
{
    ClassDecl { ident: renamed_ident(r, node.ident), ..node }
}

/// A class expression: the class stays as it is.
pub open spec fn renamed_class_expr(r: Renaming, node: ClassExpr) -> ClassExpr
    decreases node,
{
    ClassExpr { ident: renamed_opt_ident(r, node.ident), ..node }
}

/// A function declaration: the function stays as it is.
pub open spec fn renamed_fn_decl(r: Renaming, node: FnDecl) -> FnDecl
    decreases node,
{
    FnDecl { ident: renamed_ident(r, node.ident), ..node }
}

/// A function expression: the function stays as it is.
pub open spec fn renamed_fn_expr(r: Renaming, node: FnExpr) -> FnExpr
    decreases node,
{
    FnExpr { ident: renamed_opt_ident(r, node.ident), ..node }
}

/// A labeled statement, with what the namespaces in it export renamed.
pub open spec fn renamed_labeled_stmt(r: Renaming, node: LabeledStmt) -> LabeledStmt
    decreases node,
{
    LabeledStmt { label: renamed_ident(r, node.label), body: renamed_nodes(r, node.body) }
}

/// A member expression, with what the namespaces in it export renamed.
pub open spec fn renamed_member_expr(r: Renaming, node: MemberExpr) -> MemberExpr
    decreases node,
{
    MemberExpr { obj: renamed_nodes(r, node.obj), prop: renamed_nodes(r, node.prop), ..node }
}

/// A setter, with what the namespaces in it export renamed.
pub open spec fn renamed_setter_prop(r: Renaming, node: SetterProp) -> SetterProp
    decreases node,
{
    SetterProp {
        key: renamed_nodes(r, node.key),
        param: renamed_pats(r, node.param),
        body: renamed_nodes(r, node.body),
    }
}

/// An expression, with what the namespaces in it export renamed.
pub open spec fn renamed_expr(r: Renaming, node: Expr) -> Expr
    decreases node,
{
    match node {
        Expr::Ident(ident) => Expr::Ident(renamed_ident(r, ident)),
        Expr::Other(syntax) => Expr::Other(renamed_syntax(r, syntax)),
    }
}

/// Patterns, each with what the namespaces in it export renamed.
pub open spec fn renamed_pats(r: Renaming, run: Run<Pat>) -> Run<Pat>
    decreases run,
{
    match run {
        Run::Empty => Run::Empty,
        Run::One(x) => Run::One(Box::new(renamed_pat(r, *x))),
        Run::Join(a, b) => Run::Join(
            Box::new(renamed_pats(r, *a)),
            Box::new(renamed_pats(r, *b)),
        ),
    }
}

/// A pattern, with what the namespaces in it export renamed.
pub open spec fn renamed_pat(r: Renaming, node: Pat) -> Pat
    decreases node,
{
    match node {
        Pat::Ident(ident) => Pat::Ident(renamed_ident(r, ident)),
        Pat::Expr(expr) => Pat::Expr(renamed_expr(r, expr)),
        Pat::PropName(parts) => Pat::PropName(renamed_pats(r, parts)),
        Pat::Type(parts) => Pat::Type(renamed_pats(r, parts)),
        Pat::Other { origin, parts } => Pat::Other { origin, parts: renamed_pats(r, parts) },
    }
}

/// A declarator, with what the namespaces in it export renamed.
pub open spec fn renamed_declarator(r: Renaming, node: VarDeclarator) -> VarDeclarator
    decreases node,
{
    VarDeclarator {
        name: renamed_pat(r, node.name),
        init: match node.init {
            Some(init) => Some(renamed_expr(r, init)),
            None => None,
        },
        ..node
    }
}

/// Declarators, each with what the namespaces in it export renamed.
pub open spec fn renamed_declarators(r: Renaming, run: Run<VarDeclarator>) -> Run<VarDeclarator>
    decreases run,
{
    match run {
        Run::Empty => Run::Empty,
        Run::One(x) => Run::One(Box::new(renamed_declarator(r, *x))),
        Run::Join(a, b) => Run::Join(
            Box::new(renamed_declarators(r, *a)),
            Box::new(renamed_declarators(r, *b)),
        ),
    }
}

/// A variable declaration, with what the namespaces in it export renamed.
pub open spec fn renamed_var_decl(r: Renaming, node: VarDecl) -> VarDecl
    decreases node,
{
    VarDecl { decls: renamed_declarators(r, node.decls), ..node }
}

/// A namespace, with what it exports renamed.
pub open spec fn renamed_ts_module(r: Renaming, node: TsModule) -> TsModule
    decreases node,
{
    TsModule { id: renamed_nodes(r, node.id), body: renamed_items(r, node.body), ..node }
}

/// A declaration, with what the namespaces in it export renamed.
pub open spec fn renamed_decl(r: Renaming, node: Decl) -> Decl
    decreases node,
{
    match node {
        Decl::Class(n) => Decl::Class(renamed_class_decl(r, n)),
        Decl::Fn(n) => Decl::Fn(renamed_fn_decl(r, n)),
        Decl::Var(n) => Decl::Var(renamed_var_decl(r, n)),
        Decl::TsInterface(n) => Decl::TsInterface(renamed_syntax(r, n)),
        Decl::TsTypeAlias(n) => Decl::TsTypeAlias(renamed_syntax(r, n)),
        Decl::TsEnum(n) => Decl::TsEnum(renamed_syntax(r, n)),
        Decl::TsModule(n) => Decl::TsModule(renamed_ts_module(r, n)),
    }
}

/// A statement, with what the namespaces in it export renamed.
pub open spec fn renamed_stmt(r: Renaming, node: Stmt) -> Stmt
    decreases node,
{
    match node {
        Stmt::Empty { span } => Stmt::Empty { span },
        Stmt::Decl(decl) => Stmt::Decl(renamed_decl(r, decl)),
        Stmt::Expr { span, expr } => Stmt::Expr { span, expr: renamed_expr(r, expr) },
        Stmt::Other(syntax) => Stmt::Other(renamed_syntax(r, syntax)),
    }
}

/// An export specifier, with what the namespaces in it export renamed.
pub open spec fn renamed_specifier(r: Renaming, node: ExportSpecifier) -> ExportSpecifier
    decreases node,
{
    match node {
        ExportSpecifier::Namespace { span, name } => ExportSpecifier::Namespace {
            span,
            name: renamed_ident(r, name),
        },
        ExportSpecifier::Default { exported } => ExportSpecifier::Default {
            exported: renamed_ident(r, exported),
        },
        ExportSpecifier::Named { span, orig, exported } => ExportSpecifier::Named {
            span,
            orig: renamed_ident(r, orig),
            exported: renamed_opt_ident(r, exported),
        },
    }
}

/// Export specifiers, each with what the namespaces in it export renamed.
pub open spec fn renamed_specifiers(r: Renaming, run: Run<ExportSpecifier>) -> Run<ExportSpecifier>
    decreases run,
{
    match run {
        Run::Empty => Run::Empty,
        Run::One(x) => Run::One(Box::new(renamed_specifier(r, *x))),
        Run::Join(a, b) => Run::Join(
            Box::new(renamed_specifiers(r, *a)),
            Box::new(renamed_specifiers(r, *b)),
        ),
    }
}

/// A default declaration, with what the namespaces in it export renamed.
pub open spec fn renamed_default_decl(r: Renaming, node: DefaultDecl) -> DefaultDecl
    decreases node,
{
    match node {
        DefaultDecl::Class(n) => DefaultDecl::Class(renamed_class_expr(r, n)),
        DefaultDecl::Fn(n) => DefaultDecl::Fn(renamed_fn_expr(r, n)),
        DefaultDecl::TsInterfaceDecl(n) => DefaultDecl::TsInterfaceDecl(renamed_syntax(r, n)),
    }
}

/// A module item, with what it exports renamed, and what the namespaces in it
/// export.
pub open spec fn renamed_item(r: Renaming, item: ModuleItem) -> ModuleItem
    decreases item,
{
    match item {
        ModuleItem::Stmt(stmt) => ModuleItem::Stmt(renamed_stmt(r, stmt)),
        ModuleItem::ModuleDecl(decl) => match decl {
            ModuleDecl::Import(n) => ModuleItem::ModuleDecl(
                ModuleDecl::Import(
                    ImportDecl { specifiers: renamed_nodes(r, n.specifiers), ..n },
                ),
            ),
            ModuleDecl::ExportDecl { span, decl } => renamed_export(
                r,
                span,
                renamed_decl(r, decl),
            ),
            ModuleDecl::ExportNamed(e) => if e.src is None {
                ModuleItem::Stmt(Stmt::Empty { span: e.span })
            } else {
                ModuleItem::ModuleDecl(
                    ModuleDecl::ExportNamed(
                        NamedExport { specifiers: renamed_specifiers(r, e.specifiers), ..e },
                    ),
                )
            },
            ModuleDecl::ExportDefaultDecl { span, decl } => ModuleItem::ModuleDecl(
                ModuleDecl::ExportDefaultDecl { span, decl: renamed_default_decl(r, decl) },
            ),
            ModuleDecl::ExportDefaultExpr { span, expr } => ModuleItem::Stmt(
                renamed_default(r, span, renamed_expr(r, expr)),
            ),
            ModuleDecl::ExportAll { span, src } => item,
            ModuleDecl::TsImportEquals(n) => ModuleItem::ModuleDecl(
                ModuleDecl::TsImportEquals(renamed_syntax(r, n)),
            ),
            ModuleDecl::TsExportAssignment(n) => ModuleItem::ModuleDecl(
                ModuleDecl::TsExportAssignment(renamed_syntax(r, n)),
            ),
            ModuleDecl::TsNamespaceExport(n) => ModuleItem::ModuleDecl(
                ModuleDecl::TsNamespaceExport(renamed_syntax(r, n)),
            ),
        },
    }
}

/// The statement that follows a module item once it is renamed: for
/// `export { .. }`, the declaration of the names that the importer takes from
/// it.
pub open spec fn extra(r: Renaming, item: ModuleItem) -> Option<Stmt>
    decreases item,
{
    match item {
        ModuleItem::ModuleDecl(ModuleDecl::ExportNamed(e)) => {
            let decls = bindings(r, renamed_specifiers(r, e.specifiers));
            if e.src is None && decls@.len() > 0 {
                Some(const_decl(e.span, decls))
            } else {
                None
            }
        },
        _ => None,
    }
}

/// Module items, each renamed and followed by its extra statement.
pub open spec fn renamed_items(r: Renaming, items: Run<ModuleItem>) -> Run<ModuleItem>
    decreases items,
{
    match items {
        Run::Empty => Run::Empty,
        Run::One(x) => {
            let item = Run::One(Box::new(renamed_item(r, *x)));
            match extra(r, *x) {
                Some(stmt) => Run::Join(
                    Box::new(item),
                    Box::new(Run::One(Box::new(ModuleItem::Stmt(stmt)))),
                ),
                None => item,
            }
        },
        Run::Join(a, b) => Run::Join(
            Box::new(renamed_items(r, *a)),
            Box::new(renamed_items(r, *b)),
        ),
    }
}

/// A module, with what it exports renamed.
pub open spec fn renamed_module(r: Renaming, module: Module) -> Module {
    Module { body: renamed_items(r, module.body), ..module }
}

/// Applied to dependency modules.
pub struct ExportRenamer<'a> {
    pub globals: &'a swc_common::Globals,
    /// The mark applied to identifiers exported to dependant modules.
    pub mark: Mark,
    /// Dependant module's import
    pub imports: &'a [Specifier],
}

impl<'a> ExportRenamer<'a> {
    /// What is renamed to.
    pub open spec fn renaming(self) -> Renaming {
        Renaming { mark: self.mark@, imports: self.imports@ }
    }

    /// The name that the importer uses for what is exported as `sym`, if it
    /// takes it by name.
    pub fn aliased_import(&self, sym: &Word) -> (r: Option<Id>)
        ensures
            r == local_name(self.imports@, *sym),
            r is None <==> forall|j: int|
                0 <= j < self.imports@.len() ==> !takes(#[trigger] self.imports@[j], *sym),
            r matches Some(local) ==> exists|i: int|
                #![trigger self.imports@[i]]
                0 <= i < self.imports@.len() && takes(self.imports@[i], *sym)
                    && self.imports@[i].spec_local() == local && (forall|j: int|
                    0 <= j < i ==> !takes(#[trigger] self.imports@[j], *sym)),
    {
        proof {
            lemma_taker_is_first(self.imports@, *sym);
        }
        match find_taker(self.imports, *sym) {
            Some(specifier) => Some(specifier.local()),
            None => None,
        }
    }

    fn bind(&self, span: Span, local: Id, init: Expr) -> (r: VarDeclarator)
        ensures
            r == binding(self.renaming(), span, local, init),
    {
        VarDeclarator {
            span,
            name: Pat::Ident(local.replace_mark(self.globals, self.mark).into_ident()),
            init: Some(init),
            definite: false,
        }
    }

    /// Binds the importer's names to what the specifiers export.
    pub fn bind_specifiers(&self, specifiers: Run<ExportSpecifier>) -> (r: Run<VarDeclarator>)
        ensures
            r == bindings(self.renaming(), specifiers),
        decreases specifiers,
    {
        match specifiers {
            Run::Empty => Run::Empty,
            Run::One(x) => {
                let specifier = *x;
                let span = specifier.span();
                let ident = match &specifier {
                    ExportSpecifier::Namespace { span: _, name } => self.aliased_import(&name.sym),
                    ExportSpecifier::Default { .. } => self.aliased_import(&Word::default_word()),
                    ExportSpecifier::Named { span: _, orig, exported } => match exported {
                        Some(exported) => self.aliased_import(&exported.sym),
                        None => self.aliased_import(&orig.sym),
                    },
                };
                match ident {
                    Some(local) => {
                        let orig = match specifier {
                            ExportSpecifier::Namespace { span: _, name } => name,
                            ExportSpecifier::Default { .. } => {
                                Ident::new(Word::default_word(), span)
                            },
                            ExportSpecifier::Named { span: _, orig, exported: _ } => orig,
                        };
                        Run::One(Box::new(self.bind(span, local, Expr::Ident(orig))))
                    },
                    None => Run::Empty,
                }
            },
            Run::Join(a, b) => {
                Run::Join(Box::new(self.bind_specifiers(*a)), Box::new(self.bind_specifiers(*b)))
            },
        }
    }

    fn declare(&self, span: Span, decls: Run<VarDeclarator>) -> (r: Stmt)
        ensures
            r == const_decl(span, decls),
    {
        Stmt::Decl(Decl::Var(VarDecl { span, kind: VarDeclKind::Const, declare: false, decls }))
    }

    fn strip(&self, span: Span, decl: Decl) -> (r: ModuleItem)
        ensures
            r == renamed_export(self.renaming(), span, decl),
    {
        let actual = ActualMarker { globals: self.globals, mark: self.mark, imports: self.imports };
        match decl {
            Decl::Class(c) => {
                let ident = actual.fold_ident(c.ident);
                let c = ClassDecl { ident, declare: c.declare, class: c.class };
                ModuleItem::Stmt(Stmt::Decl(Decl::Class(c)))
            },
            Decl::Fn(f) => {
                let ident = actual.fold_ident(f.ident);
                let f = FnDecl { ident, declare: f.declare, function: f.function };
                ModuleItem::Stmt(Stmt::Decl(Decl::Fn(f)))
            },
            Decl::Var(v) => ModuleItem::ModuleDecl(
                ModuleDecl::ExportDecl { span, decl: Decl::Var(actual.fold_var_decl(v)) },
            ),
            other => ModuleItem::ModuleDecl(ModuleDecl::ExportDecl { span, decl: other }),
        }
    }

    /// Folds the type annotation of an identifier.
    pub fn fold_ident(&self, node: Ident) -> (r: Ident)
        ensures
            r == renamed_ident(self.renaming(), node),
        decreases node,
    {
        let type_ann = match node.type_ann {
            Some(ann) => Some(Box::new(self.fold_syntax(*ann))),
            None => None,
        };
        Ident { span: node.span, sym: node.sym, type_ann, optional: node.optional }
    }

    /// Folds an identifier, if there is one.
    pub fn fold_opt_ident(&self, node: Option<Ident>) -> (r: Option<Ident>)
        ensures
            r == renamed_opt_ident(self.renaming(), node),
        decreases node,
    {
        match node {
            Some(ident) => Some(self.fold_ident(ident)),
            None => None,
        }
    }

    /// Folds nodes.
    pub fn fold_nodes(&self, run: Run<Node>) -> (r: Run<Node>)
        ensures
            r == renamed_nodes(self.renaming(), run),
        decreases run,
    {
        match run {
            Run::Empty => Run::Empty,
            Run::One(x) => Run::One(Box::new(self.fold_node(*x))),
            Run::Join(a, b) => {
                let a = self.fold_nodes(*a);
                let b = self.fold_nodes(*b);
                Run::Join(Box::new(a), Box::new(b))
            },
        }
    }

    /// Folds a node.
    pub fn fold_node(&self, node: Node) -> (r: Node)
        ensures
            r == renamed_node(self.renaming(), node),
        decreases node,
    {
        match node {
            Node::Ident(ident) => Node::Ident(self.fold_ident(ident)),
            Node::Parts(parts) => Node::Parts(self.fold_nodes(parts)),
            Node::CatchClause(n) => Node::CatchClause(self.fold_catch_clause(n)),
            Node::ClassDecl(n) => Node::ClassDecl(self.fold_class_decl(n)),
            Node::ClassExpr(n) => Node::ClassExpr(self.fold_class_expr(n)),
            Node::Constructor(n) => Node::Constructor(n),
            Node::FnDecl(n) => Node::FnDecl(self.fold_fn_decl(n)),
            Node::FnExpr(n) => Node::FnExpr(self.fold_fn_expr(n)),
            Node::Function(n) => Node::Function(n),
            Node::LabeledStmt(n) => Node::LabeledStmt(self.fold_labeled_stmt(n)),
            Node::MemberExpr(n) => Node::MemberExpr(self.fold_member_expr(n)),
            Node::SetterProp(n) => Node::SetterProp(self.fold_setter_prop(n)),
            Node::TsModule(n) => Node::TsModule(self.fold_ts_module(n)),
        }
    }

    /// Folds the parts of syntax.
    pub fn fold_syntax(&self, node: Syntax) -> (r: Syntax)
        ensures
            r == renamed_syntax(self.renaming(), node),
        decreases node,
    {
        Syntax {
            origin: node.origin,
            parts: self.fold_nodes(node.parts),
        }
    }

    /// Folds the parameter and the body.
    pub fn fold_catch_clause(&self, node: CatchClause) -> (r: CatchClause)
        ensures
            r == renamed_catch_clause(self.renaming(), node),
        decreases node,
    {
        CatchClause {
            param: self.fold_pats(node.param),
            body: self.fold_nodes(node.body),
        }
    }

    /// Folds the name of the class, and leaves the class alone.
    pub fn fold_class_decl(&self, node: ClassDecl) -> (r: ClassDecl)
        ensures
            r == renamed_class_decl(self.renaming(), node),
        decreases node,
    {
        ClassDecl {
            ident: self.fold_ident(node.ident),
            declare: node.declare,
            class: node.class,
        }
    }

    /// Folds the name of the class, and leaves the class alone.
    pub fn fold_class_expr(&self, node: ClassExpr) -> (r: ClassExpr)
        ensures
            r == renamed_class_expr(self.renaming(), node),
        decreases node,
    {
        ClassExpr {
            ident: self.fold_opt_ident(node.ident),
            class: node.class,
        }
    }

    /// Folds the name of the function, and leaves the function alone.
    pub fn fold_fn_decl(&self, node: FnDecl) -> (r: FnDecl)
        ensures
            r == renamed_fn_decl(self.renaming(), node),
        decreases node,
    {
        FnDecl {
            ident: self.fold_ident(node.ident),
            declare: node.declare,
            function: node.function,
        }
    }

    /// Folds the name of the function, and leaves the function alone.
    pub fn fold_fn_expr(&self, node: FnExpr) -> (r: FnExpr)
        ensures
            r == renamed_fn_expr(self.renaming(), node),
        decreases node,
    {
        FnExpr {
            ident: self.fold_opt_ident(node.ident),
            function: node.function,
        }
    }

    /// Folds the label and the body.
    pub fn fold_labeled_stmt(&self, node: LabeledStmt) -> (r: LabeledStmt)
        ensures
            r == renamed_labeled_stmt(self.renaming(), node),
        decreases node,
    {
        LabeledStmt {
            label: self.fold_ident(node.label),
            body: self.fold_nodes(node.body),
        }
    }

    /// Folds the object and the property.
    pub fn fold_member_expr(&self, node: MemberExpr) -> (r: MemberExpr)
        ensures
            r == renamed_member_expr(self.renaming(), node),
        decreases node,
    {
        MemberExpr {
            obj: self.fold_nodes(node.obj),
            prop: self.fold_nodes(node.prop),
            computed: node.computed,
        }
    }

    /// Folds the key, the parameter and the body.
    pub fn fold_setter_prop(&self, node: SetterProp) -> (r: SetterProp)
        ensures
            r == renamed_setter_prop(self.renaming(), node),
        decreases node,
    {
        SetterProp {
            key: self.fold_nodes(node.key),
            param: self.fold_pats(node.param),
            body: self.fold_nodes(node.body),
        }
    }

    /// Folds an expression.
    pub fn fold_expr(&self, node: Expr) -> (r: Expr)
        ensures
            r == renamed_expr(self.renaming(), node),
        decreases node,
    {
        match node {
            Expr::Ident(ident) => Expr::Ident(self.fold_ident(ident)),
            Expr::Other(syntax) => Expr::Other(self.fold_syntax(syntax)),
        }
    }

    /// Folds patterns.
    pub fn fold_pats(&self, run: Run<Pat>) -> (r: Run<Pat>)
        ensures
            r == renamed_pats(self.renaming(), run),
        decreases run,
    {
        match run {
            Run::Empty => Run::Empty,
            Run::One(x) => Run::One(Box::new(self.fold_pat(*x))),
            Run::Join(a, b) => {
                let a = self.fold_pats(*a);
                let b = self.fold_pats(*b);
                Run::Join(Box::new(a), Box::new(b))
            },
        }
    }

    /// Folds a pattern.
    pub fn fold_pat(&self, node: Pat) -> (r: Pat)
        ensures
            r == renamed_pat(self.renaming(), node),
        decreases node,
    {
        match node {
            Pat::Ident(ident) => Pat::Ident(self.fold_ident(ident)),
            Pat::Expr(expr) => Pat::Expr(self.fold_expr(expr)),
            Pat::PropName(parts) => Pat::PropName(self.fold_pats(parts)),
            Pat::Type(parts) => Pat::Type(self.fold_pats(parts)),
            Pat::Other { origin, parts } => Pat::Other { origin, parts: self.fold_pats(parts) },
        }
    }

    /// Folds the name of a declarator and its value.
    pub fn fold_declarator(&self, node: VarDeclarator) -> (r: VarDeclarator)
        ensures
            r == renamed_declarator(self.renaming(), node),
        decreases node,
    {
        let name = self.fold_pat(node.name);
        let init = match node.init {
            Some(init) => Some(self.fold_expr(init)),
            None => None,
        };
        VarDeclarator { span: node.span, name, init, definite: node.definite }
    }

    /// Folds declarators.
    pub fn fold_declarators(&self, run: Run<VarDeclarator>) -> (r: Run<VarDeclarator>)
        ensures
            r == renamed_declarators(self.renaming(), run),
        decreases run,
    {
        match run {
            Run::Empty => Run::Empty,
            Run::One(x) => Run::One(Box::new(self.fold_declarator(*x))),
            Run::Join(a, b) => {
                let a = self.fold_declarators(*a);
                let b = self.fold_declarators(*b);
                Run::Join(Box::new(a), Box::new(b))
            },
        }
    }

    /// Folds a variable declaration.
    pub fn fold_var_decl(&self, node: VarDecl) -> (r: VarDecl)
        ensures
            r == renamed_var_decl(self.renaming(), node),
        decreases node,
    {
        VarDecl {
            span: node.span,
            kind: node.kind,
            declare: node.declare,
            decls: self.fold_declarators(node.decls),
        }
    }

    /// Renames what a namespace exports.
    pub fn fold_ts_module(&self, node: TsModule) -> (r: TsModule)
        ensures
            r == renamed_ts_module(self.renaming(), node),
        decreases node,
    {
        TsModule {
            origin: node.origin,
            id: self.fold_nodes(node.id),
            body: self.fold_module_items(node.body),
        }
    }

    /// Folds a declaration.
    pub fn fold_decl(&self, node: Decl) -> (r: Decl)
        ensures
            r == renamed_decl(self.renaming(), node),
        decreases node,
    {
        match node {
            Decl::Class(n) => Decl::Class(self.fold_class_decl(n)),
            Decl::Fn(n) => Decl::Fn(self.fold_fn_decl(n)),
            Decl::Var(n) => Decl::Var(self.fold_var_decl(n)),
            Decl::TsInterface(n) => Decl::TsInterface(self.fold_syntax(n)),
            Decl::TsTypeAlias(n) => Decl::TsTypeAlias(self.fold_syntax(n)),
            Decl::TsEnum(n) => Decl::TsEnum(self.fold_syntax(n)),
            Decl::TsModule(n) => Decl::TsModule(self.fold_ts_module(n)),
        }
    }

    /// Folds a statement.
    pub fn fold_stmt(&self, node: Stmt) -> (r: Stmt)
        ensures
            r == renamed_stmt(self.renaming(), node),
        decreases node,
    {
        match node {
            Stmt::Empty { span } => Stmt::Empty { span },
            Stmt::Decl(decl) => Stmt::Decl(self.fold_decl(decl)),
            Stmt::Expr { span, expr } => Stmt::Expr { span, expr: self.fold_expr(expr) },
            Stmt::Other(syntax) => Stmt::Other(self.fold_syntax(syntax)),
        }
    }

    /// Folds the identifiers of an export specifier.
    pub fn fold_specifier(&self, node: ExportSpecifier) -> (r: ExportSpecifier)
        ensures
            r == renamed_specifier(self.renaming(), node),
        decreases node,
    {
        match node {
            ExportSpecifier::Namespace { span, name } => ExportSpecifier::Namespace {
                span,
                name: self.fold_ident(name),
            },
            ExportSpecifier::Default { exported } => ExportSpecifier::Default {
                exported: self.fold_ident(exported),
            },
            ExportSpecifier::Named { span, orig, exported } => ExportSpecifier::Named {
                span,
                orig: self.fold_ident(orig),
                exported: self.fold_opt_ident(exported),
            },
        }
    }

    /// Folds export specifiers.
    pub fn fold_specifiers(&self, run: Run<ExportSpecifier>) -> (r: Run<ExportSpecifier>)
        ensures
            r == renamed_specifiers(self.renaming(), run),
        decreases run,
    {
        match run {
            Run::Empty => Run::Empty,
            Run::One(x) => Run::One(Box::new(self.fold_specifier(*x))),
            Run::Join(a, b) => {
                let a = self.fold_specifiers(*a);
                let b = self.fold_specifiers(*b);
                Run::Join(Box::new(a), Box::new(b))
            },
        }
    }

    /// Folds a default declaration.
    pub fn fold_default_decl(&self, node: DefaultDecl) -> (r: DefaultDecl)
        ensures
            r == renamed_default_decl(self.renaming(), node),
        decreases node,
    {
        match node {
            DefaultDecl::Class(n) => DefaultDecl::Class(self.fold_class_expr(n)),
            DefaultDecl::Fn(n) => DefaultDecl::Fn(self.fold_fn_expr(n)),
            DefaultDecl::TsInterfaceDecl(n) => DefaultDecl::TsInterfaceDecl(self.fold_syntax(n)),
        }
    }

    /// Renames what an item exports, and what the namespaces in it export. The
    /// second part of the result is the statement that has to follow the item.
    pub fn fold_module_item(&self, item: ModuleItem) -> (r: (ModuleItem, Option<Stmt>))
        ensures
            r.0 == renamed_item(self.renaming(), item),
            r.1 == extra(self.renaming(), item),
        decreases item,
    {
        let decl = match item {
            ModuleItem::Stmt(stmt) => {
                return (ModuleItem::Stmt(self.fold_stmt(stmt)), None);
            },
            ModuleItem::ModuleDecl(decl) => decl,
        };
        match decl {
            ModuleDecl::Import(n) => {
                let n = ImportDecl {
                    origin: n.origin,
                    span: n.span,
                    specifiers: self.fold_nodes(n.specifiers),
                    src: n.src,
                    type_only: n.type_only,
                };
                (ModuleItem::ModuleDecl(ModuleDecl::Import(n)), None)
            },
            ModuleDecl::ExportDecl { span, decl } => {
                (self.strip(span, self.fold_decl(decl)), None)
            },
            ModuleDecl::ExportNamed(e) => {
                let span = e.span;
                let specifiers = self.fold_specifiers(e.specifiers);
                if e.src.is_some() {
                    let e = NamedExport { span, specifiers, src: e.src, type_only: e.type_only };
                    return (ModuleItem::ModuleDecl(ModuleDecl::ExportNamed(e)), None);
                }
                let decls = self.bind_specifiers(specifiers);
                let extra = if decls.is_empty() {
                    None
                } else {
                    Some(self.declare(span, decls))
                };
                (ModuleItem::Stmt(Stmt::Empty { span }), extra)
            },
            ModuleDecl::ExportDefaultDecl { span, decl } => {
                let decl = self.fold_default_decl(decl);
                (ModuleItem::ModuleDecl(ModuleDecl::ExportDefaultDecl { span, decl }), None)
            },
            ModuleDecl::ExportDefaultExpr { span, expr } => {
                let expr = self.fold_expr(expr);
                let stmt = match self.aliased_import(&Word::default_word()) {
                    Some(local) => {
                        let decl = self.bind(Span::dummy(), local, expr);
                        self.declare(span, Run::One(Box::new(decl)))
                    },
                    None => Stmt::Expr { span, expr },
                };
                (ModuleItem::Stmt(stmt), None)
            },
            ModuleDecl::ExportAll { span, src } => {
                (ModuleItem::ModuleDecl(ModuleDecl::ExportAll { span, src }), None)
            },
            ModuleDecl::TsImportEquals(n) => {
                let n = self.fold_syntax(n);
                (ModuleItem::ModuleDecl(ModuleDecl::TsImportEquals(n)), None)
            },
            ModuleDecl::TsExportAssignment(n) => {
                let n = self.fold_syntax(n);
                (ModuleItem::ModuleDecl(ModuleDecl::TsExportAssignment(n)), None)
            },
            ModuleDecl::TsNamespaceExport(n) => {
                let n = self.fold_syntax(n);
                (ModuleItem::ModuleDecl(ModuleDecl::TsNamespaceExport(n)), None)
            },
        }
    }

    /// Renames what items export, and puts after each item the statement that
    /// has to follow it.
    pub fn fold_module_items(&self, items: Run<ModuleItem>) -> (r: Run<ModuleItem>)
        ensures
            r == renamed_items(self.renaming(), items),
        decreases items,
    {
        match items {
            Run::Empty => Run::Empty,
            Run::One(x) => {
                let (item, extra) = self.fold_module_item(*x);
                let item = Run::One(Box::new(item));
                match extra {
                    Some(stmt) => Run::Join(
                        Box::new(item),
                        Box::new(Run::One(Box::new(ModuleItem::Stmt(stmt)))),
                    ),
                    None => item,
                }
            },
            Run::Join(a, b) => {
                let a = self.fold_module_items(*a);
                let b = self.fold_module_items(*b);
                Run::Join(Box::new(a), Box::new(b))
            },
        }
    }

    /// Renames what a module exports.
    pub fn fold_module(&self, module: Module) -> (r: Module)
        ensures
            r == renamed_module(self.renaming(), module),
    {
        Module {
            span: module.span,
            body: self.fold_module_items(module.body),
            shebang: module.shebang,
        }
    }
}

} // verus!
