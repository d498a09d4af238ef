//! What marking does to a module, as a flat sequence of events.
use crate::hygiene::{Span, SyntaxContext};
use crate::local_marker::{
    bound_catch_clause, bound_class_decl, bound_class_expr, bound_constructor, bound_decl,
    bound_declarator, bound_declarators, bound_default_decl, bound_expr, bound_fn_decl,
    bound_fn_expr, bound_function, bound_item, bound_items, bound_labeled_stmt, bound_member_expr,
    bound_module_decl, bound_node, bound_nodes, bound_pat, bound_pats, bound_setter_prop,
    bound_stmt, bound_syntax, bound_ts_module, bound_var_decl, marked_catch_clause,
    marked_class_decl, marked_class_expr, marked_constructor, marked_decl, marked_declarator,
    marked_declarators, marked_default_decl, marked_expr, marked_fn_decl, marked_fn_expr,
    marked_function, marked_ident, marked_item, marked_items, marked_labeled_stmt,
    marked_member_expr, marked_module, marked_module_decl, marked_node, marked_nodes, marked_pat,
    marked_pats, marked_setter_prop, marked_specifier, marked_specifiers, marked_stmt,
    marked_syntax, marked_ts_module, marked_var_decl, LocalMarker, Marking,
};
use crate::marking_laws::{law_marked_in_order, lemma_marked_len};
use crate::pattern::{ident_ids, pats_ids};
use crate::run::Run;
use crate::specifier::Specifier;
use crate::syntax::{
    CatchClause, ClassDecl, ClassExpr, Constructor, Decl, DefaultDecl, ExportSpecifier, Expr,
    FnDecl, FnExpr, Function, Id, Ident, ImportDecl, LabeledStmt, MemberExpr, Module, ModuleDecl,
    ModuleItem, NamedExport, Node, Pat, SetterProp, Stmt, Syntax, TsModule, VarDecl, VarDeclarator,
};
use vstd::prelude::*;

verus! {

/// What a visit to a module meets, in order.
pub enum Event {
    /// An identifier, at a place that is looked at.
    Use(Ident),
    /// The name of a class or function, or of a parameter.
    Bind(Id),
}

/// The names that are bound, in order.
pub open spec fn binds(events: Seq<Event>) -> Seq<Id>
    decreases events.len(),
{
    if events.len() == 0 {
        Seq::empty()
    } else {
        match events.last() {
            Event::Use(_) => binds(events.drop_last()),
            Event::Bind(id) => binds(events.drop_last()).push(id),
        }
    }
}

/// The events of binding names.
pub open spec fn bindings_of(ids: Seq<Id>) -> Seq<Event> {
    ids.map_values(|id: Id| Event::Bind(id))
}

/// The event that a use of an identifier is.
pub open spec fn events_ident(ident: Ident) -> Seq<Event> {
    seq![Event::Use(ident)]
}

/// The events in a run of nodes, one after the other.
pub open spec fn events_nodes(run: Run<Node>) -> Seq<Event>
    decreases run,
{
    match run {
        Run::Empty => Seq::empty(),
        Run::One(x) => events_node(*x),
        Run::Join(a, b) => events_nodes(*a) + events_nodes(*b),
    }
}

/// The events in a node.
pub open spec fn events_node(node: Node) -> Seq<Event>
    decreases node,
{
    match node {
        Node::Ident(ident) => events_ident(ident),
        Node::Parts(parts) => events_nodes(parts),
        Node::CatchClause(n) => events_catch_clause(n),
        Node::ClassDecl(n) => events_class_decl(n),
        Node::ClassExpr(n) => events_class_expr(n),
        Node::Constructor(n) => events_constructor(n),
        Node::FnDecl(n) => events_fn_decl(n),
        Node::FnExpr(n) => events_fn_expr(n),
        Node::Function(n) => events_function(n),
        Node::LabeledStmt(n) => events_labeled_stmt(n),
        Node::MemberExpr(n) => events_member_expr(n),
        Node::SetterProp(n) => events_setter_prop(n),
        Node::TsModule(n) => events_ts_module(n),
    }
}

/// The events in syntax.
pub open spec fn events_syntax(node: Syntax) -> Seq<Event>
    decreases node,
{
    events_nodes(node.parts)
}

/// The events of a catch clause: first its names are bound.
pub open spec fn events_catch_clause(node: CatchClause) -> Seq<Event>
    decreases node,
{
    bindings_of(pats_ids(node.param)) + events_nodes(node.body)
}

/// The events of a class declaration: first its names are bound.
pub open spec fn events_class_decl(node: ClassDecl) -> Seq<Event>
    decreases node,
{
    bindings_of(seq![node.ident.spec_id()]) + events_syntax(node.class)
}

/// The events of a class expression: first its names are bound.
pub open spec fn events_class_expr(node: ClassExpr) -> Seq<Event>
    decreases node,
{
    bindings_of(ident_ids(node.ident)) + events_syntax(node.class)
}

/// The events of a constructor: first its names are bound.
pub open spec fn events_constructor(node: Constructor) -> Seq<Event>
    decreases node,
{
    bindings_of(pats_ids(node.params)) + events_nodes(node.body)
}

/// The events of a function: first its names are bound.
pub open spec fn events_function(node: Function) -> Seq<Event>
    decreases node,
{
    bindings_of(pats_ids(node.params)) + events_nodes(node.body)
}

/// The events of a function declaration: first its names are bound.
pub open spec fn events_fn_decl(node: FnDecl) -> Seq<Event>
    decreases node,
{
    bindings_of(seq![node.ident.spec_id()]) + events_function(node.function)
}

/// The events of a function expression: first its names are bound.
pub open spec fn events_fn_expr(node: FnExpr) -> Seq<Event>
    decreases node,
{
    bindings_of(ident_ids(node.ident)) + events_function(node.function)
}

/// The events in a labeled statement; the label is none.
pub open spec fn events_labeled_stmt(node: LabeledStmt) -> Seq<Event>
    decreases node,
{
    events_nodes(node.body)
}

/// The events in a member expression; a property that is not computed has none.
pub open spec fn events_member_expr(node: MemberExpr) -> Seq<Event>
    decreases node,
{
    if node.computed {
        events_nodes(node.obj) + events_nodes(node.prop)
    } else {
        events_nodes(node.obj)
    }
}

/// The events of a setter: first its names are bound.
pub open spec fn events_setter_prop(node: SetterProp) -> Seq<Event>
    decreases node,
{
    bindings_of(pats_ids(node.param)) + events_nodes(node.body)
}

/// The events in an expression.
pub open spec fn events_expr(node: Expr) -> Seq<Event>
    decreases node,
{
    match node {
        Expr::Ident(ident) => events_ident(ident),
        Expr::Other(syntax) => events_syntax(syntax),
    }
}

/// The events in a run of patterns, one after the other.
pub open spec fn events_pats(run: Run<Pat>) -> Seq<Event>
    decreases run,
{
    match run {
        Run::Empty => Seq::empty(),
        Run::One(x) => events_pat(*x),
        Run::Join(a, b) => events_pats(*a) + events_pats(*b),
    }
}

/// The events in a pattern.
pub open spec fn events_pat(node: Pat) -> Seq<Event>
    decreases node,
{
    match node {
        Pat::Ident(ident) => events_ident(ident),
        Pat::Expr(expr) => events_expr(expr),
        Pat::PropName(parts) => events_pats(parts),
        Pat::Type(parts) => events_pats(parts),
        Pat::Other { origin, parts } => events_pats(parts),
    }
}

/// The events in a declarator: first those of its name.
pub open spec fn events_declarator(node: VarDeclarator) -> Seq<Event>
    decreases node,
{
    events_pat(node.name) + (match node.init {
        Some(init) => events_expr(init),
        None => Seq::empty(),
    })
}

/// The events in a run of declarators, one after the other.
pub open spec fn events_declarators(run: Run<VarDeclarator>) -> Seq<Event>
    decreases run,
{
    match run {
        Run::Empty => Seq::empty(),
        Run::One(x) => events_declarator(*x),
        Run::Join(a, b) => events_declarators(*a) + events_declarators(*b),
    }
}

/// The events in a variable declaration.
pub open spec fn events_var_decl(node: VarDecl) -> Seq<Event>
    decreases node,
{
    events_declarators(node.decls)
}

/// The events in a namespace: first those of its name.
pub open spec fn events_ts_module(node: TsModule) -> Seq<Event>
    decreases node,
{
    events_nodes(node.id) + events_items(node.body)
}

/// The events in a declaration.
pub open spec fn events_decl(node: Decl) -> Seq<Event>
    decreases node,
{
    match node {
        Decl::Class(n) => events_class_decl(n),
        Decl::Fn(n) => events_fn_decl(n),
        Decl::Var(n) => events_var_decl(n),
        Decl::TsInterface(n) => events_syntax(n),
        Decl::TsTypeAlias(n) => events_syntax(n),
        Decl::TsEnum(n) => events_syntax(n),
        Decl::TsModule(n) => events_ts_module(n),
    }
}

/// The events in a statement.
pub open spec fn events_stmt(node: Stmt) -> Seq<Event>
    decreases node,
{
    match node {
        Stmt::Empty { span } => Seq::empty(),
        Stmt::Decl(decl) => events_decl(decl),
        Stmt::Expr { span, expr } => events_expr(expr),
        Stmt::Other(syntax) => events_syntax(syntax),
    }
}

/// The events in an export specifier.
pub open spec fn events_specifier(node: ExportSpecifier) -> Seq<Event> {
    match node {
        ExportSpecifier::Namespace { span, name } => events_ident(name),
        ExportSpecifier::Default { exported } => events_ident(exported),
        ExportSpecifier::Named { span, orig, exported: Some(exported) } => events_ident(orig)
            + events_ident(exported),
        ExportSpecifier::Named { span, orig, exported: None } => events_ident(orig),
    }
}

/// The events in export specifiers.
pub open spec fn events_specifiers(run: Run<ExportSpecifier>) -> Seq<Event>
    decreases run,
{
    match run {
        Run::Empty => Seq::empty(),
        Run::One(x) => events_specifier(*x),
        Run::Join(a, b) => events_specifiers(*a) + events_specifiers(*b),
    }
}

/// The events in a default declaration.
pub open spec fn events_default_decl(node: DefaultDecl) -> Seq<Event>
    decreases node,
{
    match node {
        DefaultDecl::Class(n) => events_class_expr(n),
        DefaultDecl::Fn(n) => events_fn_expr(n),
        DefaultDecl::TsInterfaceDecl(n) => events_syntax(n),
    }
}

/// The events in an import or export.
pub open spec fn events_module_decl(node: ModuleDecl) -> Seq<Event>
    decreases node,
{
    match node {
        ModuleDecl::Import(n) => events_nodes(n.specifiers),
        ModuleDecl::ExportDecl { span, decl } => events_decl(decl),
        ModuleDecl::ExportNamed(n) => events_specifiers(n.specifiers),
        ModuleDecl::ExportDefaultDecl { span, decl } => events_default_decl(decl),
        ModuleDecl::ExportDefaultExpr { span, expr } => events_expr(expr),
        ModuleDecl::ExportAll { span, src } => Seq::empty(),
        ModuleDecl::TsImportEquals(n) => events_syntax(n),
        ModuleDecl::TsExportAssignment(n) => events_syntax(n),
        ModuleDecl::TsNamespaceExport(n) => events_syntax(n),
    }
}

/// The events in a module item.
pub open spec fn events_item(node: ModuleItem) -> Seq<Event>
    decreases node,
{
    match node {
        ModuleItem::ModuleDecl(decl) => events_module_decl(decl),
        ModuleItem::Stmt(stmt) => events_stmt(stmt),
    }
}

/// The events in a run of module items, one after the other.
pub open spec fn events_items(run: Run<ModuleItem>) -> Seq<Event>
    decreases run,
{
    match run {
        Run::Empty => Seq::empty(),
        Run::One(x) => events_item(*x),
        Run::Join(a, b) => events_items(*a) + events_items(*b),
    }
}

/// An identifier without its context.
pub open spec fn erased_ident(ident: Ident) -> Ident {
    Ident { span: Span { ctxt: SyntaxContext::Empty, ..ident.span }, ..ident }
}

/// A run of nodes, erased.
pub open spec fn erased_nodes(run: Run<Node>) -> Run<Node>
    decreases run,
{
    match run {
        Run::Empty => Run::Empty,
        Run::One(x) => Run::One(Box::new(erased_node(*x))),
        Run::Join(a, b) => Run::Join(Box::new(erased_nodes(*a)), Box::new(erased_nodes(*b))),
    }
}

/// A node, erased.
pub open spec fn erased_node(node: Node) -> Node
    decreases node,
{
    match node {
        Node::Ident(ident) => Node::Ident(erased_ident(ident)),
        Node::Parts(parts) => Node::Parts(erased_nodes(parts)),
        Node::CatchClause(n) => Node::CatchClause(erased_catch_clause(n)),
        Node::ClassDecl(n) => Node::ClassDecl(erased_class_decl(n)),
        Node::ClassExpr(n) => Node::ClassExpr(erased_class_expr(n)),
        Node::Constructor(n) => Node::Constructor(erased_constructor(n)),
        Node::FnDecl(n) => Node::FnDecl(erased_fn_decl(n)),
        Node::FnExpr(n) => Node::FnExpr(erased_fn_expr(n)),
        Node::Function(n) => Node::Function(erased_function(n)),
        Node::LabeledStmt(n) => Node::LabeledStmt(erased_labeled_stmt(n)),
        Node::MemberExpr(n) => Node::MemberExpr(erased_member_expr(n)),
        Node::SetterProp(n) => Node::SetterProp(erased_setter_prop(n)),
        Node::TsModule(n) => Node::TsModule(erased_ts_module(n)),
    }
}

/// Syntax, erased.
pub open spec fn erased_syntax(node: Syntax) -> Syntax
    decreases node,
{
    Syntax { parts: erased_nodes(node.parts), ..node }
}

/// A catch clause, erased.
pub open spec fn erased_catch_clause(node: CatchClause) -> CatchClause
    decreases node,
{
    CatchClause { body: erased_nodes(node.body), ..node }
}

/// A class declaration, erased.
pub open spec fn erased_class_decl(node: ClassDecl) -> ClassDecl
    decreases node,
{
    ClassDecl { class: erased_syntax(node.class), ..node }
}

/// A class expression, erased.
pub open spec fn erased_class_expr(node: ClassExpr) -> ClassExpr
    decreases node,
{
    ClassExpr { class: erased_syntax(node.class), ..node }
}

/// A constructor, erased.
pub open spec fn erased_constructor(node: Constructor) -> Constructor
    decreases node,
{
    Constructor { body: erased_nodes(node.body), ..node }
}

/// A function, erased.
pub open spec fn erased_function(node: Function) -> Function
    decreases node,
{
    Function { body: erased_nodes(node.body), ..node }
}

/// A function declaration, erased.
pub open spec fn erased_fn_decl(node: FnDecl) -> FnDecl
    decreases node,
{
    FnDecl { function: erased_function(node.function), ..node }
}

/// A function expression, erased.
pub open spec fn erased_fn_expr(node: FnExpr) -> FnExpr
    decreases node,
{
    FnExpr { function: erased_function(node.function), ..node }
}

/// A labeled statement, erased.
pub open spec fn erased_labeled_stmt(node: LabeledStmt) -> LabeledStmt
    decreases node,
{
    LabeledStmt { body: erased_nodes(node.body), ..node }
}

/// A member expression, erased.
pub open spec fn erased_member_expr(node: MemberExpr) -> MemberExpr
    decreases node,
{
    MemberExpr {
        obj: erased_nodes(node.obj),
        prop: if node.computed {
            erased_nodes(node.prop)
        } else {
            node.prop
        },
        computed: node.computed,
    }
}

/// A setter, erased.
pub open spec fn erased_setter_prop(node: SetterProp) -> SetterProp
    decreases node,
{
    SetterProp { body: erased_nodes(node.body), ..node }
}

/// An expression, erased.
pub open spec fn erased_expr(node: Expr) -> Expr
    decreases node,
{
    match node {
        Expr::Ident(ident) => Expr::Ident(erased_ident(ident)),
        Expr::Other(syntax) => Expr::Other(erased_syntax(syntax)),
    }
}

/// A run of patterns, erased.
pub open spec fn erased_pats(run: Run<Pat>) -> Run<Pat>
    decreases run,
{
    match run {
        Run::Empty => Run::Empty,
        Run::One(x) => Run::One(Box::new(erased_pat(*x))),
        Run::Join(a, b) => Run::Join(Box::new(erased_pats(*a)), Box::new(erased_pats(*b))),
    }
}

/// A pattern, erased.
pub open spec fn erased_pat(node: Pat) -> Pat
    decreases node,
{
    match node {
        Pat::Ident(ident) => Pat::Ident(erased_ident(ident)),
        Pat::Expr(expr) => Pat::Expr(erased_expr(expr)),
        Pat::PropName(parts) => Pat::PropName(erased_pats(parts)),
        Pat::Type(parts) => Pat::Type(erased_pats(parts)),
        Pat::Other { origin, parts } => Pat::Other { origin, parts: erased_pats(parts) },
    }
}

/// A declarator, erased.
pub open spec fn erased_declarator(node: VarDeclarator) -> VarDeclarator
    decreases node,
{
    VarDeclarator {
        name: erased_pat(node.name),
        init: match node.init {
            Some(init) => Some(erased_expr(init)),
            None => None,
        },
        ..node
    }
}

/// A run of declarators, erased.
pub open spec fn erased_declarators(run: Run<VarDeclarator>) -> Run<VarDeclarator>
    decreases run,
{
    match run {
        Run::Empty => Run::Empty,
        Run::One(x) => Run::One(Box::new(erased_declarator(*x))),
        Run::Join(a, b) => Run::Join(
            Box::new(erased_declarators(*a)),
            Box::new(erased_declarators(*b)),
        ),
    }
}

/// A variable declaration, erased.
pub open spec fn erased_var_decl(node: VarDecl) -> VarDecl
    decreases node,
{
    VarDecl { decls: erased_declarators(node.decls), ..node }
}

/// A namespace, erased.
pub open spec fn erased_ts_module(node: TsModule) -> TsModule
    decreases node,
{
    TsModule { id: erased_nodes(node.id), body: erased_items(node.body), ..node }
}

/// A declaration, erased.
pub open spec fn erased_decl(node: Decl) -> Decl
    decreases node,
{
    match node {
        Decl::Class(n) => Decl::Class(erased_class_decl(n)),
        Decl::Fn(n) => Decl::Fn(erased_fn_decl(n)),
        Decl::Var(n) => Decl::Var(erased_var_decl(n)),
        Decl::TsInterface(n) => Decl::TsInterface(erased_syntax(n)),
        Decl::TsTypeAlias(n) => Decl::TsTypeAlias(erased_syntax(n)),
        Decl::TsEnum(n) => Decl::TsEnum(erased_syntax(n)),
        Decl::TsModule(n) => Decl::TsModule(erased_ts_module(n)),
    }
}

/// A statement, erased.
pub open spec fn erased_stmt(node: Stmt) -> Stmt
    decreases node,
{
    match node {
        Stmt::Empty { span } => Stmt::Empty { span },
        Stmt::Decl(decl) => Stmt::Decl(erased_decl(decl)),
        Stmt::Expr { span, expr } => Stmt::Expr { span, expr: erased_expr(expr) },
        Stmt::Other(syntax) => Stmt::Other(erased_syntax(syntax)),
    }
}

/// An export specifier, erased.
pub open spec fn erased_specifier(node: ExportSpecifier) -> ExportSpecifier {
    match node {
        ExportSpecifier::Namespace { span, name } => ExportSpecifier::Namespace {
            span,
            name: erased_ident(name),
        },
        ExportSpecifier::Default { exported } => ExportSpecifier::Default {
            exported: erased_ident(exported),
        },
        ExportSpecifier::Named { span, orig, exported } => ExportSpecifier::Named {
            span,
            orig: erased_ident(orig),
            exported: match exported {
                Some(exported) => Some(erased_ident(exported)),
                None => None,
            },
        },
    }
}

/// Export specifiers, erased.
pub open spec fn erased_specifiers(run: Run<ExportSpecifier>) -> Run<ExportSpecifier>
    decreases run,
{
    match run {
        Run::Empty => Run::Empty,
        Run::One(x) => Run::One(Box::new(erased_specifier(*x))),
        Run::Join(a, b) => Run::Join(
            Box::new(erased_specifiers(*a)),
            Box::new(erased_specifiers(*b)),
        ),
    }
}

/// A default declaration, erased.
pub open spec fn erased_default_decl(node: DefaultDecl) -> DefaultDecl
    decreases node,
{
    match node {
        DefaultDecl::Class(n) => DefaultDecl::Class(erased_class_expr(n)),
        DefaultDecl::Fn(n) => DefaultDecl::Fn(erased_fn_expr(n)),
        DefaultDecl::TsInterfaceDecl(n) => DefaultDecl::TsInterfaceDecl(erased_syntax(n)),
    }
}

/// An import or export, erased.
pub open spec fn erased_module_decl(node: ModuleDecl) -> ModuleDecl
    decreases node,
{
    match node {
        ModuleDecl::Import(n) => ModuleDecl::Import(
            ImportDecl { specifiers: erased_nodes(n.specifiers), ..n },
        ),
        ModuleDecl::ExportDecl { span, decl } => ModuleDecl::ExportDecl {
            span,
            decl: erased_decl(decl),
        },
        ModuleDecl::ExportNamed(n) => ModuleDecl::ExportNamed(
            NamedExport { specifiers: erased_specifiers(n.specifiers), ..n },
        ),
        ModuleDecl::ExportDefaultDecl { span, decl } => ModuleDecl::ExportDefaultDecl {
            span,
            decl: erased_default_decl(decl),
        },
        ModuleDecl::ExportDefaultExpr { span, expr } => ModuleDecl::ExportDefaultExpr {
            span,
            expr: erased_expr(expr),
        },
        ModuleDecl::ExportAll { span, src } => ModuleDecl::ExportAll { span, src },
        ModuleDecl::TsImportEquals(n) => ModuleDecl::TsImportEquals(erased_syntax(n)),
        ModuleDecl::TsExportAssignment(n) => ModuleDecl::TsExportAssignment(erased_syntax(n)),
        ModuleDecl::TsNamespaceExport(n) => ModuleDecl::TsNamespaceExport(erased_syntax(n)),
    }
}

/// A module item, erased.
pub open spec fn erased_item(node: ModuleItem) -> ModuleItem
    decreases node,
{
    match node {
        ModuleItem::ModuleDecl(decl) => ModuleItem::ModuleDecl(erased_module_decl(decl)),
        ModuleItem::Stmt(stmt) => ModuleItem::Stmt(erased_stmt(stmt)),
    }
}

/// A run of module items, erased.
pub open spec fn erased_items(run: Run<ModuleItem>) -> Run<ModuleItem>
    decreases run,
{
    match run {
        Run::Empty => Run::Empty,
        Run::One(x) => Run::One(Box::new(erased_item(*x))),
        Run::Join(a, b) => Run::Join(Box::new(erased_items(*a)), Box::new(erased_items(*b))),
    }
}

/// What an event becomes where the names `hidden` are hidden.
spec fn settled(m: Marking, hidden: Seq<Id>, event: Event) -> Event {
    match event {
        Event::Use(ident) => Event::Use(marked_ident(m, hidden, ident)),
        Event::Bind(id) => Event::Bind(id),
    }
}

spec fn outcome(m: Marking, ex: Seq<Id>, events: Seq<Event>) -> Seq<Event> {
    Seq::new(events.len(), |p: int| settled(m, ex + binds(events.take(p)), events[p]))
}

proof fn lemma_nothing(m: Marking, ex: Seq<Id>)
    ensures
        outcome(m, ex, Seq::empty()) == Seq::<Event>::empty(),
        binds(Seq::empty()) == Seq::<Id>::empty(),
{
}

proof fn lemma_one_bind(event: Event)
    ensures
        binds(seq![event]) == (match event {
            Event::Use(_) => Seq::empty(),
            Event::Bind(id) => seq![id],
        }),
{
    reveal_with_fuel(binds, 2);
    assert(seq![event].drop_last() == Seq::<Event>::empty());
}

proof fn lemma_binds_add(a: Seq<Event>, b: Seq<Event>)
    ensures
        binds(a + b) == binds(a) + binds(b),
    decreases b.len(),
{
    if b.len() == 0 {
        assert(a + b == a);
    } else {
        lemma_binds_add(a, b.drop_last());
        assert((a + b).drop_last() == a + b.drop_last());
    }
}

proof fn lemma_outcome_add(m: Marking, ex: Seq<Id>, a: Seq<Event>, b: Seq<Event>)
    ensures
        binds(a + b) == binds(a) + binds(b),
        outcome(m, ex, a + b) == outcome(m, ex, a) + outcome(m, ex + binds(a), b),
{
    lemma_binds_add(a, b);
    let (whole, parts) = (outcome(m, ex, a + b), outcome(m, ex, a) + outcome(m, ex + binds(a), b));
    assert forall|p: int| 0 <= p < whole.len() implies whole[p] == parts[p] by {
        if p < a.len() {
            assert((a + b).take(p) == a.take(p));
        } else {
            let q = p - a.len();
            assert((a + b).take(p) == a + b.take(q));
            lemma_binds_add(a, b.take(q));
            assert(ex + binds((a + b).take(p)) == ex + binds(a) + binds(b.take(q)));
        }
    }
    assert(whole == parts);
}

proof fn lemma_bindings_of(m: Marking, ex: Seq<Id>, ids: Seq<Id>)
    ensures
        binds(bindings_of(ids)) == ids,
        outcome(m, ex, bindings_of(ids)) == bindings_of(ids),
    decreases ids.len(),
{
    if ids.len() > 0 {
        lemma_bindings_of(m, ex, ids.drop_last());
        assert(bindings_of(ids).drop_last() == bindings_of(ids.drop_last()));
        assert(ids.drop_last().push(ids.last()) == ids);
    }
    assert(outcome(m, ex, bindings_of(ids)) == bindings_of(ids));
}

/// A name is hidden by what is bound before it.
proof fn lemma_binds_contains(events: Seq<Event>, id: Id)
    ensures
        binds(events).contains(id) == exists|q: int|
            0 <= q < events.len() && #[trigger] events[q] == Event::Bind(id),
    decreases events.len(),
{
    if events.len() > 0 {
        let (rest, last) = (events.drop_last(), events.last());
        lemma_binds_contains(rest, id);
        if binds(rest).contains(id) {
            let q = choose|q: int| 0 <= q < rest.len() && #[trigger] rest[q] == Event::Bind(id);
            assert(events[q] == Event::Bind(id));
            let k = choose|k: int| 0 <= k < binds(rest).len() && binds(rest)[k] == id;
            assert(binds(events)[k] == id);
        }
        if last == Event::Bind(id) {
            assert(events[events.len() - 1] == Event::Bind(id));
            assert(binds(events)[binds(events).len() - 1] == id);
        }
        if binds(events).contains(id) && last != Event::Bind(id) {
            let k = choose|k: int| 0 <= k < binds(events).len() && binds(events)[k] == id;
            assert(binds(rest)[k] == id);
        }
        if exists|q: int| 0 <= q < events.len() && #[trigger] events[q] == Event::Bind(id) {
            let q = choose|q: int| 0 <= q < events.len() && #[trigger] events[q] == Event::Bind(id);
            if q < rest.len() {
                assert(rest[q] == Event::Bind(id));
            }
        }
    }
}

proof fn lemma_events_ident(m: Marking, ex: Seq<Id>, ident: Ident)
    ensures
        binds(events_ident(ident)) == Seq::<Id>::empty(),
        events_ident(marked_ident(m, ex, ident)) == outcome(
            m,
            ex,
            events_ident(ident),
        ),
{
    assert(events_ident(ident).take(0) == Seq::<Event>::empty());
    lemma_nothing(m, ex);
    assert(ex + binds(events_ident(ident).take(0)) == ex);
    lemma_one_bind(Event::Use(ident));
}

proof fn lemma_events_nodes(m: Marking, ex: Seq<Id>, run: Run<Node>)
    ensures
        bound_nodes(run) == binds(events_nodes(run)),
        events_nodes(marked_nodes(m, ex, run)) == outcome(
            m,
            ex,
            events_nodes(run),
        ),
    decreases run,
{
    match run {
        Run::Empty => lemma_nothing(m, ex),
        Run::One(x) => lemma_events_node(m, ex, *x),
        Run::Join(a, b) => {
            lemma_events_nodes(m, ex, *a);
            lemma_events_nodes(m, ex + bound_nodes(*a), *b);
            lemma_outcome_add(m, ex, events_nodes(*a), events_nodes(*b));
        },
    }
}

proof fn lemma_events_node(m: Marking, ex: Seq<Id>, node: Node)
    ensures
        bound_node(node) == binds(events_node(node)),
        events_node(marked_node(m, ex, node)) == outcome(
            m,
            ex,
            events_node(node),
        ),
    decreases node,
{
    match node {
        Node::Ident(ident) => lemma_events_ident(m, ex, ident),
        Node::Parts(parts) => lemma_events_nodes(m, ex, parts),
        Node::CatchClause(n) => lemma_events_catch_clause(m, ex, n),
        Node::ClassDecl(n) => lemma_events_class_decl(m, ex, n),
        Node::ClassExpr(n) => lemma_events_class_expr(m, ex, n),
        Node::Constructor(n) => lemma_events_constructor(m, ex, n),
        Node::FnDecl(n) => lemma_events_fn_decl(m, ex, n),
        Node::FnExpr(n) => lemma_events_fn_expr(m, ex, n),
        Node::Function(n) => lemma_events_function(m, ex, n),
        Node::LabeledStmt(n) => lemma_events_labeled_stmt(m, ex, n),
        Node::MemberExpr(n) => lemma_events_member_expr(m, ex, n),
        Node::SetterProp(n) => lemma_events_setter_prop(m, ex, n),
        Node::TsModule(n) => lemma_events_ts_module(m, ex, n),
    }
}

proof fn lemma_events_syntax(m: Marking, ex: Seq<Id>, node: Syntax)
    ensures
        bound_syntax(node) == binds(events_syntax(node)),
        events_syntax(marked_syntax(m, ex, node)) == outcome(
            m,
            ex,
            events_syntax(node),
        ),
    decreases node,
{
    lemma_events_nodes(m, ex, node.parts);
}

proof fn lemma_events_catch_clause(m: Marking, ex: Seq<Id>, node: CatchClause)
    ensures
        bound_catch_clause(node) == binds(events_catch_clause(node)),
        events_catch_clause(marked_catch_clause(m, ex, node)) == outcome(
            m,
            ex,
            events_catch_clause(node),
        ),
    decreases node,
{
    lemma_bindings_of(m, ex, pats_ids(node.param));
    lemma_events_nodes(m, ex + pats_ids(node.param), node.body);
    lemma_outcome_add(m, ex, bindings_of(pats_ids(node.param)), events_nodes(node.body));
}

proof fn lemma_events_class_decl(m: Marking, ex: Seq<Id>, node: ClassDecl)
    ensures
        bound_class_decl(node) == binds(events_class_decl(node)),
        events_class_decl(marked_class_decl(m, ex, node)) == outcome(
            m,
            ex,
            events_class_decl(node),
        ),
    decreases node,
{
    lemma_bindings_of(m, ex, seq![node.ident.spec_id()]);
    lemma_events_syntax(m, ex + seq![node.ident.spec_id()], node.class);
    lemma_outcome_add(m, ex, bindings_of(seq![node.ident.spec_id()]), events_syntax(node.class));
}

proof fn lemma_events_class_expr(m: Marking, ex: Seq<Id>, node: ClassExpr)
    ensures
        bound_class_expr(node) == binds(events_class_expr(node)),
        events_class_expr(marked_class_expr(m, ex, node)) == outcome(
            m,
            ex,
            events_class_expr(node),
        ),
    decreases node,
{
    lemma_bindings_of(m, ex, ident_ids(node.ident));
    lemma_events_syntax(m, ex + ident_ids(node.ident), node.class);
    lemma_outcome_add(m, ex, bindings_of(ident_ids(node.ident)), events_syntax(node.class));
}

proof fn lemma_events_constructor(m: Marking, ex: Seq<Id>, node: Constructor)
    ensures
        bound_constructor(node) == binds(events_constructor(node)),
        events_constructor(marked_constructor(m, ex, node)) == outcome(
            m,
            ex,
            events_constructor(node),
        ),
    decreases node,
{
    lemma_bindings_of(m, ex, pats_ids(node.params));
    lemma_events_nodes(m, ex + pats_ids(node.params), node.body);
    lemma_outcome_add(m, ex, bindings_of(pats_ids(node.params)), events_nodes(node.body));
}

proof fn lemma_events_function(m: Marking, ex: Seq<Id>, node: Function)
    ensures
        bound_function(node) == binds(events_function(node)),
        events_function(marked_function(m, ex, node)) == outcome(
            m,
            ex,
            events_function(node),
        ),
    decreases node,
{
    lemma_bindings_of(m, ex, pats_ids(node.params));
    lemma_events_nodes(m, ex + pats_ids(node.params), node.body);
    lemma_outcome_add(m, ex, bindings_of(pats_ids(node.params)), events_nodes(node.body));
}

proof fn lemma_events_fn_decl(m: Marking, ex: Seq<Id>, node: FnDecl)
    ensures
        bound_fn_decl(node) == binds(events_fn_decl(node)),
        events_fn_decl(marked_fn_decl(m, ex, node)) == outcome(
            m,
            ex,
            events_fn_decl(node),
        ),
    decreases node,
{
    lemma_bindings_of(m, ex, seq![node.ident.spec_id()]);
    lemma_events_function(m, ex + seq![node.ident.spec_id()], node.function);
    lemma_outcome_add(
        m,
        ex,
        bindings_of(seq![node.ident.spec_id()]),
        events_function(node.function),
    );
}

proof fn lemma_events_fn_expr(m: Marking, ex: Seq<Id>, node: FnExpr)
    ensures
        bound_fn_expr(node) == binds(events_fn_expr(node)),
        events_fn_expr(marked_fn_expr(m, ex, node)) == outcome(
            m,
            ex,
            events_fn_expr(node),
        ),
    decreases node,
{
    lemma_bindings_of(m, ex, ident_ids(node.ident));
    lemma_events_function(m, ex + ident_ids(node.ident), node.function);
    lemma_outcome_add(m, ex, bindings_of(ident_ids(node.ident)), events_function(node.function));
}

proof fn lemma_events_labeled_stmt(m: Marking, ex: Seq<Id>, node: LabeledStmt)
    ensures
        bound_labeled_stmt(node) == binds(events_labeled_stmt(node)),
        events_labeled_stmt(marked_labeled_stmt(m, ex, node)) == outcome(
            m,
            ex,
            events_labeled_stmt(node),
        ),
    decreases node,
{
    lemma_events_nodes(m, ex, node.body);
}

proof fn lemma_events_member_expr(m: Marking, ex: Seq<Id>, node: MemberExpr)
    ensures
        bound_member_expr(node) == binds(events_member_expr(node)),
        events_member_expr(marked_member_expr(m, ex, node)) == outcome(
            m,
            ex,
            events_member_expr(node),
        ),
    decreases node,
{
    lemma_events_nodes(m, ex, node.obj);
    if node.computed {
        lemma_events_nodes(m, ex + bound_nodes(node.obj), node.prop);
        lemma_outcome_add(m, ex, events_nodes(node.obj), events_nodes(node.prop));
    }
}

proof fn lemma_events_setter_prop(m: Marking, ex: Seq<Id>, node: SetterProp)
    ensures
        bound_setter_prop(node) == binds(events_setter_prop(node)),
        events_setter_prop(marked_setter_prop(m, ex, node)) == outcome(
            m,
            ex,
            events_setter_prop(node),
        ),
    decreases node,
{
    lemma_bindings_of(m, ex, pats_ids(node.param));
    lemma_events_nodes(m, ex + pats_ids(node.param), node.body);
    lemma_outcome_add(m, ex, bindings_of(pats_ids(node.param)), events_nodes(node.body));
}

proof fn lemma_events_expr(m: Marking, ex: Seq<Id>, node: Expr)
    ensures
        bound_expr(node) == binds(events_expr(node)),
        events_expr(marked_expr(m, ex, node)) == outcome(
            m,
            ex,
            events_expr(node),
        ),
    decreases node,
{
    match node {
        Expr::Ident(ident) => lemma_events_ident(m, ex, ident),
        Expr::Other(syntax) => lemma_events_syntax(m, ex, syntax),
    }
}

proof fn lemma_events_pats(m: Marking, ex: Seq<Id>, run: Run<Pat>)
    ensures
        bound_pats(run) == binds(events_pats(run)),
        events_pats(marked_pats(m, ex, run)) == outcome(
            m,
            ex,
            events_pats(run),
        ),
    decreases run,
{
    match run {
        Run::Empty => lemma_nothing(m, ex),
        Run::One(x) => lemma_events_pat(m, ex, *x),
        Run::Join(a, b) => {
            lemma_events_pats(m, ex, *a);
            lemma_events_pats(m, ex + bound_pats(*a), *b);
            lemma_outcome_add(m, ex, events_pats(*a), events_pats(*b));
        },
    }
}

proof fn lemma_events_pat(m: Marking, ex: Seq<Id>, node: Pat)
    ensures
        bound_pat(node) == binds(events_pat(node)),
        events_pat(marked_pat(m, ex, node)) == outcome(
            m,
            ex,
            events_pat(node),
        ),
    decreases node,
{
    match node {
        Pat::Ident(ident) => lemma_events_ident(m, ex, ident),
        Pat::Expr(expr) => lemma_events_expr(m, ex, expr),
        Pat::PropName(parts) => lemma_events_pats(m, ex, parts),
        Pat::Type(parts) => lemma_events_pats(m, ex, parts),
        Pat::Other { origin, parts } => lemma_events_pats(m, ex, parts),
    }
}

proof fn lemma_events_declarator(m: Marking, ex: Seq<Id>, node: VarDeclarator)
    ensures
        bound_declarator(node) == binds(events_declarator(node)),
        events_declarator(marked_declarator(m, ex, node)) == outcome(
            m,
            ex,
            events_declarator(node),
        ),
    decreases node,
{
    lemma_events_pat(m, ex, node.name);
    match node.init {
        Some(init) => {
            lemma_events_expr(m, ex + bound_pat(node.name), init);
            lemma_outcome_add(m, ex, events_pat(node.name), events_expr(init));
        },
        None => {
            lemma_nothing(m, ex);
            assert(events_declarator(node) == events_pat(node.name));
            assert(events_declarator(marked_declarator(m, ex, node)) == events_pat(
                marked_pat(m, ex, node.name),
            ));
        },
    }
}

proof fn lemma_events_declarators(m: Marking, ex: Seq<Id>, run: Run<VarDeclarator>)
    ensures
        bound_declarators(run) == binds(events_declarators(run)),
        events_declarators(marked_declarators(m, ex, run)) == outcome(
            m,
            ex,
            events_declarators(run),
        ),
    decreases run,
{
    match run {
        Run::Empty => lemma_nothing(m, ex),
        Run::One(x) => lemma_events_declarator(m, ex, *x),
        Run::Join(a, b) => {
            lemma_events_declarators(m, ex, *a);
            lemma_events_declarators(m, ex + bound_declarators(*a), *b);
            lemma_outcome_add(m, ex, events_declarators(*a), events_declarators(*b));
        },
    }
}

proof fn lemma_events_var_decl(m: Marking, ex: Seq<Id>, node: VarDecl)
    ensures
        bound_var_decl(node) == binds(events_var_decl(node)),
        events_var_decl(marked_var_decl(m, ex, node)) == outcome(
            m,
            ex,
            events_var_decl(node),
        ),
    decreases node,
{
    lemma_events_declarators(m, ex, node.decls);
}

proof fn lemma_events_ts_module(m: Marking, ex: Seq<Id>, node: TsModule)
    ensures
        bound_ts_module(node) == binds(events_ts_module(node)),
        events_ts_module(marked_ts_module(m, ex, node)) == outcome(
            m,
            ex,
            events_ts_module(node),
        ),
    decreases node,
{
    lemma_events_nodes(m, ex, node.id);
    lemma_events_items(m, ex + bound_nodes(node.id), node.body);
    lemma_outcome_add(m, ex, events_nodes(node.id), events_items(node.body));
}

proof fn lemma_events_decl(m: Marking, ex: Seq<Id>, node: Decl)
    ensures
        bound_decl(node) == binds(events_decl(node)),
        events_decl(marked_decl(m, ex, node)) == outcome(
            m,
            ex,
            events_decl(node),
        ),
    decreases node,
{
    match node {
        Decl::Class(n) => lemma_events_class_decl(m, ex, n),
        Decl::Fn(n) => lemma_events_fn_decl(m, ex, n),
        Decl::Var(n) => lemma_events_var_decl(m, ex, n),
        Decl::TsInterface(n) => lemma_events_syntax(m, ex, n),
        Decl::TsTypeAlias(n) => lemma_events_syntax(m, ex, n),
        Decl::TsEnum(n) => lemma_events_syntax(m, ex, n),
        Decl::TsModule(n) => lemma_events_ts_module(m, ex, n),
    }
}

proof fn lemma_events_stmt(m: Marking, ex: Seq<Id>, node: Stmt)
    ensures
        bound_stmt(node) == binds(events_stmt(node)),
        events_stmt(marked_stmt(m, ex, node)) == outcome(
            m,
            ex,
            events_stmt(node),
        ),
    decreases node,
{
    match node {
        Stmt::Empty { span } => lemma_nothing(m, ex),
        Stmt::Decl(decl) => lemma_events_decl(m, ex, decl),
        Stmt::Expr { span, expr } => lemma_events_expr(m, ex, expr),
        Stmt::Other(syntax) => lemma_events_syntax(m, ex, syntax),
    }
}

proof fn lemma_events_specifier(m: Marking, ex: Seq<Id>, node: ExportSpecifier)
    ensures
        binds(events_specifier(node)) == Seq::<Id>::empty(),
        events_specifier(marked_specifier(m, ex, node)) == outcome(
            m,
            ex,
            events_specifier(node),
        ),
{
    match node {
        ExportSpecifier::Namespace { span, name } => lemma_events_ident(m, ex, name),
        ExportSpecifier::Default { exported } => lemma_events_ident(m, ex, exported),
        ExportSpecifier::Named { span, orig, exported } => {
            lemma_events_ident(m, ex, orig);
            if let Some(exported) = exported {
                lemma_events_ident(m, ex, exported);
                assert(ex + Seq::<Id>::empty() == ex);
                lemma_outcome_add(m, ex, events_ident(orig), events_ident(exported));
            }
        },
    }
}

proof fn lemma_events_specifiers(m: Marking, ex: Seq<Id>, run: Run<ExportSpecifier>)
    ensures
        binds(events_specifiers(run)) == Seq::<Id>::empty(),
        events_specifiers(marked_specifiers(m, ex, run)) == outcome(
            m,
            ex,
            events_specifiers(run),
        ),
    decreases run,
{
    match run {
        Run::Empty => lemma_nothing(m, ex),
        Run::One(x) => lemma_events_specifier(m, ex, *x),
        Run::Join(a, b) => {
            lemma_events_specifiers(m, ex, *a);
            lemma_events_specifiers(m, ex, *b);
            assert(ex + Seq::<Id>::empty() == ex);
            lemma_outcome_add(m, ex, events_specifiers(*a), events_specifiers(*b));
        },
    }
}

proof fn lemma_events_default_decl(m: Marking, ex: Seq<Id>, node: DefaultDecl)
    ensures
        bound_default_decl(node) == binds(events_default_decl(node)),
        events_default_decl(marked_default_decl(m, ex, node)) == outcome(
            m,
            ex,
            events_default_decl(node),
        ),
    decreases node,
{
    match node {
        DefaultDecl::Class(n) => lemma_events_class_expr(m, ex, n),
        DefaultDecl::Fn(n) => lemma_events_fn_expr(m, ex, n),
        DefaultDecl::TsInterfaceDecl(n) => lemma_events_syntax(m, ex, n),
    }
}

proof fn lemma_events_module_decl(m: Marking, ex: Seq<Id>, node: ModuleDecl)
    ensures
        bound_module_decl(node) == binds(events_module_decl(node)),
        events_module_decl(marked_module_decl(m, ex, node)) == outcome(
            m,
            ex,
            events_module_decl(node),
        ),
    decreases node,
{
    match node {
        ModuleDecl::Import(n) => lemma_events_nodes(m, ex, n.specifiers),
        ModuleDecl::ExportDecl { span, decl } => lemma_events_decl(m, ex, decl),
        ModuleDecl::ExportNamed(n) => lemma_events_specifiers(m, ex, n.specifiers),
        ModuleDecl::ExportDefaultDecl { span, decl } => lemma_events_default_decl(m, ex, decl),
        ModuleDecl::ExportDefaultExpr { span, expr } => lemma_events_expr(m, ex, expr),
        ModuleDecl::ExportAll { span, src } => lemma_nothing(m, ex),
        ModuleDecl::TsImportEquals(n) => lemma_events_syntax(m, ex, n),
        ModuleDecl::TsExportAssignment(n) => lemma_events_syntax(m, ex, n),
        ModuleDecl::TsNamespaceExport(n) => lemma_events_syntax(m, ex, n),
    }
}

proof fn lemma_events_item(m: Marking, ex: Seq<Id>, node: ModuleItem)
    ensures
        bound_item(node) == binds(events_item(node)),
        events_item(marked_item(m, ex, node)) == outcome(
            m,
            ex,
            events_item(node),
        ),
    decreases node,
{
    match node {
        ModuleItem::ModuleDecl(decl) => lemma_events_module_decl(m, ex, decl),
        ModuleItem::Stmt(stmt) => lemma_events_stmt(m, ex, stmt),
    }
}

proof fn lemma_events_items(m: Marking, ex: Seq<Id>, run: Run<ModuleItem>)
    ensures
        bound_items(run) == binds(events_items(run)),
        events_items(marked_items(m, ex, run)) == outcome(
            m,
            ex,
            events_items(run),
        ),
    decreases run,
{
    match run {
        Run::Empty => lemma_nothing(m, ex),
        Run::One(x) => lemma_events_item(m, ex, *x),
        Run::Join(a, b) => {
            lemma_events_items(m, ex, *a);
            lemma_events_items(m, ex + bound_items(*a), *b);
            lemma_outcome_add(m, ex, events_items(*a), events_items(*b));
        },
    }
}

proof fn lemma_erased_ident(m: Marking, ex: Seq<Id>, ident: Ident)
    ensures
        erased_ident(marked_ident(m, ex, ident)) == erased_ident(ident),
{
}

proof fn lemma_erased_nodes(m: Marking, ex: Seq<Id>, run: Run<Node>)
    ensures
        erased_nodes(marked_nodes(m, ex, run)) == erased_nodes(run),
    decreases run,
{
    match run {
        Run::Empty => {},
        Run::One(x) => lemma_erased_node(m, ex, *x),
        Run::Join(a, b) => {
            lemma_erased_nodes(m, ex, *a);
            lemma_erased_nodes(m, ex + bound_nodes(*a), *b);
        },
    }
}

proof fn lemma_erased_node(m: Marking, ex: Seq<Id>, node: Node)
    ensures
        erased_node(marked_node(m, ex, node)) == erased_node(node),
    decreases node,
{
    match node {
        Node::Ident(ident) => lemma_erased_ident(m, ex, ident),
        Node::Parts(parts) => lemma_erased_nodes(m, ex, parts),
        Node::CatchClause(n) => lemma_erased_catch_clause(m, ex, n),
        Node::ClassDecl(n) => lemma_erased_class_decl(m, ex, n),
        Node::ClassExpr(n) => lemma_erased_class_expr(m, ex, n),
        Node::Constructor(n) => lemma_erased_constructor(m, ex, n),
        Node::FnDecl(n) => lemma_erased_fn_decl(m, ex, n),
        Node::FnExpr(n) => lemma_erased_fn_expr(m, ex, n),
        Node::Function(n) => lemma_erased_function(m, ex, n),
        Node::LabeledStmt(n) => lemma_erased_labeled_stmt(m, ex, n),
        Node::MemberExpr(n) => lemma_erased_member_expr(m, ex, n),
        Node::SetterProp(n) => lemma_erased_setter_prop(m, ex, n),
        Node::TsModule(n) => lemma_erased_ts_module(m, ex, n),
    }
}

proof fn lemma_erased_syntax(m: Marking, ex: Seq<Id>, node: Syntax)
    ensures
        erased_syntax(marked_syntax(m, ex, node)) == erased_syntax(node),
    decreases node,
{
    lemma_erased_nodes(m, ex, node.parts);
}

proof fn lemma_erased_catch_clause(m: Marking, ex: Seq<Id>, node: CatchClause)
    ensures
        erased_catch_clause(marked_catch_clause(m, ex, node)) == erased_catch_clause(node),
    decreases node,
{
    lemma_erased_nodes(m, ex + pats_ids(node.param), node.body);
}

proof fn lemma_erased_class_decl(m: Marking, ex: Seq<Id>, node: ClassDecl)
    ensures
        erased_class_decl(marked_class_decl(m, ex, node)) == erased_class_decl(node),
    decreases node,
{
    lemma_erased_syntax(m, ex + seq![node.ident.spec_id()], node.class);
}

proof fn lemma_erased_class_expr(m: Marking, ex: Seq<Id>, node: ClassExpr)
    ensures
        erased_class_expr(marked_class_expr(m, ex, node)) == erased_class_expr(node),
    decreases node,
{
    lemma_erased_syntax(m, ex + ident_ids(node.ident), node.class);
}

proof fn lemma_erased_constructor(m: Marking, ex: Seq<Id>, node: Constructor)
    ensures
        erased_constructor(marked_constructor(m, ex, node)) == erased_constructor(node),
    decreases node,
{
    lemma_erased_nodes(m, ex + pats_ids(node.params), node.body);
}

proof fn lemma_erased_function(m: Marking, ex: Seq<Id>, node: Function)
    ensures
        erased_function(marked_function(m, ex, node)) == erased_function(node),
    decreases node,
{
    lemma_erased_nodes(m, ex + pats_ids(node.params), node.body);
}

proof fn lemma_erased_fn_decl(m: Marking, ex: Seq<Id>, node: FnDecl)
    ensures
        erased_fn_decl(marked_fn_decl(m, ex, node)) == erased_fn_decl(node),
    decreases node,
{
    lemma_erased_function(m, ex + seq![node.ident.spec_id()], node.function);
}

proof fn lemma_erased_fn_expr(m: Marking, ex: Seq<Id>, node: FnExpr)
    ensures
        erased_fn_expr(marked_fn_expr(m, ex, node)) == erased_fn_expr(node),
    decreases node,
{
    lemma_erased_function(m, ex + ident_ids(node.ident), node.function);
}

proof fn lemma_erased_labeled_stmt(m: Marking, ex: Seq<Id>, node: LabeledStmt)
    ensures
        erased_labeled_stmt(marked_labeled_stmt(m, ex, node)) == erased_labeled_stmt(node),
    decreases node,
{
    lemma_erased_nodes(m, ex, node.body);
}

proof fn lemma_erased_member_expr(m: Marking, ex: Seq<Id>, node: MemberExpr)
    ensures
        erased_member_expr(marked_member_expr(m, ex, node)) == erased_member_expr(node),
    decreases node,
{
    lemma_erased_nodes(m, ex, node.obj);
    if node.computed {
        lemma_erased_nodes(m, ex + bound_nodes(node.obj), node.prop);
    }
}

proof fn lemma_erased_setter_prop(m: Marking, ex: Seq<Id>, node: SetterProp)
    ensures
        erased_setter_prop(marked_setter_prop(m, ex, node)) == erased_setter_prop(node),
    decreases node,
{
    lemma_erased_nodes(m, ex + pats_ids(node.param), node.body);
}

proof fn lemma_erased_expr(m: Marking, ex: Seq<Id>, node: Expr)
    ensures
        erased_expr(marked_expr(m, ex, node)) == erased_expr(node),
    decreases node,
{
    match node {
        Expr::Ident(ident) => lemma_erased_ident(m, ex, ident),
        Expr::Other(syntax) => lemma_erased_syntax(m, ex, syntax),
    }
}

proof fn lemma_erased_pats(m: Marking, ex: Seq<Id>, run: Run<Pat>)
    ensures
        erased_pats(marked_pats(m, ex, run)) == erased_pats(run),
    decreases run,
{
    match run {
        Run::Empty => {},
        Run::One(x) => lemma_erased_pat(m, ex, *x),
        Run::Join(a, b) => {
            lemma_erased_pats(m, ex, *a);
            lemma_erased_pats(m, ex + bound_pats(*a), *b);
        },
    }
}

proof fn lemma_erased_pat(m: Marking, ex: Seq<Id>, node: Pat)
    ensures
        erased_pat(marked_pat(m, ex, node)) == erased_pat(node),
    decreases node,
{
    match node {
        Pat::Ident(ident) => lemma_erased_ident(m, ex, ident),
        Pat::Expr(expr) => lemma_erased_expr(m, ex, expr),
        Pat::PropName(parts) => lemma_erased_pats(m, ex, parts),
        Pat::Type(parts) => lemma_erased_pats(m, ex, parts),
        Pat::Other { origin, parts } => lemma_erased_pats(m, ex, parts),
    }
}

proof fn lemma_erased_declarator(m: Marking, ex: Seq<Id>, node: VarDeclarator)
    ensures
        erased_declarator(marked_declarator(m, ex, node)) == erased_declarator(node),
    decreases node,
{
    lemma_erased_pat(m, ex, node.name);
    match node.init {
        Some(init) => lemma_erased_expr(m, ex + bound_pat(node.name), init),
        None => {},
    }
}

proof fn lemma_erased_declarators(m: Marking, ex: Seq<Id>, run: Run<VarDeclarator>)
    ensures
        erased_declarators(marked_declarators(m, ex, run)) == erased_declarators(run),
    decreases run,
{
    match run {
        Run::Empty => {},
        Run::One(x) => lemma_erased_declarator(m, ex, *x),
        Run::Join(a, b) => {
            lemma_erased_declarators(m, ex, *a);
            lemma_erased_declarators(m, ex + bound_declarators(*a), *b);
        },
    }
}

proof fn lemma_erased_var_decl(m: Marking, ex: Seq<Id>, node: VarDecl)
    ensures
        erased_var_decl(marked_var_decl(m, ex, node)) == erased_var_decl(node),
    decreases node,
{
    lemma_erased_declarators(m, ex, node.decls);
}

proof fn lemma_erased_ts_module(m: Marking, ex: Seq<Id>, node: TsModule)
    ensures
        erased_ts_module(marked_ts_module(m, ex, node)) == erased_ts_module(node),
    decreases node,
{
    lemma_erased_nodes(m, ex, node.id);
    lemma_erased_items(m, ex + bound_nodes(node.id), node.body);
}

proof fn lemma_erased_decl(m: Marking, ex: Seq<Id>, node: Decl)
    ensures
        erased_decl(marked_decl(m, ex, node)) == erased_decl(node),
    decreases node,
{
    match node {
        Decl::Class(n) => lemma_erased_class_decl(m, ex, n),
        Decl::Fn(n) => lemma_erased_fn_decl(m, ex, n),
        Decl::Var(n) => lemma_erased_var_decl(m, ex, n),
        Decl::TsInterface(n) => lemma_erased_syntax(m, ex, n),
        Decl::TsTypeAlias(n) => lemma_erased_syntax(m, ex, n),
        Decl::TsEnum(n) => lemma_erased_syntax(m, ex, n),
        Decl::TsModule(n) => lemma_erased_ts_module(m, ex, n),
    }
}

proof fn lemma_erased_stmt(m: Marking, ex: Seq<Id>, node: Stmt)
    ensures
        erased_stmt(marked_stmt(m, ex, node)) == erased_stmt(node),
    decreases node,
{
    match node {
        Stmt::Empty { span } => {},
        Stmt::Decl(decl) => lemma_erased_decl(m, ex, decl),
        Stmt::Expr { span, expr } => lemma_erased_expr(m, ex, expr),
        Stmt::Other(syntax) => lemma_erased_syntax(m, ex, syntax),
    }
}

proof fn lemma_erased_specifier(m: Marking, ex: Seq<Id>, node: ExportSpecifier)
    ensures
        erased_specifier(marked_specifier(m, ex, node)) == erased_specifier(node),
{
}

proof fn lemma_erased_specifiers(m: Marking, ex: Seq<Id>, run: Run<ExportSpecifier>)
    ensures
        erased_specifiers(marked_specifiers(m, ex, run)) == erased_specifiers(run),
    decreases run,
{
    match run {
        Run::Empty => {},
        Run::One(x) => lemma_erased_specifier(m, ex, *x),
        Run::Join(a, b) => {
            lemma_erased_specifiers(m, ex, *a);
            lemma_erased_specifiers(m, ex, *b);
        },
    }
}

proof fn lemma_erased_default_decl(m: Marking, ex: Seq<Id>, node: DefaultDecl)
    ensures
        erased_default_decl(marked_default_decl(m, ex, node)) == erased_default_decl(node),
    decreases node,
{
    match node {
        DefaultDecl::Class(n) => lemma_erased_class_expr(m, ex, n),
        DefaultDecl::Fn(n) => lemma_erased_fn_expr(m, ex, n),
        DefaultDecl::TsInterfaceDecl(n) => lemma_erased_syntax(m, ex, n),
    }
}

proof fn lemma_erased_module_decl(m: Marking, ex: Seq<Id>, node: ModuleDecl)
    ensures
        erased_module_decl(marked_module_decl(m, ex, node)) == erased_module_decl(node),
    decreases node,
{
    match node {
        ModuleDecl::Import(n) => lemma_erased_nodes(m, ex, n.specifiers),
        ModuleDecl::ExportDecl { span, decl } => lemma_erased_decl(m, ex, decl),
        ModuleDecl::ExportNamed(n) => lemma_erased_specifiers(m, ex, n.specifiers),
        ModuleDecl::ExportDefaultDecl { span, decl } => lemma_erased_default_decl(m, ex, decl),
        ModuleDecl::ExportDefaultExpr { span, expr } => lemma_erased_expr(m, ex, expr),
        ModuleDecl::ExportAll { span, src } => {},
        ModuleDecl::TsImportEquals(n) => lemma_erased_syntax(m, ex, n),
        ModuleDecl::TsExportAssignment(n) => lemma_erased_syntax(m, ex, n),
        ModuleDecl::TsNamespaceExport(n) => lemma_erased_syntax(m, ex, n),
    }
}

proof fn lemma_erased_item(m: Marking, ex: Seq<Id>, node: ModuleItem)
    ensures
        erased_item(marked_item(m, ex, node)) == erased_item(node),
    decreases node,
{
    match node {
        ModuleItem::ModuleDecl(decl) => lemma_erased_module_decl(m, ex, decl),
        ModuleItem::Stmt(stmt) => lemma_erased_stmt(m, ex, stmt),
    }
}

proof fn lemma_erased_items(m: Marking, ex: Seq<Id>, run: Run<ModuleItem>)
    ensures
        erased_items(marked_items(m, ex, run)) == erased_items(run),
    decreases run,
{
    match run {
        Run::Empty => {},
        Run::One(x) => lemma_erased_item(m, ex, *x),
        Run::Join(a, b) => {
            lemma_erased_items(m, ex, *a);
            lemma_erased_items(m, ex + bound_items(*a), *b);
        },
    }
}

/// Whether a specifier is about a name: the name that it binds, or in a module
/// that exports, the name under which it is exported.
pub open spec fn concerns(specifier: Specifier, is_export: bool, id: Id) -> bool {
    match specifier {
        Specifier::Namespace { local } => local == id,
        Specifier::Specific { local, alias: Some(alias) } => if is_export {
            alias == id
        } else {
            local == id
        },
        Specifier::Specific { local, alias: None } => local == id,
    }
}

/// Marking looks at the identifiers of a module one after the other.
///
/// One whose word and context are those that a specifier is about gets the mark,
/// unless its name is hidden: excluded from the start, or bound by a class, a
/// function, a parameter or a caught error that the visit met before, wherever
/// that stands. Every other identifier, and every name that is bound, comes out as
/// it went in.
pub proof fn law_marking_event_by_event(
    m: Marking,
    ex: Seq<Id>,
    items: Run<ModuleItem>,
    p: int,
)
    requires
        0 <= p < events_items(items).len(),
    ensures
        events_items(marked_items(m, ex, items)).len() == events_items(items).len(),
        match events_items(items)[p] {
            Event::Bind(id) => events_items(marked_items(m, ex, items))[p] == Event::Bind(id),
            Event::Use(ident) => {
                let id = Id { sym: ident.sym, ctxt: ident.span.ctxt };
                let hidden = ex.contains(id) || exists|q: int|
                    0 <= q < p && #[trigger] events_items(items)[q] == Event::Bind(id);
                let about = exists|k: int|
                    0 <= k < m.specifiers.len() && concerns(
                        #[trigger] m.specifiers[k],
                        m.is_export,
                        id,
                    );
                let span = ident.span;
                events_items(marked_items(m, ex, items))[p] == Event::Use(
                    if !hidden && about {
                        Ident {
                            span: Span {
                                lo: span.lo,
                                hi: span.hi,
                                ctxt: SyntaxContext::Marked(m.mark),
                            },
                            sym: ident.sym,
                            type_ann: ident.type_ann,
                            optional: ident.optional,
                        }
                    } else {
                        ident
                    },
                )
            },
        },
{
    let events = events_items(items);
    lemma_events_items(m, ex, items);
    if let Event::Use(ident) = events[p] {
        let id = ident.spec_id();
        let before = events.take(p);
        lemma_binds_contains(before, id);
        let hidden = ex + binds(before);
        if exists|q: int| 0 <= q < p && #[trigger] events[q] == Event::Bind(id) {
            let q = choose|q: int| 0 <= q < p && #[trigger] events[q] == Event::Bind(id);
            assert(before[q] == Event::Bind(id));
        }
        if exists|q: int| 0 <= q < before.len() && #[trigger] before[q] == Event::Bind(id) {
            let q = choose|q: int| 0 <= q < before.len() && #[trigger] before[q] == Event::Bind(id);
            assert(events[q] == Event::Bind(id));
        }
        if ex.contains(id) {
            let k = choose|k: int| 0 <= k < ex.len() && ex[k] == id;
            assert(hidden[k] == id);
        }
        if binds(before).contains(id) {
            let k = choose|k: int| 0 <= k < binds(before).len() && binds(before)[k] == id;
            assert(hidden[ex.len() + k] == id);
        }
        if hidden.contains(id) {
            let k = choose|k: int| 0 <= k < hidden.len() && hidden[k] == id;
            if k < ex.len() {
                assert(ex[k] == id);
            } else {
                assert(binds(before)[k - ex.len()] == id);
            }
        }
        assert forall|k: int| 0 <= k < m.specifiers.len() implies m.is_about(
            #[trigger] m.specifiers[k],
            id,
        ) == concerns(m.specifiers[k], m.is_export, id) by {}
    }
}

/// After a visit, the names that it met are excluded besides those that were:
/// each that a class, a function, a parameter or a caught error binds, in order.
pub proof fn law_bound_names_are_excluded(items: Run<ModuleItem>)
    ensures
        bound_items(items) == binds(events_items(items)),
{
    let m = Marking { mark: 0, specifiers: Seq::empty(), is_export: false };
    lemma_events_items(m, Seq::empty(), items);
}

/// Marking changes nothing but the contexts of identifiers.
pub proof fn law_marking_changes_contexts_only(m: Marking, ex: Seq<Id>, module: Module)
    ensures
        erased_items(marked_module(m, ex, module).body) == erased_items(module.body),
        marked_module(m, ex, module).body == marked_items(m, ex, module.body),
        marked_module(m, ex, module).span == module.span,
        marked_module(m, ex, module).shebang == module.shebang,
{
    lemma_erased_items(m, ex, module.body);
}

/// A name that no specifier is about by its word and its context together stays as
/// it is. So does a name that carries the mark of one module, while names of
/// another are marked: a word alone is not enough.
pub proof fn law_other_names_stay(m: Marking, ex: Seq<Id>, items: Run<ModuleItem>, p: int)
    requires
        0 <= p < events_items(items).len(),
        events_items(items)[p] matches Event::Use(ident) && forall|k: int|
            0 <= k < m.specifiers.len() ==> !concerns(
                #[trigger] m.specifiers[k],
                m.is_export,
                Id { sym: ident.sym, ctxt: ident.span.ctxt },
            ),
    ensures
        events_items(marked_items(m, ex, items))[p] == events_items(items)[p],
{
    law_marking_event_by_event(m, ex, items, p);
}

/// A name that is marked for one module keeps that mark while the names of another
/// are marked, unless the importer binds a name with that mark.
pub proof fn law_marks_do_not_disturb(
    first: Marking,
    second: Marking,
    ex: Seq<Id>,
    items: Run<ModuleItem>,
    p: int,
)
    requires
        0 <= p < events_items(items).len(),
        events_items(marked_items(first, ex, items))[p] matches Event::Use(ident) && ident.span.ctxt
            == SyntaxContext::Marked(first.mark),
        forall|k: int, id: Id|
            0 <= k < second.specifiers.len() && id.ctxt == SyntaxContext::Marked(first.mark)
                ==> !#[trigger] concerns(second.specifiers[k], second.is_export, id),
    ensures
        events_items(marked_items(second, ex, marked_items(first, ex, items)))[p] == events_items(
            marked_items(first, ex, items),
        )[p],
{
    law_marking_event_by_event(first, ex, items, p);
    let marked = marked_items(first, ex, items);
    if let Event::Use(ident) = events_items(marked)[p] {
        let id = Id { sym: ident.sym, ctxt: ident.span.ctxt };
        assert forall|k: int| 0 <= k < second.specifiers.len() implies !concerns(
            #[trigger] second.specifiers[k],
            second.is_export,
            id,
        ) by {}
        law_other_names_stay(second, ex, marked, p);
    }
}

/// Each event of a run is an event of one of its items.
proof fn lemma_event_of_item(items: Run<ModuleItem>, q: int) -> (at: (int, int))
    requires
        0 <= q < events_items(items).len(),
    ensures
        0 <= at.0 < items@.len(),
        0 <= at.1 < events_item(items@[at.0]).len(),
        events_item(items@[at.0])[at.1] == events_items(items)[q],
    decreases items,
{
    match items {
        Run::Empty => (0, 0),
        Run::One(x) => {
            assert(items@[0] == *x);
            (0, q)
        },
        Run::Join(a, b) => {
            let n = events_items(*a).len();
            if q < n {
                let at = lemma_event_of_item(*a, q);
                assert(items@[at.0] == a@[at.0]);
                at
            } else {
                let at = lemma_event_of_item(*b, q - n);
                assert(items@[a@.len() + at.0] == b@[at.0]);
                (a@.len() + at.0, at.1)
            }
        },
    }
}

/// Whether a use is hidden: its name is bound before it, in an item before its own
/// or before it in its own.
pub open spec fn is_hidden(items: Seq<ModuleItem>, i: int, p: int, id: Id) -> bool {
    exists|j: int, q: int|
        #![trigger events_item(items[j])[q]]
        0 <= j <= i && 0 <= q < events_item(items[j]).len() && (j == i ==> q < p) && events_item(
            items[j],
        )[q] == Event::Bind(id)
}

proof fn lemma_unhidden(
    m: Marking,
    ex: Seq<Id>,
    items: Run<ModuleItem>,
    i: int,
    p: int,
    ident: Ident,
)
    requires
        0 <= i < items@.len(),
        0 <= p < events_item(items@[i]).len(),
        events_item(items@[i])[p] == Event::Use(ident),
        m.covers(ident.spec_id()),
        !ex.contains(ident.spec_id()),
        !is_hidden(items@, i, p, ident.spec_id()),
    ensures
        marked_items(m, ex, items)@.len() == items@.len(),
        events_item(marked_items(m, ex, items)@[i]).len() == events_item(items@[i]).len(),
        events_item(marked_items(m, ex, items)@[i])[p] == Event::Use(
            ident.spec_with_ctxt(SyntaxContext::Marked(m.mark)),
        ),
        erased_item(marked_items(m, ex, items)@[i]) == erased_item(items@[i]),
    decreases items,
{
    let id = ident.spec_id();
    law_marked_in_order(m, ex, items, i);
    match items {
        Run::Empty => {},
        Run::One(x) => {
            assert(items@[0] == *x);
            let events = events_item(*x);
            lemma_events_item(m, ex, *x);
            lemma_erased_item(m, ex, *x);
            let before = events.take(p);
            lemma_binds_contains(before, id);
            if binds(before).contains(id) {
                let q = choose|q: int|
                    0 <= q < before.len() && #[trigger] before[q] == Event::Bind(id);
                assert(events_item(items@[0])[q] == Event::Bind(id));
            }
            let hidden = ex + binds(before);
            if hidden.contains(id) {
                let k = choose|k: int| 0 <= k < hidden.len() && hidden[k] == id;
                if k < ex.len() {
                    assert(ex[k] == id);
                } else {
                    assert(binds(before)[k - ex.len()] == id);
                }
            }
            assert(marked_items(m, ex, items)@[0] == marked_item(m, ex, *x));
        },
        Run::Join(a, b) => {
            let rest = ex + bound_items(*a);
            let n = a@.len();
            if i < n {
                assert(items@[i] == a@[i]);
                assert forall|j: int, q: int|
                    #![trigger events_item(a@[j])[q]]
                    0 <= j <= i && 0 <= q < events_item(a@[j]).len() && (j == i ==> q < p)
                        && events_item(a@[j])[q] == Event::Bind(id) implies false by {
                    assert(items@[j] == a@[j]);
                    assert(events_item(items@[j])[q] == Event::Bind(id));
                }
                lemma_unhidden(m, ex, *a, i, p, ident);
                assert(marked_items(m, ex, items)@[i] == marked_items(m, ex, *a)@[i]);
            } else {
                assert(items@[i] == b@[i - n]);
                assert forall|j: int, q: int|
                    #![trigger events_item(b@[j])[q]]
                    0 <= j <= i - n && 0 <= q < events_item(b@[j]).len() && (j == i - n ==> q < p)
                        && events_item(b@[j])[q] == Event::Bind(id) implies false by {
                    assert(items@[n + j] == b@[j]);
                    assert(events_item(items@[n + j])[q] == Event::Bind(id));
                }
                lemma_events_items(m, ex, *a);
                lemma_binds_contains(events_items(*a), id);
                if bound_items(*a).contains(id) {
                    let q = choose|q: int|
                        0 <= q < events_items(*a).len() && #[trigger] events_items(*a)[q]
                            == Event::Bind(id);
                    let at = lemma_event_of_item(*a, q);
                    assert(items@[at.0] == a@[at.0]);
                    assert(events_item(items@[at.0])[at.1] == Event::Bind(id));
                }
                if rest.contains(id) {
                    let k = choose|k: int| 0 <= k < rest.len() && rest[k] == id;
                    if k < ex.len() {
                        assert(ex[k] == id);
                    } else {
                        assert(bound_items(*a)[k - ex.len()] == id);
                    }
                }
                lemma_unhidden(m, rest, *b, i - n, p, ident);
                if n > 0 {
                    law_marked_in_order(m, ex, *a, 0);
                } else {
                    lemma_marked_len(m, ex, *a);
                }
                assert(marked_items(m, ex, items)@[i] == marked_items(m, rest, *b)@[i - n]);
            }
        },
    }
}

/// In a module that is marked, every use of a name that a specifier is about, and
/// that nothing hides, gets the mark and is else as it was. It stays where it was,
/// in an item that is else as it was.
pub proof fn law_unhidden_use_is_marked(
    m: Marking,
    items: Run<ModuleItem>,
    i: int,
    p: int,
    k: int,
    ident: Ident,
)
    requires
        0 <= i < items@.len(),
        0 <= p < events_item(items@[i]).len(),
        events_item(items@[i])[p] == Event::Use(ident),
        0 <= k < m.specifiers.len(),
        concerns(
            m.specifiers[k],
            m.is_export,
            Id { sym: ident.sym, ctxt: ident.span.ctxt },
        ),
        !is_hidden(items@, i, p, Id { sym: ident.sym, ctxt: ident.span.ctxt }),
    ensures
        marked_items(m, Seq::empty(), items)@.len() == items@.len(),
        events_item(marked_items(m, Seq::empty(), items)@[i]).len() == events_item(
            items@[i],
        ).len(),
        events_item(marked_items(m, Seq::empty(), items)@[i])[p] == Event::Use(
            Ident {
                span: Span {
                    lo: ident.span.lo,
                    hi: ident.span.hi,
                    ctxt: SyntaxContext::Marked(m.mark),
                },
                sym: ident.sym,
                type_ann: ident.type_ann,
                optional: ident.optional,
            },
        ),
        erased_item(marked_items(m, Seq::empty(), items)@[i]) == erased_item(items@[i]),
{
    assert(m.is_about(m.specifiers[k], ident.spec_id()));
    lemma_unhidden(m, Seq::empty(), items, i, p, ident);
}

/// A marker marks what its specifiers are about, with its mark, and looks at them
/// as the importer or as the exporter does.
pub proof fn law_what_a_marker_marks(marker: LocalMarker)
    ensures
        marker.marking().mark == marker.mark@,
        marker.marking().specifiers == marker.specifiers@,
        marker.marking().is_export == marker.is_export,
{
}

/// A visit leaves a marker with the names that it met excluded behind those that
/// were, and changes nothing else of it. Cutting a marker back takes the last of
/// the excluded names from it, and nothing else.
pub proof fn law_what_a_visit_leaves(before: LocalMarker, after: LocalMarker, ids: Seq<Id>, n: nat)
    ensures
        after.has_excluded(before, ids) == (after.excluded@ == before.excluded@ + ids
            && after.globals == before.globals && after.mark == before.mark && after.specifiers
            == before.specifiers && after.is_export == before.is_export),
        n <= before.excluded@.len() ==> after.is_cut_from(before, n) == (after.excluded@
            == before.excluded@.subrange(0, n as int) && after.globals == before.globals
            && after.mark == before.mark && after.specifiers == before.specifiers
            && after.is_export == before.is_export),
{
}

} // verus!
