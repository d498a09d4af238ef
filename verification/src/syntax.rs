//! The syntax of a module, as far as merging looks into it.
//!
//! What merging moves, renames or drops has a type of its own. Everything else
//! is a [`Syntax`]: a handle to the piece of syntax, and its parts that can
//! hold an identifier or a namespace, in the order of a visit.
use crate::hygiene::{Span, SyntaxContext};
use crate::run::Run;
use vstd::prelude::*;

verus! {

/// An interned word. Two words are the same text exactly when they have the
/// same number.
#[derive(Clone, Copy, Debug, PartialEq, Eq, Structural)]
pub struct Word(pub u32);

impl Word {
    /// The word `default`, which has a fixed number.
    pub open spec fn spec_default_word() -> Word {
        Word(0)
    }

    /// The word `default`, which has a fixed number.
    pub fn default_word() -> (r: Word)
        ensures
            r == Word::spec_default_word(),
    {
        Word(0)
    }
}

/// A string literal.
#[derive(Clone, Copy, Debug, PartialEq, Eq, Structural)]
pub struct Str {
    pub span: Span,
    pub value: Word,
    pub has_escape: bool,
}

/// A name together with the context that tells it apart from other uses of
/// the name.
#[derive(Clone, Copy, Debug, PartialEq, Eq, Structural)]
pub struct Id {
    pub sym: Word,
    pub ctxt: SyntaxContext,
}

/// An identifier.
#[derive(Debug, PartialEq, Eq)]
pub struct Ident {
    pub span: Span,
    pub sym: Word,
    /// The type annotation.
    pub type_ann: Option<Box<Syntax>>,
    pub optional: bool,
}

/// Syntax that merging does not take apart.
#[derive(Debug, PartialEq, Eq)]
pub struct Syntax {
    /// Handle to the syntax, for whoever built this value.
    pub origin: u64,
    pub parts: Run<Node>,
}

/// A part of a [`Syntax`].
#[derive(Debug, PartialEq, Eq)]
pub enum Node {
    Ident(Ident),
    /// Any other syntax, by its own parts.
    Parts(Run<Node>),
    CatchClause(CatchClause),
    ClassDecl(ClassDecl),
    ClassExpr(ClassExpr),
    Constructor(Constructor),
    FnDecl(FnDecl),
    FnExpr(FnExpr),
    Function(Function),
    LabeledStmt(LabeledStmt),
    MemberExpr(MemberExpr),
    SetterProp(SetterProp),
    TsModule(TsModule),
}

/// An expression.
#[derive(Debug, PartialEq, Eq)]
pub enum Expr {
    Ident(Ident),
    Other(Syntax),
}

/// A binding pattern.
#[derive(Debug, PartialEq, Eq)]
pub enum Pat {
    Ident(Ident),
    /// An expression in the pattern, such as a default value.
    Expr(Expr),
    /// The name of a property.
    PropName(Run<Pat>),
    /// A type, or another piece of syntax that only types use.
    Type(Run<Pat>),
    /// An array, object, rest or assignment pattern, by its parts.
    Other {
        origin: u64,
        parts: Run<Pat>,
    },
}

/// `catch (param) { body }`
#[derive(Debug, PartialEq, Eq)]
pub struct CatchClause {
    pub param: Run<Pat>,
    pub body: Run<Node>,
}

/// `class ident { .. }` as a declaration.
#[derive(Debug, PartialEq, Eq)]
pub struct ClassDecl {
    pub ident: Ident,
    pub declare: bool,
    pub class: Syntax,
}

/// `class ident { .. }` as an expression.
#[derive(Debug, PartialEq, Eq)]
pub struct ClassExpr {
    pub ident: Option<Ident>,
    pub class: Syntax,
}

/// `constructor(params) { body }`
#[derive(Debug, PartialEq, Eq)]
pub struct Constructor {
    pub params: Run<Pat>,
    pub body: Run<Node>,
}

/// The parameters and the body of a function.
#[derive(Debug, PartialEq, Eq)]
pub struct Function {
    /// Handle to the function.
    pub origin: u64,
    pub params: Run<Pat>,
    pub body: Run<Node>,
}

/// `function ident(..) { .. }` as a declaration.
#[derive(Debug, PartialEq, Eq)]
pub struct FnDecl {
    pub ident: Ident,
    pub declare: bool,
    pub function: Function,
}

/// `function ident(..) { .. }` as an expression.
#[derive(Debug, PartialEq, Eq)]
pub struct FnExpr {
    pub ident: Option<Ident>,
    pub function: Function,
}

/// `label: body`
#[derive(Debug, PartialEq, Eq)]
pub struct LabeledStmt {
    pub label: Ident,
    pub body: Run<Node>,
}

/// `obj.prop`, or `obj[prop]` where `computed`.
#[derive(Debug, PartialEq, Eq)]
pub struct MemberExpr {
    pub obj: Run<Node>,
    pub prop: Run<Node>,
    pub computed: bool,
}

/// `set key(param) { body }`
#[derive(Debug, PartialEq, Eq)]
pub struct SetterProp {
    pub key: Run<Node>,
    pub param: Run<Pat>,
    pub body: Run<Node>,
}

/// `var`, `let` or `const`.
#[derive(Clone, Copy, Debug, PartialEq, Eq, Structural)]
pub enum VarDeclKind {
    Var,
    Let,
    Const,
}

/// One declarator of a [`VarDecl`].
#[derive(Debug, PartialEq, Eq)]
pub struct VarDeclarator {
    pub span: Span,
    pub name: Pat,
    pub init: Option<Expr>,
    pub definite: bool,
}

/// `var a = 1, b`
#[derive(Debug, PartialEq, Eq)]
pub struct VarDecl {
    pub span: Span,
    pub kind: VarDeclKind,
    pub declare: bool,
    pub decls: Run<VarDeclarator>,
}

/// A namespace, with the module items in it.
#[derive(Debug, PartialEq, Eq)]
pub struct TsModule {
    /// Handle to the namespace.
    pub origin: u64,
    /// Its name.
    pub id: Run<Node>,
    pub body: Run<ModuleItem>,
}

/// A declaration.
#[derive(Debug, PartialEq, Eq)]
pub enum Decl {
    Class(ClassDecl),
    Fn(FnDecl),
    Var(VarDecl),
    TsInterface(Syntax),
    TsTypeAlias(Syntax),
    TsEnum(Syntax),
    TsModule(TsModule),
}

/// A statement.
#[derive(Debug, PartialEq, Eq)]
pub enum Stmt {
    Empty {
        span: Span,
    },
    Decl(Decl),
    Expr {
        span: Span,
        expr: Expr,
    },
    Other(Syntax),
}

/// `import .. from src`
#[derive(Debug, PartialEq, Eq)]
pub struct ImportDecl {
    /// Handle to the statement.
    pub origin: u64,
    pub span: Span,
    /// The identifiers of the import specifiers.
    pub specifiers: Run<Node>,
    pub src: Str,
    pub type_only: bool,
}

/// A specifier of `export { .. }`.
#[derive(Debug, PartialEq, Eq)]
pub enum ExportSpecifier {
    /// `export * as name from 'src'`
    Namespace {
        span: Span,
        name: Ident,
    },
    /// `export exported from 'src'`
    Default {
        exported: Ident,
    },
    /// `export { orig as exported }`
    Named {
        span: Span,
        orig: Ident,
        exported: Option<Ident>,
    },
}

/// `export { .. }`, or `export { .. } from src`
#[derive(Debug, PartialEq, Eq)]
pub struct NamedExport {
    pub span: Span,
    pub specifiers: Run<ExportSpecifier>,
    pub src: Option<Str>,
    pub type_only: bool,
}

/// What `export default` declares.
#[derive(Debug, PartialEq, Eq)]
pub enum DefaultDecl {
    Class(ClassExpr),
    Fn(FnExpr),
    TsInterfaceDecl(Syntax),
}

/// An import or an export.
#[derive(Debug, PartialEq, Eq)]
pub enum ModuleDecl {
    Import(ImportDecl),
    ExportDecl {
        span: Span,
        decl: Decl,
    },
    ExportNamed(NamedExport),
    ExportDefaultDecl {
        span: Span,
        decl: DefaultDecl,
    },
    ExportDefaultExpr {
        span: Span,
        expr: Expr,
    },
    ExportAll {
        span: Span,
        src: Str,
    },
    TsImportEquals(Syntax),
    TsExportAssignment(Syntax),
    TsNamespaceExport(Syntax),
}

/// An item of a module.
#[derive(Debug, PartialEq, Eq)]
pub enum ModuleItem {
    ModuleDecl(ModuleDecl),
    Stmt(Stmt),
}

/// A module.
#[derive(Debug, PartialEq, Eq)]
pub struct Module {
    pub span: Span,
    pub body: Run<ModuleItem>,
    pub shebang: Option<Word>,
}

impl Ident {
    /// A plain identifier.
    pub open spec fn spec_new(sym: Word, span: Span) -> Ident {
        Ident { span, sym, type_ann: None, optional: false }
    }

    /// A plain identifier.
    pub fn new(sym: Word, span: Span) -> (r: Ident)
        ensures
            r == Ident::spec_new(sym, span),
    {
        Ident { span, sym, type_ann: None, optional: false }
    }

    /// The name and the context of the identifier.
    pub open spec fn spec_id(self) -> Id {
        Id { sym: self.sym, ctxt: self.span.ctxt }
    }

    /// The name and the context of the identifier.
    pub fn id(&self) -> (r: Id)
        ensures
            r == self.spec_id(),
    {
        Id { sym: self.sym, ctxt: self.span.ctxt }
    }

    /// The same identifier under another context.
    pub open spec fn spec_with_ctxt(self, ctxt: SyntaxContext) -> Ident {
        Ident { span: self.span.spec_with_ctxt(ctxt), ..self }
    }

    /// The same identifier under another context.
    pub fn with_ctxt(self, ctxt: SyntaxContext) -> (r: Ident)
        ensures
            r == self.spec_with_ctxt(ctxt),
    {
        Ident { span: self.span.with_ctxt(ctxt), ..self }
    }
}

impl Id {
    /// The same name under the empty context with `mark` applied to it.
    pub open spec fn spec_replace_mark(self, mark: u32) -> Id {
        Id { sym: self.sym, ctxt: SyntaxContext::Marked(mark) }
    }

    /// The same name under the empty context with `mark` applied to it.
    pub fn replace_mark(self, globals: &swc_common::Globals, mark: crate::hygiene::Mark) -> (r: Id)
        ensures
            r == self.spec_replace_mark(mark@),
    {
        Id { sym: self.sym, ctxt: SyntaxContext::with_mark(globals, mark) }
    }

    /// An identifier of this name and context that stands nowhere in the
    /// source.
    pub open spec fn spec_into_ident(self) -> Ident {
        Ident::spec_new(self.sym, Span::spec_dummy().spec_with_ctxt(self.ctxt))
    }

    /// An identifier of this name and context that stands nowhere in the
    /// source.
    pub fn into_ident(self) -> (r: Ident)
        ensures
            r == self.spec_into_ident(),
    {
        Ident::new(self.sym, Span::dummy().with_ctxt(self.ctxt))
    }
}

/// Changing the context of an identifier changes nothing else of it. Its name is
/// its word and its context.
pub proof fn law_context_changes_alone(ident: Ident, ctxt: SyntaxContext)
    ensures
        ident.spec_with_ctxt(ctxt) == (Ident {
            span: Span { lo: ident.span.lo, hi: ident.span.hi, ctxt },
            sym: ident.sym,
            type_ann: ident.type_ann,
            optional: ident.optional,
        }),
        ident.spec_id().sym == ident.sym,
        ident.spec_id().ctxt == ident.span.ctxt,
{
}

/// A name with its mark replaced keeps its word. As an identifier it is plain, has
/// that name, and stands nowhere in the source.
pub proof fn law_name_as_identifier(id: Id, mark: u32)
    ensures
        id.spec_replace_mark(mark).sym == id.sym,
        id.spec_replace_mark(mark).ctxt == SyntaxContext::Marked(mark),
        id.spec_into_ident() == (Ident {
            span: Span { lo: 0, hi: 0, ctxt: id.ctxt },
            sym: id.sym,
            type_ann: None,
            optional: false,
        }),
{
}

/// A new identifier has its word and its span, and nothing else.
pub proof fn law_new_identifier_is_plain(sym: Word, span: Span)
    ensures
        Ident::spec_new(sym, span) == (Ident { span, sym, type_ann: None, optional: false }),
{
}

/// The span of an export specifier is its own, or that of the one identifier that
/// it consists of.
pub proof fn law_span_of_specifier(specifier: ExportSpecifier)
    ensures
        specifier matches ExportSpecifier::Namespace { span, name } ==> specifier.spec_span()
            == span,
        specifier matches ExportSpecifier::Default { exported } ==> specifier.spec_span()
            == exported.span,
        specifier matches ExportSpecifier::Named { span, orig, exported } ==> specifier.spec_span()
            == span,
{
}

impl ExportSpecifier {
    /// The span of the specifier.
    pub open spec fn spec_span(self) -> Span {
        match self {
            ExportSpecifier::Namespace { span, .. } => span,
            ExportSpecifier::Default { exported } => exported.span,
            ExportSpecifier::Named { span, .. } => span,
        }
    }

    /// The span of the specifier.
    pub fn span(&self) -> (r: Span)
        ensures
            r == self.spec_span(),
    {
        match self {
            ExportSpecifier::Namespace { span, .. } => *span,
            ExportSpecifier::Default { exported } => exported.span,
            ExportSpecifier::Named { span, .. } => *span,
        }
    }
}

} // verus!
