//! Renaming of exported declarations to the names that the importer uses.
use crate::hygiene::{Mark, Span, SyntaxContext};
use crate::run::Run;
use crate::specifier::Specifier;
use crate::syntax::{Id, Ident, Pat, VarDecl, VarDeclarator, Word};
use vstd::prelude::*;

verus! {

/// Whether `specifier` takes by name what the other module exports as `sym`.
pub open spec fn takes(specifier: Specifier, sym: Word) -> bool {
    specifier is Specific && specifier.spec_foreign().sym == sym
}

/// The first specifier that takes by name what is exported as `sym`.
pub open spec fn taker(imports: Seq<Specifier>, sym: Word) -> Option<Specifier>
    decreases imports.len(),
{
    if imports.len() == 0 {
        None
    } else if takes(imports[0], sym) {
        Some(imports[0])
    } else {
        taker(imports.drop_first(), sym)
    }
}

/// The name that the importer uses for what is exported as `sym`.
pub open spec fn local_name(imports: Seq<Specifier>, sym: Word) -> Option<Id> {
    match taker(imports, sym) {
        Some(specifier) => Some(specifier.spec_local()),
        None => None,
    }
}

/// An exported identifier under the name that the importer uses, with `mark`
/// on it, if the importer takes it. Its place in the source is kept if the
/// importer has another name for it.
pub open spec fn actual_ident(mark: u32, imports: Seq<Specifier>, ident: Ident) -> Ident {
    let ctxt = SyntaxContext::Marked(mark);
    match taker(imports, ident.sym) {
        Some(Specifier::Specific { local, alias: Some(_) }) => Ident::spec_new(
            local.sym,
            ident.span.spec_with_ctxt(ctxt),
        ),
        Some(Specifier::Specific { local, alias: None }) => Ident::spec_new(
            local.sym,
            Span::spec_dummy().spec_with_ctxt(ctxt),
        ),
        _ => ident,
    }
}

/// A pattern with its identifiers renamed, but for those in expressions.
pub open spec fn actual_pat(mark: u32, imports: Seq<Specifier>, pat: Pat) -> Pat
    decreases pat,
{
    match pat {
        Pat::Ident(ident) => Pat::Ident(actual_ident(mark, imports, ident)),
        Pat::Expr(expr) => Pat::Expr(expr),
        Pat::PropName(parts) => Pat::PropName(actual_pats(mark, imports, parts)),
        Pat::Type(parts) => Pat::Type(actual_pats(mark, imports, parts)),
        Pat::Other { origin, parts } => Pat::Other {
            origin,
            parts: actual_pats(mark, imports, parts),
        },
    }
}

/// Patterns with their identifiers renamed.
pub open spec fn actual_pats(mark: u32, imports: Seq<Specifier>, pats: Run<Pat>) -> Run<Pat>
    decreases pats,
{
    match pats {
        Run::Empty => Run::Empty,
        Run::One(x) => Run::One(Box::new(actual_pat(mark, imports, *x))),
        Run::Join(a, b) => Run::Join(
            Box::new(actual_pats(mark, imports, *a)),
            Box::new(actual_pats(mark, imports, *b)),
        ),
    }
}

/// Declarators with their patterns renamed; the values stay as they are.
pub open spec fn actual_declarators(
    mark: u32,
    imports: Seq<Specifier>,
    decls: Run<VarDeclarator>,
) -> Run<VarDeclarator>
    decreases decls,
{
    match decls {
        Run::Empty => Run::Empty,
        Run::One(x) => Run::One(
            Box::new(VarDeclarator { name: actual_pat(mark, imports, x.name), ..*x }),
        ),
        Run::Join(a, b) => Run::Join(
            Box::new(actual_declarators(mark, imports, *a)),
            Box::new(actual_declarators(mark, imports, *b)),
        ),
    }
}

/// Finds the first specifier that takes by name what is exported as `sym`.
pub(crate) fn find_taker(imports: &[Specifier], sym: Word) -> (r: Option<Specifier>)
    ensures
        r == taker(imports@, sym),
{
    let mut i: usize = 0;
    assert(imports@.skip(0) == imports@);
    while i < imports.len()
        invariant
            i <= imports@.len(),
            taker(imports@, sym) == taker(imports@.skip(i as int), sym),
        decreases imports@.len() - i,
    {
        let specifier = imports[i];
        assert(imports@.skip(i as int).drop_first() == imports@.skip(i + 1));
        let taken = match specifier {
            Specifier::Specific { .. } => specifier.foreign().sym == sym,
            Specifier::Namespace { .. } => false,
        };
        if taken {
            return Some(specifier);
        }
        i += 1;
    }
    None
}

/// Gives exported identifiers the names that the importer uses.
pub struct ActualMarker<'a> {
    pub globals: &'a swc_common::Globals,
    pub mark: Mark,
    /// Dependant module's import
    pub imports: &'a [Specifier],
}

impl<'a> ActualMarker<'a> {
    /// Renames an identifier, if the importer takes it by name.
    pub fn fold_ident(&self, ident: Ident) -> (r: Ident)
        ensures
            r == actual_ident(self.mark@, self.imports@, ident),
    {
        match find_taker(self.imports, ident.sym) {
            Some(Specifier::Specific { local, alias }) => {
                let renamed = match alias {
                    Some(_) => Ident::new(local.sym, ident.span),
                    None => local.into_ident(),
                };
                renamed.with_ctxt(SyntaxContext::with_mark(self.globals, self.mark))
            },
            _ => ident,
        }
    }

    /// Renames the identifiers of a pattern, but for those in expressions.
    pub fn fold_pat(&self, pat: Pat) -> (r: Pat)
        ensures
            r == actual_pat(self.mark@, self.imports@, pat),
        decreases pat,
    {
        match pat {
            Pat::Ident(ident) => Pat::Ident(self.fold_ident(ident)),
            Pat::Expr(expr) => Pat::Expr(expr),
            Pat::PropName(parts) => Pat::PropName(self.fold_pats(parts)),
            Pat::Type(parts) => Pat::Type(self.fold_pats(parts)),
            Pat::Other { origin, parts } => Pat::Other { origin, parts: self.fold_pats(parts) },
        }
    }

    /// Renames the identifiers of patterns.
    pub fn fold_pats(&self, pats: Run<Pat>) -> (r: Run<Pat>)
        ensures
            r == actual_pats(self.mark@, self.imports@, pats),
        decreases pats,
    {
        match pats {
            Run::Empty => Run::Empty,
            Run::One(x) => Run::One(Box::new(self.fold_pat(*x))),
            Run::Join(a, b) => {
                Run::Join(Box::new(self.fold_pats(*a)), Box::new(self.fold_pats(*b)))
            },
        }
    }

    fn fold_declarators(&self, decls: Run<VarDeclarator>) -> (r: Run<VarDeclarator>)
        ensures
            r == actual_declarators(self.mark@, self.imports@, decls),
        decreases decls,
    {
        match decls {
            Run::Empty => Run::Empty,
            Run::One(x) => {
                let x = *x;
                Run::One(
                    Box::new(
                        VarDeclarator {
                            span: x.span,
                            name: self.fold_pat(x.name),
                            init: x.init,
                            definite: x.definite,
                        },
                    ),
                )
            },
            Run::Join(a, b) => {
                Run::Join(Box::new(self.fold_declarators(*a)), Box::new(self.fold_declarators(*b)))
            },
        }
    }

    /// Renames the variables that a declaration declares.
    pub fn fold_var_decl(&self, node: VarDecl) -> (r: VarDecl)
        ensures
            r == (VarDecl {
                decls: actual_declarators(self.mark@, self.imports@, node.decls),
                ..node
            }),
    {
        VarDecl {
            span: node.span,
            kind: node.kind,
            declare: node.declare,
            decls: self.fold_declarators(node.decls),
        }
    }
}

/// The taker is the first specifier of the list that takes the name, and there
/// is none only if no specifier takes it.
pub proof fn lemma_taker_is_first(imports: Seq<Specifier>, sym: Word)
    ensures
        taker(imports, sym) is None ==> forall|j: int|
            0 <= j < imports.len() ==> !takes(#[trigger] imports[j], sym),
        taker(imports, sym) matches Some(s) ==> exists|i: int|
            #![trigger imports[i]]
            0 <= i < imports.len() && imports[i] == s && takes(s, sym) && (forall|j: int|
                0 <= j < i ==> !takes(#[trigger] imports[j], sym)),
    decreases imports.len(),
{
    if imports.len() > 0 && !takes(imports[0], sym) {
        let rest = imports.drop_first();
        lemma_taker_is_first(rest, sym);
        match taker(imports, sym) {
            None => {
                assert forall|j: int| 0 <= j < imports.len() implies !takes(
                    #[trigger] imports[j],
                    sym,
                ) by {
                    if j > 0 {
                        assert(rest[j - 1] == imports[j]);
                    }
                }
            },
            Some(s) => {
                let i = choose|i: int|
                    #![trigger rest[i]]
                    0 <= i < rest.len() && rest[i] == s && takes(s, sym) && (forall|j: int|
                        0 <= j < i ==> !takes(#[trigger] rest[j], sym));
                assert(imports[i + 1] == s);
                assert forall|j: int| 0 <= j < i + 1 implies !takes(
                    #[trigger] imports[j],
                    sym,
                ) by {
                    if j > 0 {
                        assert(rest[j - 1] == imports[j]);
                    }
                }
            },
        }
    }
}

/// An exported identifier that the importer takes becomes the importer's name
/// with the mark on it; any other identifier stays as it is.
pub proof fn law_actual_ident_is_local_name(mark: u32, imports: Seq<Specifier>, ident: Ident)
    ensures
        match local_name(imports, ident.sym) {
            Some(local) => actual_ident(mark, imports, ident).spec_id()
                == local.spec_replace_mark(mark),
            None => actual_ident(mark, imports, ident) == ident,
        },
{
    lemma_taker_is_first(imports, ident.sym);
}

} // verus!
