//! What holds of patterns: which names they bind, and what renaming does to them.
use crate::actual_marker::{
    actual_declarators, actual_ident, actual_pat, actual_pats, lemma_taker_is_first, local_name,
    taker, takes,
};
use crate::hygiene::{Span, SyntaxContext};
use crate::pattern::{ident_ids, pat_ids, pats_ids};
use crate::run::{lemma_flat_map_add, Run};
use crate::specifier::Specifier;
use crate::syntax::{Expr, Id, Ident, Pat, VarDeclarator, Word};
use vstd::prelude::*;

verus! {

/// What a pattern is made of, at its ends.
pub enum Leaf {
    /// An identifier that the pattern binds.
    Name(Ident),
    /// An identifier in the name of a property or in a type.
    Aside(Ident),
    /// An expression, with all that is in it.
    Value(Expr),
}

/// The leaves of a pattern, in order.
pub open spec fn leaves(pat: Pat, aside: bool) -> Seq<Leaf>
    decreases pat,
{
    match pat {
        Pat::Ident(ident) => seq![
            if aside {
                Leaf::Aside(ident)
            } else {
                Leaf::Name(ident)
            },
        ],
        Pat::Expr(expr) => seq![Leaf::Value(expr)],
        Pat::PropName(parts) => all_leaves(parts, true),
        Pat::Type(parts) => all_leaves(parts, true),
        Pat::Other { origin, parts } => all_leaves(parts, aside),
    }
}

/// The leaves of patterns, in order.
pub open spec fn all_leaves(pats: Run<Pat>, aside: bool) -> Seq<Leaf>
    decreases pats,
{
    match pats {
        Run::Empty => Seq::empty(),
        Run::One(x) => leaves(*x, aside),
        Run::Join(a, b) => all_leaves(*a, aside) + all_leaves(*b, aside),
    }
}

/// The name that a leaf binds, if it binds one.
pub open spec fn leaf_id(leaf: Leaf) -> Seq<Id> {
    match leaf {
        Leaf::Name(ident) => seq![Id { sym: ident.sym, ctxt: ident.span.ctxt }],
        Leaf::Aside(_) => Seq::empty(),
        Leaf::Value(_) => Seq::empty(),
    }
}

/// A pattern without its identifiers: only its shape and its expressions.
pub open spec fn shape(pat: Pat) -> Pat
    decreases pat,
{
    match pat {
        Pat::Ident(_) => Pat::Type(Run::Empty),
        Pat::Expr(expr) => Pat::Expr(expr),
        Pat::PropName(parts) => Pat::PropName(shapes(parts)),
        Pat::Type(parts) => Pat::Type(Run::One(Box::new(Pat::Type(shapes(parts))))),
        Pat::Other { origin, parts } => Pat::Other { origin, parts: shapes(parts) },
    }
}

/// Patterns without their identifiers.
pub open spec fn shapes(pats: Run<Pat>) -> Run<Pat>
    decreases pats,
{
    match pats {
        Run::Empty => Run::Empty,
        Run::One(x) => Run::One(Box::new(shape(*x))),
        Run::Join(a, b) => Run::Join(Box::new(shapes(*a)), Box::new(shapes(*b))),
    }
}

/// Whether a specifier asks by name for what is exported as `sym`.
pub open spec fn asks_for(specifier: Specifier, sym: Word) -> bool {
    match specifier {
        Specifier::Specific { local, alias: Some(alias) } => alias.sym == sym,
        Specifier::Specific { local, alias: None } => local.sym == sym,
        Specifier::Namespace { local } => false,
    }
}

/// Whether the specifier at `k` is the first that asks for what is exported as
/// `sym`.
pub open spec fn asks_first(imports: Seq<Specifier>, sym: Word, k: int) -> bool {
    &&& 0 <= k < imports.len()
    &&& asks_for(imports[k], sym)
    &&& forall|j: int| 0 <= j < k ==> !asks_for(#[trigger] imports[j], sym)
}

/// The specifier that takes an export is the first that asks for it, and none
/// takes it if none asks.
pub proof fn law_first_to_ask_takes(imports: Seq<Specifier>, sym: Word)
    ensures
        forall|k: int| #[trigger]
            asks_first(imports, sym, k) ==> taker(imports, sym) == Some(imports[k]) && local_name(
                imports,
                sym,
            ) == Some(imports[k]->Specific_local),
        (forall|j: int| 0 <= j < imports.len() ==> !asks_for(#[trigger] imports[j], sym)) ==> taker(
            imports,
            sym,
        ) is None && local_name(imports, sym) is None,
        local_name(imports, sym) is Some ==> exists|k: int| asks_first(imports, sym, k),
        local_name(imports, sym) is None ==> forall|j: int|
            0 <= j < imports.len() ==> !asks_for(#[trigger] imports[j], sym),
{
    lemma_taker_is_first(imports, sym);
    assert forall|j: int| 0 <= j < imports.len() implies asks_for(#[trigger] imports[j], sym)
        == takes(imports[j], sym) by {}
    if let Some(s) = taker(imports, sym) {
        let i = choose|i: int|
            #![trigger imports[i]]
            0 <= i < imports.len() && imports[i] == s && takes(s, sym) && (forall|j: int|
                0 <= j < i ==> !takes(#[trigger] imports[j], sym));
        assert forall|j: int| 0 <= j < i implies !asks_for(#[trigger] imports[j], sym) by {
            assert(!takes(imports[j], sym));
        }
        assert(asks_first(imports, sym, i));
        assert forall|k: int| #[trigger] asks_first(imports, sym, k) implies k == i by {
            if k < i {
                assert(!takes(imports[k], sym));
            }
            if i < k {
                assert(!asks_for(imports[i], sym));
            }
        }
    } else {
        assert forall|k: int| #[trigger] asks_first(imports, sym, k) implies false by {
            assert(!takes(imports[k], sym));
        }
    }
}

/// An exported identifier gets the word that the first specifier that asks for it
/// binds, with the mark on it. Where the importer gives it another name it keeps
/// its place in the source. One that no specifier asks for stays as it is.
pub proof fn law_actual_ident(mark: u32, imports: Seq<Specifier>, ident: Ident)
    ensures
        forall|k: int| #[trigger]
            asks_first(imports, ident.sym, k) ==> actual_ident(mark, imports, ident) == (Ident {
                span: Span {
                    lo: if imports[k]->alias is Some {
                        ident.span.lo
                    } else {
                        0
                    },
                    hi: if imports[k]->alias is Some {
                        ident.span.hi
                    } else {
                        0
                    },
                    ctxt: SyntaxContext::Marked(mark),
                },
                sym: imports[k]->Specific_local.sym,
                type_ann: None,
                optional: false,
            }),
        (forall|j: int| 0 <= j < imports.len() ==> !asks_for(#[trigger] imports[j], ident.sym))
            ==> actual_ident(mark, imports, ident) == ident,
{
    law_first_to_ask_takes(imports, ident.sym);
}

proof fn lemma_aside_binds_nothing(pat: Pat)
    ensures
        leaves(pat, true).flat_map(|l: Leaf| leaf_id(l)) == Seq::<Id>::empty(),
    decreases pat,
{
    let f = |l: Leaf| leaf_id(l);
    match pat {
        Pat::Ident(ident) => leaves(pat, true).lemma_flat_map_singleton(f),
        Pat::Expr(expr) => leaves(pat, true).lemma_flat_map_singleton(f),
        Pat::PropName(parts) => lemma_all_aside_bind_nothing(parts),
        Pat::Type(parts) => lemma_all_aside_bind_nothing(parts),
        Pat::Other { origin, parts } => lemma_all_aside_bind_nothing(parts),
    }
}

proof fn lemma_all_aside_bind_nothing(pats: Run<Pat>)
    ensures
        all_leaves(pats, true).flat_map(|l: Leaf| leaf_id(l)) == Seq::<Id>::empty(),
    decreases pats,
{
    let f = |l: Leaf| leaf_id(l);
    match pats {
        Run::Empty => {
            assert(all_leaves(pats, true).map_values(f).len() == 0);
        },
        Run::One(x) => lemma_aside_binds_nothing(*x),
        Run::Join(a, b) => {
            lemma_all_aside_bind_nothing(*a);
            lemma_all_aside_bind_nothing(*b);
            lemma_flat_map_add(all_leaves(*a, true), all_leaves(*b, true), f);
        },
    }
}

/// A pattern binds the identifiers at its ends, in order, each by its word and
/// context, but for those in expressions, in names of properties and in types.
pub proof fn law_pattern_binds(pat: Pat)
    ensures
        pat_ids(pat) == leaves(pat, false).flat_map(|l: Leaf| leaf_id(l)),
    decreases pat,
{
    let f = |l: Leaf| leaf_id(l);
    match pat {
        Pat::Ident(ident) => leaves(pat, false).lemma_flat_map_singleton(f),
        Pat::Expr(expr) => leaves(pat, false).lemma_flat_map_singleton(f),
        Pat::PropName(parts) => lemma_all_aside_bind_nothing(parts),
        Pat::Type(parts) => lemma_all_aside_bind_nothing(parts),
        Pat::Other { origin, parts } => law_patterns_bind(parts),
    }
}

/// Patterns bind what each of them binds, in order.
pub proof fn law_patterns_bind(pats: Run<Pat>)
    ensures
        pats_ids(pats) == all_leaves(pats, false).flat_map(|l: Leaf| leaf_id(l)),
    decreases pats,
{
    let f = |l: Leaf| leaf_id(l);
    match pats {
        Run::Empty => {
            assert(all_leaves(pats, false).map_values(f).len() == 0);
        },
        Run::One(x) => law_pattern_binds(*x),
        Run::Join(a, b) => {
            law_patterns_bind(*a);
            law_patterns_bind(*b);
            lemma_flat_map_add(all_leaves(*a, false), all_leaves(*b, false), f);
        },
    }
}

/// The name of a class or function expression binds that name, if there is one.
pub proof fn law_optional_name_binds(ident: Option<Ident>)
    ensures
        ident is None ==> ident_ids(ident) == Seq::<Id>::empty(),
        ident matches Some(i) ==> ident_ids(ident) == seq![Id { sym: i.sym, ctxt: i.span.ctxt }],
{
}

/// What renaming makes of a leaf: identifiers are renamed, and expressions stay.
pub open spec fn actual_leaf(mark: u32, imports: Seq<Specifier>, leaf: Leaf) -> Leaf {
    match leaf {
        Leaf::Name(ident) => Leaf::Name(actual_ident(mark, imports, ident)),
        Leaf::Aside(ident) => Leaf::Aside(actual_ident(mark, imports, ident)),
        Leaf::Value(expr) => Leaf::Value(expr),
    }
}

/// Renaming a pattern renames each identifier of it, keeps every expression as it
/// is, and keeps the shape of the pattern.
pub proof fn law_actual_pattern(mark: u32, imports: Seq<Specifier>, pat: Pat, aside: bool)
    ensures
        leaves(actual_pat(mark, imports, pat), aside) == leaves(pat, aside).map_values(
            |l: Leaf| actual_leaf(mark, imports, l),
        ),
        shape(actual_pat(mark, imports, pat)) == shape(pat),
    decreases pat,
{
    match pat {
        Pat::Ident(_) => {},
        Pat::Expr(_) => {},
        Pat::PropName(parts) => law_actual_patterns(mark, imports, parts, true),
        Pat::Type(parts) => law_actual_patterns(mark, imports, parts, true),
        Pat::Other { origin, parts } => law_actual_patterns(mark, imports, parts, aside),
    }
}

/// Renaming patterns renames each of them.
pub proof fn law_actual_patterns(
    mark: u32,
    imports: Seq<Specifier>,
    pats: Run<Pat>,
    aside: bool,
)
    ensures
        all_leaves(actual_pats(mark, imports, pats), aside) == all_leaves(pats, aside).map_values(
            |l: Leaf| actual_leaf(mark, imports, l),
        ),
        shapes(actual_pats(mark, imports, pats)) == shapes(pats),
    decreases pats,
{
    match pats {
        Run::Empty => {},
        Run::One(x) => law_actual_pattern(mark, imports, *x, aside),
        Run::Join(a, b) => {
            law_actual_patterns(mark, imports, *a, aside);
            law_actual_patterns(mark, imports, *b, aside);
        },
    }
}

/// Renaming a declaration of variables keeps its declarators, as many and in the
/// same order. Each keeps its value, its place and all else; only the identifiers
/// of its pattern are renamed.
pub proof fn law_declarators_keep_their_values(
    mark: u32,
    imports: Seq<Specifier>,
    decls: Run<VarDeclarator>,
    k: int,
)
    requires
        0 <= k < decls@.len(),
    ensures
        actual_declarators(mark, imports, decls)@.len() == decls@.len(),
        actual_declarators(mark, imports, decls)@[k].init == decls@[k].init,
        actual_declarators(mark, imports, decls)@[k].span == decls@[k].span,
        actual_declarators(mark, imports, decls)@[k].definite == decls@[k].definite,
        actual_declarators(mark, imports, decls)@[k].name == actual_pat(
            mark,
            imports,
            decls@[k].name,
        ),
    decreases decls,
{
    lemma_declarators_len(mark, imports, decls);
    match decls {
        Run::Empty => {},
        Run::One(x) => {
            assert(decls@[0] == *x);
        },
        Run::Join(a, b) => {
            lemma_declarators_len(mark, imports, *a);
            if k < a@.len() {
                law_declarators_keep_their_values(mark, imports, *a, k);
            } else {
                law_declarators_keep_their_values(mark, imports, *b, k - a@.len());
            }
        },
    }
}

proof fn lemma_declarators_len(mark: u32, imports: Seq<Specifier>, decls: Run<VarDeclarator>)
    ensures
        actual_declarators(mark, imports, decls)@.len() == decls@.len(),
    decreases decls,
{
    match decls {
        Run::Empty => {},
        Run::One(_) => {},
        Run::Join(a, b) => {
            lemma_declarators_len(mark, imports, *a);
            lemma_declarators_len(mark, imports, *b);
        },
    }
}

} // verus!
