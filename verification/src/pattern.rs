//! The names that patterns bind.
use crate::run::Run;
use crate::syntax::{Id, Ident, Pat};
use vstd::prelude::*;

verus! {

/// The names that a pattern binds, in the order of a visit: its identifiers
/// outside expressions, property names and types.
pub open spec fn pat_ids(pat: Pat) -> Seq<Id>
    decreases pat,
{
    match pat {
        Pat::Ident(ident) => seq![ident.spec_id()],
        Pat::Expr(_) => Seq::empty(),
        Pat::PropName(_) => Seq::empty(),
        Pat::Type(_) => Seq::empty(),
        Pat::Other { origin, parts } => pats_ids(parts),
    }
}

/// The names that several patterns bind, in the order of a visit.
pub open spec fn pats_ids(pats: Run<Pat>) -> Seq<Id>
    decreases pats,
{
    match pats {
        Run::Empty => Seq::empty(),
        Run::One(pat) => pat_ids(*pat),
        Run::Join(a, b) => pats_ids(*a) + pats_ids(*b),
    }
}

/// The name that an optional identifier binds.
pub open spec fn ident_ids(ident: Option<Ident>) -> Seq<Id> {
    match ident {
        Some(ident) => seq![ident.spec_id()],
        None => Seq::empty(),
    }
}

fn push_pat_ids(pat: &Pat, out: &mut Vec<Id>)
    ensures
        final(out)@ == old(out)@ + pat_ids(*pat),
    decreases pat,
{
    match pat {
        Pat::Ident(ident) => out.push(ident.id()),
        Pat::Expr(_) => {},
        Pat::PropName(_) => {},
        Pat::Type(_) => {},
        Pat::Other { origin: _, parts } => push_pats_ids(parts, out),
    }
}

fn push_pats_ids(pats: &Run<Pat>, out: &mut Vec<Id>)
    ensures
        final(out)@ == old(out)@ + pats_ids(*pats),
    decreases pats,
{
    match pats {
        Run::Empty => {},
        Run::One(pat) => push_pat_ids(pat, out),
        Run::Join(a, b) => {
            push_pats_ids(a, out);
            push_pats_ids(b, out);
        },
    }
}

/// Finds all names that the patterns bind.
pub fn find_ids(pats: &Run<Pat>) -> (r: Vec<Id>)
    ensures
        r@ == pats_ids(*pats),
{
    let mut out: Vec<Id> = Vec::new();
    push_pats_ids(pats, &mut out);
    out
}

} // verus!
