//! Marks and syntax contexts, which tell apart identifiers of one name.
use vstd::prelude::*;

verus! {

/// The hygiene tables of `swc_common`, in which marks and contexts live.
#[verifier::external_type_specification]
#[verifier::external_body]
pub struct ExGlobals(swc_common::Globals);

/// A mark other than the root mark.
#[derive(Clone, Copy, Debug, PartialEq, Eq, Structural)]
pub struct Mark {
    raw: u32,
}

impl View for Mark {
    type V = u32;

    closed spec fn view(&self) -> u32 {
        self.raw
    }
}

impl Mark {
    #[verifier::type_invariant]
    spec fn not_root(self) -> bool {
        self.raw != 0
    }

    /// The mark of number `raw`; number zero is the root mark, which cannot be
    /// applied.
    pub fn from_u32(raw: u32) -> (r: Option<Mark>)
        ensures
            raw == 0 ==> r is None,
            raw != 0 ==> (r matches Some(m) && m@ == raw),
    {
        if raw == 0 {
            None
        } else {
            Some(Mark { raw })
        }
    }

    /// The number of the mark.
    pub fn as_u32(self) -> (r: u32)
        ensures
            r == self@,
            r != 0,
    {
        proof {
            use_type_invariant(&self);
        }
        self.raw
    }
}

/// The chain of marks on an identifier.
#[derive(Clone, Copy, Debug, PartialEq, Eq, Structural)]
pub enum SyntaxContext {
    /// No mark.
    Empty,
    /// The single mark of this number.
    Marked(u32),
    /// A longer chain, by the number under which the builder of the syntax
    /// keeps it.
    Nested(u32),
}

/// Calls `swc_common::SyntaxContext::apply_mark` on the empty context and takes
/// the outermost mark of the result off again with `remove_mark`.
///
/// Claimed of it: applying a mark to the empty context gives the chain of that
/// one mark. So the mark taken off is the mark applied, and what is left is the
/// empty context. Applying the root mark panics, hence the `requires`. So does a
/// lock on the tables that another thread left poisoned; no contract can rule
/// that out.
#[verifier::external_body]
fn apply_mark_to_empty(globals: &swc_common::Globals, mark: u32) -> (r: (u32, bool))
    requires
        mark != 0,
    ensures
        r == (mark, true),
{
    swc_common::GLOBALS.set(globals, || {
        let empty = swc_common::SyntaxContext::empty();
        let mut ctxt = empty.apply_mark(swc_common::Mark::from_u32(mark));
        let outer = ctxt.remove_mark();
        (outer.as_u32(), ctxt == empty)
    })
}

impl SyntaxContext {
    /// The empty context with `mark` applied to it.
    pub fn with_mark(globals: &swc_common::Globals, mark: Mark) -> (r: SyntaxContext)
        ensures
            r == SyntaxContext::Marked(mark@),
    {
        let (outer, alone) = apply_mark_to_empty(globals, mark.as_u32());
        assert(alone);
        SyntaxContext::Marked(outer)
    }
}

/// A stretch of source text with its syntax context.
#[derive(Clone, Copy, Debug, PartialEq, Eq, Structural)]
pub struct Span {
    pub lo: u32,
    pub hi: u32,
    pub ctxt: SyntaxContext,
}

impl Span {
    /// The span of syntax that stands nowhere in the source.
    pub open spec fn spec_dummy() -> Span {
        Span { lo: 0, hi: 0, ctxt: SyntaxContext::Empty }
    }

    /// The same stretch under another context.
    pub open spec fn spec_with_ctxt(self, ctxt: SyntaxContext) -> Span {
        Span { lo: self.lo, hi: self.hi, ctxt }
    }

    /// The span of syntax that stands nowhere in the source.
    pub fn dummy() -> (r: Span)
        ensures
            r == Span::spec_dummy(),
    {
        Span { lo: 0, hi: 0, ctxt: SyntaxContext::Empty }
    }

    /// The same stretch under another context.
    pub fn with_ctxt(self, ctxt: SyntaxContext) -> (r: Span)
        ensures
            r == self.spec_with_ctxt(ctxt),
    {
        Span { lo: self.lo, hi: self.hi, ctxt }
    }
}

} // verus!
