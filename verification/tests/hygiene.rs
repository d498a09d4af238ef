use chunk_merge::hygiene::{Mark, Span, SyntaxContext};
use swc_common::{Globals, GLOBALS};

#[test]
fn root_mark_cannot_be_applied() {
    assert!(Mark::from_u32(0).is_none());
}

#[test]
fn mark_keeps_its_number() {
    assert_eq!(Mark::from_u32(3).unwrap().as_u32(), 3);
    assert_eq!(Mark::from_u32(u32::MAX).unwrap().as_u32(), u32::MAX);
}

#[test]
fn empty_context_takes_the_mark() {
    let globals = Globals::new();
    let mark = Mark::from_u32(7).unwrap();
    assert_eq!(
        SyntaxContext::with_mark(&globals, mark),
        SyntaxContext::Marked(7)
    );
}

#[test]
fn marking_twice_gives_one_context() {
    let globals = Globals::new();
    let one = GLOBALS.set(&globals, || {
        swc_common::Mark::fresh(swc_common::Mark::root()).as_u32()
    });
    let two = GLOBALS.set(&globals, || {
        swc_common::Mark::fresh(swc_common::Mark::root()).as_u32()
    });
    assert_eq!((one, two), (1, 2));
    let first = SyntaxContext::with_mark(&globals, Mark::from_u32(one).unwrap());
    let again = SyntaxContext::with_mark(&globals, Mark::from_u32(one).unwrap());
    let other = SyntaxContext::with_mark(&globals, Mark::from_u32(two).unwrap());
    assert_eq!(first, again);
    assert_ne!(first, other);
    assert_eq!(other, SyntaxContext::Marked(2));
}

#[test]
fn dummy_span_is_nowhere() {
    let dummy = Span::dummy();
    assert_eq!((dummy.lo, dummy.hi), (0, 0));
    assert_eq!(dummy.ctxt, SyntaxContext::Empty);
    assert_eq!(swc_common::DUMMY_SP.lo.0, dummy.lo);
    assert_eq!(swc_common::DUMMY_SP.hi.0, dummy.hi);
}

#[test]
fn changing_the_context_keeps_the_place() {
    let span = Span {
        lo: 4,
        hi: 9,
        ctxt: SyntaxContext::Nested(2),
    };
    let marked = span.with_ctxt(SyntaxContext::Marked(5));
    assert_eq!(
        marked,
        Span {
            lo: 4,
            hi: 9,
            ctxt: SyntaxContext::Marked(5)
        }
    );
}
