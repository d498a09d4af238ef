//! What a merge gives as a whole, from the first step to the last.
use crate::merge::{Bundler, Frame, MergeError, Stack, StageError, Step};
use crate::merge_laws::{law_failure_ends_the_merge, lemma_visited_targets};
use crate::scope::{
    is_first_at, law_without_first, lemma_has_first, without_first, ModuleInfo,
};
use crate::specifier::ModuleId;
use crate::syntax::Module;
use vstd::prelude::*;

verus! {

/// What a stage answers to the step that asked for it. The stages for circular
/// modules and for re-exports also say which targets are left.
pub enum Reply {
    Circular {
        module: Module,
        targets: Seq<ModuleId>,
    },
    Reexports {
        result: Result<Module, StageError>,
        targets: Seq<ModuleId>,
    },
    Helpers,
    Unused {
        dep: Module,
    },
    Cjs {
        result: Result<Module, StageError>,
    },
    Remaining {
        result: Result<Module, StageError>,
    },
}

/// The next step and the targets that are left, once a step is answered. A step
/// stays as it is while nothing answers it.
pub open spec fn next(
    b: Bundler,
    state: (Step, Seq<ModuleId>),
    reply: Reply,
) -> (Step, Seq<ModuleId>) {
    let targets = state.1;
    match (state.0, reply) {
        (Step::MergeCircular { entry, stack }, Reply::Circular { module, targets: left }) => (
            b.returned(Ok(module), stack),
            left,
        ),
        (
            Step::MergeReexports { entry, at, is_entry, stack },
            Reply::Reexports { result, targets: left },
        ) => b.after_reexports(result, at, is_entry, left, stack),
        (Step::ExtendHelpers { imported, frame, stack }, Reply::Helpers) => b.entered(
            frame,
            targets,
            stack,
        ),
        (Step::DropUnused { dep: _, frame, stack }, Reply::Unused { dep }) => b.dep_spliced(
            dep,
            frame,
            targets,
            stack,
        ),
        (Step::MergeCjs { dep, mark, frame, stack }, Reply::Cjs { result }) => b.after_cjs(
            result,
            frame,
            targets,
            stack,
        ),
        (
            Step::MergeRemaining { dep, mark, frame, stack },
            Reply::Remaining { result },
        ) => b.after_remaining(result, frame, targets, stack),
        _ => state,
    }
}

/// The step that a merge of `targets` into `entry` has reached after the
/// replies, and the targets that are left.
pub open spec fn reached(
    b: Bundler,
    entry: ModuleId,
    is_entry: bool,
    targets: Seq<ModuleId>,
    replies: Seq<Reply>,
) -> (Step, Seq<ModuleId>)
    decreases replies.len(),
{
    if replies.len() == 0 {
        (b.begun(entry, is_entry, targets, Stack::Bottom), targets)
    } else {
        next(b, reached(b, entry, is_entry, targets, replies.drop_last()), replies.last())
    }
}

/// Whether `after` is what is left of `before`.
pub open spec fn is_left_of(after: Seq<ModuleId>, before: Seq<ModuleId>) -> bool {
    after.to_multiset().subset_of(before.to_multiset())
}

/// Whether the stages only ever take targets away.
pub open spec fn stages_add_no_target(
    b: Bundler,
    entry: ModuleId,
    is_entry: bool,
    targets: Seq<ModuleId>,
    replies: Seq<Reply>,
) -> bool
    decreases replies.len(),
{
    replies.len() > 0 ==> {
        let before = replies.drop_last();
        let left = reached(b, entry, is_entry, targets, before).1;
        &&& stages_add_no_target(b, entry, is_entry, targets, before)
        &&& match replies.last() {
            Reply::Circular { module, targets } => is_left_of(targets, left),
            Reply::Reexports { result, targets } => is_left_of(targets, left),
            _ => true,
        }
    }
}

/// Which merge a step belongs to, and whether its targets are looked at.
struct Goal {
    entry: ModuleId,
    is_entry: bool,
    /// Whether no target is there twice, and none is ever added.
    strict: bool,
}

/// Whether the module at `at` is the one that the merge is into if it is at the
/// bottom, and else a dependency.
spec fn sits(b: Bundler, g: Goal, at: usize, is_entry: bool, stack: Stack) -> bool {
    if stack is Bottom {
        is_entry == g.is_entry && b.scope.lookup(g.entry) == Some(at as int)
    } else {
        !is_entry
    }
}

/// Whether none of the first `n` imports of the module at `at` that are of a
/// module of the scope is of a target.
spec fn passed(b: Bundler, at: int, n: int, targets: Seq<ModuleId>) -> bool {
    forall|k: int|
        #![trigger b.scope.modules@[at].imports@[k]]
        0 <= k < n && b.scope.lookup(b.scope.modules@[at].imports@[k].source.module_id) is Some
            ==> !targets.contains(b.scope.modules@[at].imports@[k].source.module_id)
}

spec fn holds_of_stack(b: Bundler, g: Goal, stack: Stack, targets: Seq<ModuleId>) -> bool
    decreases stack,
{
    match stack {
        Stack::Bottom => true,
        Stack::Above(frame, rest) => {
            &&& b.is_at_module(*frame)
            &&& sits(b, g, frame.at, frame.is_entry, *rest)
            &&& g.strict ==> passed(b, frame.at as int, frame.next + 1, targets)
            &&& holds_of_stack(b, g, *rest, targets)
        },
    }
}

/// Whether a frame whose first `n` imports are dealt with belongs to the merge.
spec fn holds_of_frame(
    b: Bundler,
    g: Goal,
    frame: Frame,
    n: int,
    stack: Stack,
    targets: Seq<ModuleId>,
) -> bool {
    &&& b.is_frame(frame)
    &&& sits(b, g, frame.at, frame.is_entry, stack)
    &&& g.strict ==> passed(b, frame.at as int, n, targets)
    &&& holds_of_stack(b, g, stack, targets)
}

/// What holds of a merge that ended well.
spec fn holds_at_end(b: Bundler, g: Goal, targets: Seq<ModuleId>) -> bool {
    &&& g.is_entry && b.require ==> targets.len() == 0
    &&& b.scope.lookup(g.entry) matches Some(i) && (g.strict ==> passed(
        b,
        i,
        b.scope.modules@[i].imports@.len() as int,
        targets,
    ))
}

/// What holds of every step of a merge.
spec fn holds(b: Bundler, g: Goal, state: (Step, Seq<ModuleId>)) -> bool {
    let targets = state.1;
    &&& g.strict ==> targets.no_duplicates()
    &&& match state.0 {
        Step::Finished(Ok(_)) => holds_at_end(b, g, targets),
        Step::Finished(Err(_)) => true,
        Step::Aborted(_) => true,
        Step::MergeCircular { entry, stack } => !(stack is Bottom) && holds_of_stack(
            b,
            g,
            stack,
            targets,
        ),
        Step::MergeReexports { entry, at, is_entry, stack } => {
            &&& at < b.scope.modules@.len()
            &&& sits(b, g, at, is_entry, stack)
            &&& holds_of_stack(b, g, stack, targets)
        },
        Step::ExtendHelpers { imported, frame, stack } => {
            &&& b.is_at_module(frame)
            &&& holds_of_frame(b, g, frame, frame.next as int, stack, targets)
        },
        Step::DropUnused { dep, frame, stack } => {
            &&& b.is_at_module(frame)
            &&& holds_of_frame(b, g, frame, frame.next + 1, stack, targets)
        },
        Step::MergeCjs { dep, mark, frame, stack } => {
            &&& b.is_at_import(frame)
            &&& holds_of_frame(b, g, frame, frame.next + 1, stack, targets)
        },
        Step::MergeRemaining { dep, mark, frame, stack } => holds_of_frame(
            b,
            g,
            frame,
            b.info(frame).imports@.len() as int,
            stack,
            targets,
        ),
    }
}

/// What is left of targets holds none that they did not hold, and none twice.
proof fn lemma_left(after: Seq<ModuleId>, before: Seq<ModuleId>)
    requires
        is_left_of(after, before),
    ensures
        forall|id: ModuleId| #[trigger] after.contains(id) ==> before.contains(id),
        before.no_duplicates() ==> after.no_duplicates(),
{
    after.to_multiset_ensures();
    before.to_multiset_ensures();
    assert forall|id: ModuleId| #[trigger] after.contains(id) implies before.contains(id) by {
        assert(after.to_multiset().count(id) > 0);
        assert(before.to_multiset().count(id) > 0);
    }
    if before.no_duplicates() {
        before.lemma_multiset_has_no_duplicates();
        assert forall|id: ModuleId| after.to_multiset().contains(id) implies
            after.to_multiset().count(id) == 1 by {
            assert(before.to_multiset().count(id) >= 1);
            assert(before.to_multiset().contains(id));
        }
        after.lemma_multiset_has_no_duplicates_conv();
    }
}

proof fn lemma_skip_is_left(targets: Seq<ModuleId>)
    requires
        targets.len() > 0,
    ensures
        is_left_of(targets.skip(1), targets),
{
    targets.to_multiset_ensures();
    assert(targets.remove(0) == targets.skip(1));
}

proof fn lemma_without_first_is_left(targets: Seq<ModuleId>, id: ModuleId)
    ensures
        is_left_of(without_first(targets, id), targets),
        targets.no_duplicates() ==> !without_first(targets, id).contains(id),
{
    if targets.contains(id) {
        law_without_first(targets, id);
    }
}

/// Losing targets does not hurt the modules that wait.
proof fn lemma_stack_loses(
    b: Bundler,
    g: Goal,
    stack: Stack,
    before: Seq<ModuleId>,
    after: Seq<ModuleId>,
)
    requires
        holds_of_stack(b, g, stack, before),
        g.strict ==> is_left_of(after, before),
    ensures
        holds_of_stack(b, g, stack, after),
    decreases stack,
{
    match stack {
        Stack::Bottom => {},
        Stack::Above(frame, rest) => {
            lemma_stack_loses(b, g, *rest, before, after);
            if g.strict {
                lemma_left(after, before);
            }
        },
    }
}

/// A module that is merged goes to the one that waits for it.
proof fn lemma_returned_ok(
    b: Bundler,
    g: Goal,
    module: Module,
    stack: Stack,
    targets: Seq<ModuleId>,
)
    requires
        holds_of_stack(b, g, stack, targets),
        g.strict ==> targets.no_duplicates(),
        stack is Bottom ==> holds_at_end(b, g, targets),
    ensures
        holds(b, g, (b.returned(Ok(module), stack), targets)),
{
}

proof fn lemma_returned_err(
    b: Bundler,
    g: Goal,
    error: MergeError,
    stack: Stack,
    targets: Seq<ModuleId>,
)
    requires
        g.strict ==> targets.no_duplicates(),
    ensures
        holds(b, g, (b.returned(Err(error), stack), targets)),
{
    law_failure_ends_the_merge(b, error, stack);
}

proof fn lemma_begun(
    b: Bundler,
    g: Goal,
    id: ModuleId,
    is_entry: bool,
    targets: Seq<ModuleId>,
    stack: Stack,
)
    requires
        g.strict ==> targets.no_duplicates(),
        holds_of_stack(b, g, stack, targets),
        stack is Bottom ==> id == g.entry && is_entry == g.is_entry
            && !b.scope.circular@.contains(id),
        !(stack is Bottom) ==> !is_entry,
    ensures
        holds(b, g, (b.begun(id, is_entry, targets, stack), targets)),
{
    b.scope.lemma_lookup(id);
    if let Some(i) = b.scope.lookup(id) {
        assert(0 <= i < b.scope.modules.len());
        if targets.len() == 0 {
            lemma_returned_ok(b, g, b.scope.modules@[i].module, stack, targets);
        }
    }
}

proof fn lemma_drained(
    b: Bundler,
    g: Goal,
    frame: Frame,
    targets: Seq<ModuleId>,
    stack: Stack,
)
    requires
        g.strict ==> targets.no_duplicates(),
        holds_of_frame(b, g, frame, b.info(frame).imports@.len() as int, stack, targets),
    ensures
        holds(b, g, b.drained(frame, targets, stack)),
{
    if targets.len() == 0 {
        lemma_returned_ok(b, g, frame.module, stack, targets);
    } else {
        lemma_skip_is_left(targets);
        lemma_left(targets.skip(1), targets);
        lemma_stack_loses(b, g, stack, targets, targets.skip(1));
    }
}

proof fn lemma_visited(
    b: Bundler,
    g: Goal,
    frame: Frame,
    targets: Seq<ModuleId>,
    stack: Stack,
)
    requires
        g.strict ==> targets.no_duplicates(),
        holds_of_frame(b, g, frame, frame.next as int, stack, targets),
    ensures
        holds(b, g, b.visited(frame, targets, stack)),
    decreases b.info(frame).imports.len() - frame.next,
{
    if frame.next >= b.info(frame).imports.len() {
        if frame.is_entry && b.require && targets.len() > 0 {
            lemma_drained(b, g, frame, targets, stack);
        } else {
            lemma_returned_ok(b, g, frame.module, stack, targets);
        }
    } else {
        let id = b.import(frame).source.module_id;
        if !targets.contains(id) {
            lemma_visited(b, g, Bundler::past_import(frame, b.skipped(frame)), targets, stack);
        } else if b.scope.lookup(id) is None {
            lemma_visited(b, g, Bundler::past_import(frame, frame.module), targets, stack);
        }
    }
}

proof fn lemma_entered(
    b: Bundler,
    g: Goal,
    frame: Frame,
    targets: Seq<ModuleId>,
    stack: Stack,
)
    requires
        g.strict ==> targets.no_duplicates(),
        b.is_at_module(frame),
        holds_of_frame(b, g, frame, frame.next as int, stack, targets),
    ensures
        holds(b, g, b.entered(frame, targets, stack)),
{
    let id = b.import(frame).source.module_id;
    let left = without_first(targets, id);
    lemma_without_first_is_left(targets, id);
    lemma_left(left, targets);
    lemma_stack_loses(b, g, stack, targets, left);
    let above = Stack::Above(Box::new(frame), Box::new(stack));
    assert(holds_of_stack(b, g, above, left));
    if b.imported(frame).is_es6 {
        lemma_begun(b, g, id, false, left, above);
    } else if !b.require {
        lemma_visited(b, g, Bundler::past_import(frame, frame.module), left, stack);
    }
}

proof fn lemma_dep_spliced(
    b: Bundler,
    g: Goal,
    dep: Module,
    frame: Frame,
    targets: Seq<ModuleId>,
    stack: Stack,
)
    requires
        g.strict ==> targets.no_duplicates(),
        b.is_at_module(frame),
        holds_of_frame(b, g, frame, frame.next + 1, stack, targets),
    ensures
        holds(b, g, b.dep_spliced(dep, frame, targets, stack)),
{
    let module = b.spliced_module(dep, frame);
    lemma_visited(b, g, Bundler::past_import(frame, module), targets, stack);
}

/// What holds of a step holds of the next one.
proof fn lemma_next(b: Bundler, g: Goal, state: (Step, Seq<ModuleId>), reply: Reply)
    requires
        holds(b, g, state),
        g.strict ==> (match reply {
            Reply::Circular { module, targets } => is_left_of(targets, state.1),
            Reply::Reexports { result, targets } => is_left_of(targets, state.1),
            _ => true,
        }),
    ensures
        holds(b, g, next(b, state, reply)),
{
    let targets = state.1;
    match (state.0, reply) {
        (Step::MergeCircular { entry, stack }, Reply::Circular { module, targets: left }) => {
            if g.strict {
                lemma_left(left, targets);
            }
            lemma_stack_loses(b, g, stack, targets, left);
            lemma_returned_ok(b, g, module, stack, left);
        },
        (
            Step::MergeReexports { entry, at, is_entry, stack },
            Reply::Reexports { result, targets: left },
        ) => {
            if g.strict {
                lemma_left(left, targets);
            }
            lemma_stack_loses(b, g, stack, targets, left);
            match result {
                Ok(module) => {
                    lemma_visited(b, g, Frame { at, is_entry, next: 0, module }, left, stack);
                },
                Err(e) => lemma_returned_err(b, g, MergeError::Reexports(e), stack, left),
            }
        },
        (Step::ExtendHelpers { imported, frame, stack }, Reply::Helpers) => {
            lemma_entered(b, g, frame, targets, stack);
        },
        (Step::DropUnused { dep: _, frame, stack }, Reply::Unused { dep }) => {
            lemma_dep_spliced(b, g, dep, frame, targets, stack);
        },
        (Step::MergeCjs { dep, mark, frame, stack }, Reply::Cjs { result }) => {
            match result {
                Ok(module) => {
                    lemma_visited(b, g, Bundler::past_import(frame, module), targets, stack);
                },
                Err(e) => lemma_returned_err(b, g, MergeError::Stage(e), stack, targets),
            }
        },
        (Step::MergeRemaining { dep, mark, frame, stack }, Reply::Remaining { result }) => {
            match result {
                Ok(module) => lemma_drained(b, g, Frame { module, ..frame }, targets, stack),
                Err(e) => lemma_returned_err(b, g, MergeError::Stage(e), stack, Seq::empty()),
            }
        },
        _ => {},
    }
}

proof fn lemma_reached(b: Bundler, g: Goal, targets: Seq<ModuleId>, replies: Seq<Reply>)
    requires
        !b.scope.circular@.contains(g.entry),
        g.strict ==> targets.no_duplicates() && stages_add_no_target(
            b,
            g.entry,
            g.is_entry,
            targets,
            replies,
        ),
    ensures
        holds(b, g, reached(b, g.entry, g.is_entry, targets, replies)),
    decreases replies.len(),
{
    if replies.len() == 0 {
        lemma_begun(b, g, g.entry, g.is_entry, targets, Stack::Bottom);
    } else {
        lemma_reached(b, g, targets, replies.drop_last());
        let state = reached(b, g.entry, g.is_entry, targets, replies.drop_last());
        lemma_next(b, g, state, replies.last());
    }
}

/// A merge with `require` into the entry of a chunk that ends well has taken in
/// every target, whatever the stages answer.
///
/// A circular entry is left to the stage for circular modules, and so are its
/// targets.
pub proof fn law_entry_takes_in_every_target(
    b: Bundler,
    entry: ModuleId,
    targets: Seq<ModuleId>,
    replies: Seq<Reply>,
)
    requires
        b.require,
        !b.scope.circular@.contains(entry),
    ensures
        reached(b, entry, true, targets, replies).0 matches Step::Finished(Ok(_)) ==> reached(
            b,
            entry,
            true,
            targets,
            replies,
        ).1.len() == 0,
{
    lemma_reached(b, Goal { entry, is_entry: true, strict: false }, targets, replies);
}

/// With or without `require`, once a merge has ended well no module of the scope
/// that `entry` imports is a target any longer.
///
/// This is so if no target was there twice, and the stages add none. A circular
/// entry is left to the stage for circular modules.
pub proof fn law_imported_module_is_no_target(
    b: Bundler,
    entry: ModuleId,
    is_entry: bool,
    targets: Seq<ModuleId>,
    replies: Seq<Reply>,
    k: int,
)
    requires
        !b.scope.circular@.contains(entry),
        b.scope.lookup(entry) is Some,
        targets.no_duplicates(),
        stages_add_no_target(b, entry, is_entry, targets, replies),
        0 <= k < b.scope.modules@[b.scope.lookup(entry)->0].imports@.len(),
        b.scope.lookup(
            b.scope.modules@[b.scope.lookup(entry)->0].imports@[k].source.module_id,
        ) is Some,
    ensures
        reached(b, entry, is_entry, targets, replies).0 matches Step::Finished(Ok(_)) ==> !reached(
            b,
            entry,
            is_entry,
            targets,
            replies,
        ).1.contains(b.scope.modules@[b.scope.lookup(entry)->0].imports@[k].source.module_id),
{
    lemma_reached(b, Goal { entry, is_entry, strict: true }, targets, replies);
}

/// Each step only takes targets away, but for what its stage answers.
pub proof fn law_step_only_loses_targets(
    b: Bundler,
    state: (Step, Seq<ModuleId>),
    reply: Reply,
)
    ensures
        is_left_of(
            next(b, state, reply).1,
            match (state.0, reply) {
                (Step::MergeCircular { .. }, Reply::Circular { module, targets }) => targets,
                (Step::MergeReexports { .. }, Reply::Reexports { result, targets }) => targets,
                _ => state.1,
            },
        ),
{
    let targets = state.1;
    match (state.0, reply) {
        (
            Step::MergeReexports { entry, at, is_entry, stack },
            Reply::Reexports { result: Ok(module), targets: left },
        ) => lemma_visited_loses(b, Frame { at, is_entry, next: 0, module }, left, stack),
        (Step::ExtendHelpers { imported, frame, stack }, Reply::Helpers) => {
            let id = b.import(frame).source.module_id;
            lemma_without_first_is_left(targets, id);
            lemma_visited_loses(
                b,
                Bundler::past_import(frame, frame.module),
                without_first(targets, id),
                stack,
            );
        },
        (Step::DropUnused { dep: _, frame, stack }, Reply::Unused { dep }) => {
            let module = b.spliced_module(dep, frame);
            lemma_visited_loses(b, Bundler::past_import(frame, module), targets, stack);
        },
        (Step::MergeCjs { dep, mark, frame, stack }, Reply::Cjs { result: Ok(module) }) => {
            lemma_visited_loses(b, Bundler::past_import(frame, module), targets, stack);
        },
        (Step::MergeRemaining { dep, mark, frame, stack }, Reply::Remaining { result }) => {
            if targets.len() > 0 {
                lemma_skip_is_left(targets);
            }
            Seq::<ModuleId>::empty().to_multiset_ensures();
        },
        _ => {},
    }
}

proof fn lemma_visited_loses(b: Bundler, frame: Frame, targets: Seq<ModuleId>, stack: Stack)
    ensures
        is_left_of(b.visited(frame, targets, stack).1, targets),
{
    lemma_visited_targets(b, frame, targets, stack);
    if targets.len() > 0 {
        lemma_skip_is_left(targets);
    }
}

/// Over a whole merge, targets are only ever lost, if the stages add none.
pub proof fn law_merge_only_loses_targets(
    b: Bundler,
    entry: ModuleId,
    is_entry: bool,
    targets: Seq<ModuleId>,
    replies: Seq<Reply>,
)
    requires
        stages_add_no_target(b, entry, is_entry, targets, replies),
    ensures
        is_left_of(reached(b, entry, is_entry, targets, replies).1, targets),
    decreases replies.len(),
{
    if replies.len() > 0 {
        let before = replies.drop_last();
        law_merge_only_loses_targets(b, entry, is_entry, targets, before);
        law_step_only_loses_targets(
            b,
            reached(b, entry, is_entry, targets, before),
            replies.last(),
        );
    }
}

/// Whether the elements of `after` stand in `before` at the positions `at`, in
/// order.
pub open spec fn stands_at(at: Seq<int>, after: Seq<ModuleId>, before: Seq<ModuleId>) -> bool {
    &&& at.len() == after.len()
    &&& forall|i: int|
        0 <= i < at.len() ==> 0 <= (#[trigger] at[i]) < before.len() && before[at[i]] == after[i]
    &&& forall|i: int, j: int| 0 <= i < j < at.len() ==> at[i] < at[j]
}

/// Whether `after` is `before` with some elements taken out, and the others in
/// their order.
pub open spec fn is_subsequence(after: Seq<ModuleId>, before: Seq<ModuleId>) -> bool {
    exists|at: Seq<int>| stands_at(at, after, before)
}

/// Whether the stages only ever take targets out, and keep the others in order.
pub open spec fn stages_only_remove(
    b: Bundler,
    entry: ModuleId,
    is_entry: bool,
    targets: Seq<ModuleId>,
    replies: Seq<Reply>,
) -> bool
    decreases replies.len(),
{
    replies.len() > 0 ==> {
        let before = replies.drop_last();
        let left = reached(b, entry, is_entry, targets, before).1;
        &&& stages_only_remove(b, entry, is_entry, targets, before)
        &&& match replies.last() {
            Reply::Circular { module, targets } => is_subsequence(targets, left),
            Reply::Reexports { result, targets } => is_subsequence(targets, left),
            _ => true,
        }
    }
}

proof fn lemma_subsequence_of_itself(targets: Seq<ModuleId>)
    ensures
        is_subsequence(targets, targets),
{
    assert(stands_at(Seq::new(targets.len(), |i: int| i), targets, targets));
}

proof fn lemma_subsequence_is_transitive(
    a: Seq<ModuleId>,
    b: Seq<ModuleId>,
    c: Seq<ModuleId>,
)
    requires
        is_subsequence(a, b),
        is_subsequence(b, c),
    ensures
        is_subsequence(a, c),
{
    let x = choose|at: Seq<int>| stands_at(at, a, b);
    let y = choose|at: Seq<int>| stands_at(at, b, c);
    let z = Seq::new(a.len(), |i: int| y[x[i]]);
    assert forall|i: int| 0 <= i < z.len() implies 0 <= (#[trigger] z[i]) < c.len() && c[z[i]]
        == a[i] by {
        assert(0 <= x[i] < b.len());
        assert(0 <= y[x[i]] < c.len());
    }
    assert forall|i: int, j: int| 0 <= i < j < z.len() implies z[i] < z[j] by {
        assert(0 <= x[i] < b.len() && 0 <= x[j] < b.len());
        assert(x[i] < x[j]);
    }
    assert(stands_at(z, a, c));
}

/// Taking one element out keeps the others in order.
proof fn lemma_remove_is_subsequence(targets: Seq<ModuleId>, k: int)
    requires
        0 <= k < targets.len(),
    ensures
        is_subsequence(targets.remove(k), targets),
{
    let at = Seq::new(
        (targets.len() - 1) as nat,
        |i: int|
            if i < k {
                i
            } else {
                i + 1
            },
    );
    assert(stands_at(at, targets.remove(k), targets));
}

proof fn lemma_without_first_is_subsequence(targets: Seq<ModuleId>, id: ModuleId)
    ensures
        is_subsequence(without_first(targets, id), targets),
{
    lemma_subsequence_of_itself(targets);
    if targets.contains(id) {
        lemma_has_first(targets, id);
        let k = choose|k: int| is_first_at(targets, id, k);
        lemma_remove_is_subsequence(targets, k);
    }
}

proof fn lemma_skip_is_subsequence(targets: Seq<ModuleId>)
    requires
        targets.len() > 0,
    ensures
        is_subsequence(targets.skip(1), targets),
{
    lemma_remove_is_subsequence(targets, 0);
    assert(targets.remove(0) == targets.skip(1));
}

proof fn lemma_visited_keeps_order(b: Bundler, frame: Frame, targets: Seq<ModuleId>, stack: Stack)
    ensures
        is_subsequence(b.visited(frame, targets, stack).1, targets),
{
    lemma_visited_targets(b, frame, targets, stack);
    lemma_subsequence_of_itself(targets);
    if targets.len() > 0 {
        lemma_skip_is_subsequence(targets);
    }
}

/// Each step only takes targets out and keeps the others in order, but for what
/// its stage answers.
pub proof fn law_step_keeps_the_order_of_targets(
    b: Bundler,
    state: (Step, Seq<ModuleId>),
    reply: Reply,
)
    ensures
        is_subsequence(
            next(b, state, reply).1,
            match (state.0, reply) {
                (Step::MergeCircular { .. }, Reply::Circular { module, targets }) => targets,
                (Step::MergeReexports { .. }, Reply::Reexports { result, targets }) => targets,
                _ => state.1,
            },
        ),
{
    let targets = state.1;
    lemma_subsequence_of_itself(targets);
    match (state.0, reply) {
        (Step::MergeCircular { .. }, Reply::Circular { module, targets: left }) => {
            lemma_subsequence_of_itself(left);
        },
        (
            Step::MergeReexports { entry, at, is_entry, stack },
            Reply::Reexports { result, targets: left },
        ) => {
            lemma_subsequence_of_itself(left);
            if let Ok(module) = result {
                lemma_visited_keeps_order(
                    b,
                    Frame { at, is_entry, next: 0, module },
                    left,
                    stack,
                );
            }
        },
        (Step::ExtendHelpers { imported, frame, stack }, Reply::Helpers) => {
            let id = b.import(frame).source.module_id;
            let left = without_first(targets, id);
            let after = next(b, state, reply).1;
            lemma_without_first_is_subsequence(targets, id);
            lemma_subsequence_of_itself(left);
            lemma_visited_keeps_order(
                b,
                Bundler::past_import(frame, frame.module),
                left,
                stack,
            );
            assert(is_subsequence(after, left));
            lemma_subsequence_is_transitive(after, left, targets);
        },
        (Step::DropUnused { dep: _, frame, stack }, Reply::Unused { dep }) => {
            let module = b.spliced_module(dep, frame);
            lemma_visited_keeps_order(b, Bundler::past_import(frame, module), targets, stack);
        },
        (Step::MergeCjs { dep, mark, frame, stack }, Reply::Cjs { result: Ok(module) }) => {
            lemma_visited_keeps_order(b, Bundler::past_import(frame, module), targets, stack);
        },
        (Step::MergeRemaining { dep, mark, frame, stack }, Reply::Remaining { result }) => {
            if targets.len() > 0 {
                lemma_skip_is_subsequence(targets);
            }
            assert(stands_at(Seq::empty(), Seq::empty(), targets));
        },
        _ => {},
    }
}

/// Over a whole merge, the targets that are left stand in the order in which
/// they stood, if the stages only take targets out.
pub proof fn law_merge_keeps_the_order_of_targets(
    b: Bundler,
    entry: ModuleId,
    is_entry: bool,
    targets: Seq<ModuleId>,
    replies: Seq<Reply>,
)
    requires
        stages_only_remove(b, entry, is_entry, targets, replies),
    ensures
        is_subsequence(reached(b, entry, is_entry, targets, replies).1, targets),
    decreases replies.len(),
{
    lemma_subsequence_of_itself(targets);
    if replies.len() > 0 {
        let before = replies.drop_last();
        let state = reached(b, entry, is_entry, targets, before);
        let after = next(b, state, replies.last()).1;
        law_merge_keeps_the_order_of_targets(b, entry, is_entry, targets, before);
        law_step_keeps_the_order_of_targets(b, state, replies.last());
        match replies.last() {
            Reply::Circular { module, targets: left } => {
                if state.0 is MergeCircular {
                    lemma_subsequence_is_transitive(after, left, state.1);
                }
            },
            Reply::Reexports { result, targets: left } => {
                if state.0 is MergeReexports {
                    lemma_subsequence_is_transitive(after, left, state.1);
                }
            },
            _ => {},
        }
        lemma_subsequence_is_transitive(after, state.1, targets);
    }
}

/// How many imports the modules have together.
pub open spec fn total_imports(modules: Seq<ModuleInfo>) -> nat
    decreases modules.len(),
{
    if modules.len() == 0 {
        0
    } else {
        total_imports(modules.drop_last()) + modules.last().imports@.len()
    }
}

/// Whether a reply answers a step.
pub open spec fn answers(step: Step, reply: Reply) -> bool {
    match step {
        Step::Finished(_) => false,
        Step::Aborted(_) => false,
        Step::MergeCircular { .. } => reply is Circular,
        Step::MergeReexports { .. } => reply is Reexports,
        Step::ExtendHelpers { .. } => reply is Helpers,
        Step::DropUnused { .. } => reply is Unused,
        Step::MergeCjs { .. } => reply is Cjs,
        Step::MergeRemaining { .. } => reply is Remaining,
    }
}

/// Whether each reply answers the step that it comes after.
pub open spec fn all_answer(
    b: Bundler,
    entry: ModuleId,
    is_entry: bool,
    targets: Seq<ModuleId>,
    replies: Seq<Reply>,
) -> bool
    decreases replies.len(),
{
    replies.len() > 0 ==> {
        let before = replies.drop_last();
        &&& all_answer(b, entry, is_entry, targets, before)
        &&& answers(reached(b, entry, is_entry, targets, before).0, replies.last())
    }
}

/// The most answers that a single target can take.
pub open spec fn most_answers(b: Bundler) -> nat {
    4 * total_imports(b.scope.modules@) + 4
}

/// The imports of a frame that are not dealt with.
spec fn room(b: Bundler, frame: Frame) -> int {
    b.info(frame).imports@.len() - frame.next
}

spec fn stack_work(b: Bundler, stack: Stack) -> int
    decreases stack,
{
    match stack {
        Stack::Bottom => 0,
        Stack::Above(frame, rest) => 4 * room(b, *frame) + 2 + stack_work(b, *rest),
    }
}

/// How much there is to do from a step on, but for further targets.
spec fn work(b: Bundler, step: Step) -> int {
    match step {
        Step::Finished(_) => 0,
        Step::Aborted(_) => 0,
        Step::MergeCircular { entry, stack } => 1 + stack_work(b, stack),
        Step::MergeReexports { entry, at, is_entry, stack } => {
            4 * b.scope.modules@[at as int].imports@.len() + 4 + stack_work(b, stack)
        },
        Step::ExtendHelpers { imported, frame, stack } => {
            4 * room(b, frame) + 3 + stack_work(b, stack)
        },
        Step::DropUnused { dep, frame, stack } => {
            4 * room(b, frame) + 2 + stack_work(b, stack)
        },
        Step::MergeCjs { dep, mark, frame, stack } => {
            4 * room(b, frame) + 1 + stack_work(b, stack)
        },
        Step::MergeRemaining { dep, mark, frame, stack } => 1 + stack_work(b, stack),
    }
}

/// How much there is to do, with the targets that are left.
spec fn potential(b: Bundler, state: (Step, Seq<ModuleId>)) -> int {
    state.1.len() * most_answers(b) + work(b, state.0)
}

/// Whether a step can be resumed, and merges a target if it merges anything.
spec fn goes_on(b: Bundler, state: (Step, Seq<ModuleId>)) -> bool {
    &&& b.is_step(state.0)
    &&& state.0 matches Step::ExtendHelpers { imported, frame, stack } ==> state.1.contains(
        b.import(frame).source.module_id,
    )
}

proof fn lemma_total_imports(modules: Seq<ModuleInfo>, i: int)
    requires
        0 <= i < modules.len(),
    ensures
        modules[i].imports@.len() <= total_imports(modules),
    decreases modules.len(),
{
    if i < modules.len() - 1 {
        lemma_total_imports(modules.drop_last(), i);
        assert(modules.drop_last()[i] == modules[i]);
    }
}

proof fn lemma_stack_work(b: Bundler, stack: Stack)
    requires
        b.is_stack(stack),
    ensures
        stack_work(b, stack) >= 0,
    decreases stack,
{
    match stack {
        Stack::Bottom => {},
        Stack::Above(frame, rest) => lemma_stack_work(b, *rest),
    }
}

/// One target less makes room for what a target can take.
proof fn lemma_target_less(n: nat, k: nat)
    requires
        n > 0,
    ensures
        (n - 1) * k == n * k - k,
{
    assert((n - 1) * k == n * k - k) by (nonlinear_arith);
}

proof fn lemma_fewer_targets(after: Seq<ModuleId>, before: Seq<ModuleId>, k: nat)
    requires
        is_left_of(after, before),
    ensures
        after.len() <= before.len(),
        after.len() * k <= before.len() * k,
{
    broadcast use vstd::multiset::group_multiset_axioms;

    after.to_multiset_ensures();
    before.to_multiset_ensures();
    let rest = before.to_multiset().sub(after.to_multiset());
    assert(after.to_multiset().add(rest) =~= before.to_multiset());
    let (n, m) = (after.len(), before.len());
    assert(n * k <= m * k) by (nonlinear_arith)
        requires
            n <= m,
    ;
}

proof fn lemma_returned_work(b: Bundler, result: Result<Module, MergeError>, stack: Stack)
    requires
        b.is_stack(stack),
    ensures
        b.is_step(b.returned(result, stack)),
        !(b.returned(result, stack) is ExtendHelpers),
        work(b, b.returned(result, stack)) <= stack_work(b, stack),
{
    lemma_stack_work(b, stack);
    if let Err(e) = result {
        law_failure_ends_the_merge(b, e, stack);
    }
}

proof fn lemma_drained_work(b: Bundler, frame: Frame, targets: Seq<ModuleId>, stack: Stack)
    requires
        b.is_frame(frame),
        b.is_stack(stack),
    ensures
        goes_on(b, b.drained(frame, targets, stack)),
        potential(b, b.drained(frame, targets, stack)) <= targets.len() * most_answers(b)
            + stack_work(b, stack),
{
    lemma_stack_work(b, stack);
    if targets.len() == 0 {
        lemma_returned_work(b, Ok(frame.module), stack);
    } else {
        lemma_target_less(targets.len(), most_answers(b));
    }
}

proof fn lemma_visited_work(b: Bundler, frame: Frame, targets: Seq<ModuleId>, stack: Stack)
    requires
        b.is_frame(frame),
        b.is_stack(stack),
    ensures
        goes_on(b, b.visited(frame, targets, stack)),
        potential(b, b.visited(frame, targets, stack)) <= targets.len() * most_answers(b) + 4
            * room(b, frame) + 3 + stack_work(b, stack),
    decreases b.info(frame).imports.len() - frame.next,
{
    lemma_stack_work(b, stack);
    if frame.next >= b.info(frame).imports.len() {
        if frame.is_entry && b.require && targets.len() > 0 {
            lemma_drained_work(b, frame, targets, stack);
        } else {
            lemma_returned_work(b, Ok(frame.module), stack);
        }
    } else {
        lemma_visited_work(b, Bundler::past_import(frame, b.skipped(frame)), targets, stack);
        lemma_visited_work(b, Bundler::past_import(frame, frame.module), targets, stack);
    }
}

proof fn lemma_begun_work(
    b: Bundler,
    id: ModuleId,
    is_entry: bool,
    targets: Seq<ModuleId>,
    stack: Stack,
)
    requires
        b.is_stack(stack),
    ensures
        goes_on(b, (b.begun(id, is_entry, targets, stack), targets)),
        work(b, b.begun(id, is_entry, targets, stack)) <= most_answers(b) + stack_work(b, stack),
{
    lemma_stack_work(b, stack);
    b.scope.lemma_lookup(id);
    if let Some(i) = b.scope.lookup(id) {
        assert(0 <= i < b.scope.modules.len());
        lemma_total_imports(b.scope.modules@, i);
        lemma_returned_work(b, Ok(b.scope.modules@[i].module), stack);
    }
}

/// Each answer leaves less to do.
proof fn lemma_answer_work(b: Bundler, state: (Step, Seq<ModuleId>), reply: Reply)
    requires
        goes_on(b, state),
        answers(state.0, reply),
        match reply {
            Reply::Circular { module, targets } => is_left_of(targets, state.1),
            Reply::Reexports { result, targets } => is_left_of(targets, state.1),
            _ => true,
        },
    ensures
        goes_on(b, next(b, state, reply)),
        potential(b, next(b, state, reply)) < potential(b, state),
{
    let targets = state.1;
    let most = most_answers(b);
    match (state.0, reply) {
        (Step::MergeCircular { entry, stack }, Reply::Circular { module, targets: left }) => {
            lemma_fewer_targets(left, targets, most);
            lemma_returned_work(b, Ok(module), stack);
        },
        (
            Step::MergeReexports { entry, at, is_entry, stack },
            Reply::Reexports { result, targets: left },
        ) => {
            lemma_fewer_targets(left, targets, most);
            lemma_stack_work(b, stack);
            match result {
                Ok(module) => {
                    lemma_visited_work(b, Frame { at, is_entry, next: 0, module }, left, stack);
                },
                Err(e) => lemma_returned_work(b, Err(MergeError::Reexports(e)), stack),
            }
        },
        (Step::ExtendHelpers { imported, frame, stack }, Reply::Helpers) => {
            let id = b.import(frame).source.module_id;
            let left = without_first(targets, id);
            law_without_first(targets, id);
            lemma_target_less(targets.len(), most);
            lemma_stack_work(b, stack);
            let above = Stack::Above(Box::new(frame), Box::new(stack));
            assert(b.is_stack(above));
            assert(stack_work(b, above) == 4 * room(b, frame) + 2 + stack_work(b, stack));
            lemma_begun_work(b, id, false, left, above);
            lemma_visited_work(b, Bundler::past_import(frame, frame.module), left, stack);
        },
        (Step::DropUnused { dep: _, frame, stack }, Reply::Unused { dep }) => {
            let module = b.spliced_module(dep, frame);
            lemma_stack_work(b, stack);
            lemma_visited_work(b, Bundler::past_import(frame, module), targets, stack);
        },
        (Step::MergeCjs { dep, mark, frame, stack }, Reply::Cjs { result }) => {
            lemma_stack_work(b, stack);
            match result {
                Ok(module) => {
                    lemma_visited_work(b, Bundler::past_import(frame, module), targets, stack);
                },
                Err(e) => lemma_returned_work(b, Err(MergeError::Stage(e)), stack),
            }
        },
        (Step::MergeRemaining { dep, mark, frame, stack }, Reply::Remaining { result }) => {
            lemma_stack_work(b, stack);
            match result {
                Ok(module) => lemma_drained_work(b, Frame { module, ..frame }, targets, stack),
                Err(e) => {
                    lemma_returned_work(b, Err(MergeError::Stage(e)), stack);
                    let n = targets.len();
                    assert(n * most >= 0) by (nonlinear_arith);
                },
            }
        },
        _ => {},
    }
}

proof fn lemma_reached_work(
    b: Bundler,
    entry: ModuleId,
    is_entry: bool,
    targets: Seq<ModuleId>,
    replies: Seq<Reply>,
)
    requires
        stages_add_no_target(b, entry, is_entry, targets, replies),
        all_answer(b, entry, is_entry, targets, replies),
    ensures
        goes_on(b, reached(b, entry, is_entry, targets, replies)),
        potential(b, reached(b, entry, is_entry, targets, replies)) + replies.len()
            <= targets.len() * most_answers(b) + most_answers(b),
    decreases replies.len(),
{
    if replies.len() == 0 {
        lemma_begun_work(b, entry, is_entry, targets, Stack::Bottom);
    } else {
        let before = replies.drop_last();
        lemma_reached_work(b, entry, is_entry, targets, before);
        lemma_answer_work(b, reached(b, entry, is_entry, targets, before), replies.last());
    }
}

/// Every merge comes to an end, if the stages add no target: it takes so many
/// answers at most. Until then, each step can be resumed.
pub proof fn law_merge_comes_to_an_end(
    b: Bundler,
    entry: ModuleId,
    is_entry: bool,
    targets: Seq<ModuleId>,
    replies: Seq<Reply>,
)
    requires
        stages_add_no_target(b, entry, is_entry, targets, replies),
        all_answer(b, entry, is_entry, targets, replies),
    ensures
        replies.len() <= (targets.len() + 1) * most_answers(b),
        b.is_step(reached(b, entry, is_entry, targets, replies).0),
{
    lemma_reached_work(b, entry, is_entry, targets, replies);
    let state = reached(b, entry, is_entry, targets, replies);
    let (n, m, most) = (state.1.len(), targets.len(), most_answers(b));
    lemma_step_work(b, state.0);
    assert(n * most >= 0) by (nonlinear_arith);
    assert((m + 1) * most == m * most + most) by (nonlinear_arith);
}

proof fn lemma_step_work(b: Bundler, step: Step)
    requires
        b.is_step(step),
    ensures
        work(b, step) >= 0,
{
    match step {
        Step::Finished(_) => {},
        Step::Aborted(_) => {},
        Step::MergeCircular { entry, stack } => lemma_stack_work(b, stack),
        Step::MergeReexports { entry, at, is_entry, stack } => lemma_stack_work(b, stack),
        Step::ExtendHelpers { imported, frame, stack } => lemma_stack_work(b, stack),
        Step::DropUnused { dep, frame, stack } => lemma_stack_work(b, stack),
        Step::MergeCjs { dep, mark, frame, stack } => lemma_stack_work(b, stack),
        Step::MergeRemaining { dep, mark, frame, stack } => lemma_stack_work(b, stack),
    }
}

} // verus!
