//! What becomes of the declarations of a module while others are merged into it.
use crate::connection::{
    any_declares, declarators_ids, declares, exports_value, law_taken_value_is_declared,
};
use crate::events::concerns;
use crate::export_renamer::{renamed_items, Renaming};
use crate::hygiene::SyntaxContext;
use crate::injector::{injected, law_import_is_replaced_by_all_items};
use crate::local_marker::{
    bound_declarators, bound_item, bound_pats, marked_declarator, marked_declarators, marked_item,
    marked_items, marked_pat, marked_pats, Marking,
};
use crate::marking_laws::law_marked_in_order;
use crate::merge::{Bundler, Frame, MergeError, Stack, Step};
use crate::pattern::{pat_ids, pats_ids};
use crate::pattern_laws::{asks_first, law_first_to_ask_takes};
use crate::run::Run;
use crate::scope::{
    law_import_statements_are_dropped, without_first, without_imports, Import, ModuleInfo,
};
use crate::specifier::ModuleId;
use crate::step_laws::{
    going_on, is_at, is_first_statement, is_import_of_path, is_module,
    law_dependency_takes_the_place_of_its_import, marked_for,
};
use crate::syntax::{Decl, Id, Module, ModuleDecl, ModuleItem, Pat, Stmt, VarDeclarator, Word};
use crate::unexporter::{can_unexport_all, unexported_items};
use crate::whole_merge::{next, reached, Reply};
use vstd::prelude::*;

verus! {

/// Whether no specifier of a marking is about the name `id`.
pub open spec fn is_apart_from(m: Marking, id: Id) -> bool {
    forall|k: int|
        0 <= k < m.specifiers.len() ==> !concerns(#[trigger] m.specifiers[k], m.is_export, id)
}

proof fn lemma_apart(m: Marking, id: Id)
    requires
        is_apart_from(m, id),
    ensures
        !m.covers(id),
{
    assert forall|k: int| 0 <= k < m.specifiers.len() implies !m.is_about(
        #[trigger] m.specifiers[k],
        id,
    ) by {
        assert(!concerns(m.specifiers[k], m.is_export, id));
    }
}

proof fn lemma_in_either<T>(a: Seq<T>, b: Seq<T>, x: T)
    ensures
        (a + b).contains(x) == (a.contains(x) || b.contains(x)),
{
    if (a + b).contains(x) {
        let k = choose|k: int| 0 <= k < (a + b).len() && (a + b)[k] == x;
        if k < a.len() {
            assert(a[k] == x);
        } else {
            assert(b[k - a.len()] == x);
        }
    }
    if a.contains(x) {
        let k = choose|k: int| 0 <= k < a.len() && a[k] == x;
        assert((a + b)[k] == x);
    }
    if b.contains(x) {
        let k = choose|k: int| 0 <= k < b.len() && b[k] == x;
        assert((a + b)[a.len() + k] == x);
    }
}

proof fn lemma_marked_pat(m: Marking, ex: Seq<Id>, pat: Pat, id: Id)
    requires
        !m.covers(id),
        pat_ids(pat).contains(id),
    ensures
        pat_ids(marked_pat(m, ex, pat)).contains(id),
    decreases pat,
{
    match pat {
        Pat::Ident(ident) => {
            assert(ident.spec_id() == id);
            assert(pat_ids(marked_pat(m, ex, pat))[0] == id);
        },
        Pat::Other { origin, parts } => lemma_marked_pats(m, ex, parts, id),
        _ => {},
    }
}

proof fn lemma_marked_pats(m: Marking, ex: Seq<Id>, pats: Run<Pat>, id: Id)
    requires
        !m.covers(id),
        pats_ids(pats).contains(id),
    ensures
        pats_ids(marked_pats(m, ex, pats)).contains(id),
    decreases pats,
{
    match pats {
        Run::Empty => {},
        Run::One(x) => lemma_marked_pat(m, ex, *x, id),
        Run::Join(a, b) => {
            let rest = ex + bound_pats(*a);
            lemma_in_either(pats_ids(*a), pats_ids(*b), id);
            lemma_in_either(
                pats_ids(marked_pats(m, ex, *a)),
                pats_ids(marked_pats(m, rest, *b)),
                id,
            );
            if pats_ids(*a).contains(id) {
                lemma_marked_pats(m, ex, *a, id);
            } else {
                lemma_marked_pats(m, rest, *b, id);
            }
        },
    }
}

proof fn lemma_marked_declarators(m: Marking, ex: Seq<Id>, decls: Run<VarDeclarator>, id: Id)
    requires
        !m.covers(id),
        declarators_ids(decls).contains(id),
    ensures
        declarators_ids(marked_declarators(m, ex, decls)).contains(id),
    decreases decls,
{
    match decls {
        Run::Empty => {},
        Run::One(x) => {
            lemma_marked_pat(m, ex, x.name, id);
            assert(marked_declarator(m, ex, *x).name == marked_pat(m, ex, x.name));
        },
        Run::Join(a, b) => {
            let rest = ex + bound_declarators(*a);
            lemma_in_either(declarators_ids(*a), declarators_ids(*b), id);
            lemma_in_either(
                declarators_ids(marked_declarators(m, ex, *a)),
                declarators_ids(marked_declarators(m, rest, *b)),
                id,
            );
            if declarators_ids(*a).contains(id) {
                lemma_marked_declarators(m, ex, *a, id);
            } else {
                lemma_marked_declarators(m, rest, *b, id);
            }
        },
    }
}

proof fn lemma_marked_item(m: Marking, ex: Seq<Id>, item: ModuleItem, id: Id)
    requires
        !m.covers(id),
        declares(item, id),
    ensures
        declares(marked_item(m, ex, item), id),
{
    match item {
        ModuleItem::Stmt(Stmt::Decl(Decl::Var(v))) => lemma_marked_declarators(m, ex, v.decls, id),
        _ => {},
    }
}

/// A declaration of a name that no specifier is about stays a declaration of that
/// name when the importer is marked.
pub proof fn law_marking_keeps_declarations(
    m: Marking,
    ex: Seq<Id>,
    items: Run<ModuleItem>,
    id: Id,
)
    requires
        is_apart_from(m, id),
        any_declares(items, id),
    ensures
        any_declares(marked_items(m, ex, items), id),
{
    lemma_apart(m, id);
    let i = choose|i: int| 0 <= i < items@.len() && declares(#[trigger] items@[i], id);
    law_marked_in_order(m, ex, items, i);
    let before = ex + items@.take(i).flat_map(|item: ModuleItem| bound_item(item));
    lemma_marked_item(m, before, items@[i], id);
    assert(declares(marked_items(m, ex, items)@[i], id));
}

/// Dropping the import statements of a module drops no declaration.
pub proof fn law_dropping_imports_keeps_declarations(
    imports: Seq<Import>,
    module: ModuleId,
    items: Run<ModuleItem>,
    id: Id,
)
    requires
        any_declares(items, id),
    ensures
        any_declares(without_imports(imports, module, items), id),
{
    let i = choose|i: int| 0 <= i < items@.len() && declares(#[trigger] items@[i], id);
    law_import_statements_are_dropped(imports, module, items);
    lemma_without(imports, module, items, i);
    let left = without_imports(imports, module, items)@;
    let k = choose|k: int| 0 <= k < left.len() && left[k] == items@[i];
    assert(declares(left[k], id));
}

proof fn lemma_without(imports: Seq<Import>, module: ModuleId, items: Run<ModuleItem>, i: int)
    requires
        0 <= i < items@.len(),
        !(items@[i] is ModuleDecl),
    ensures
        without_imports(imports, module, items)@.contains(items@[i]),
{
    law_import_statements_are_dropped(imports, module, items);
    let stays = |item: ModuleItem|
        !(item matches ModuleItem::ModuleDecl(ModuleDecl::Import(import)) && exists|
            k: int,
        |
            0 <= k < imports.len() && (#[trigger] imports[k]).source.module_id == module
                && imports[k].source.src == import.src);
    items@.lemma_filter_contains(stays, i);
}

/// Injection drops no declaration of the importer, and none of the imported items
/// if there is an import statement to put them in the place of.
pub proof fn law_injection_keeps_declarations(
    items: Run<ModuleItem>,
    imported: Run<ModuleItem>,
    path: Word,
    k: int,
    id: Id,
)
    requires
        is_first_statement(items@, path, k),
        any_declares(items, id) || k < items@.len() && any_declares(imported, id),
    ensures
        any_declares(injected(items, imported, path), id),
{
    law_import_is_replaced_by_all_items(items, imported, path, k);
    if k < items@.len() {
        let all = injected(items, imported, path)@;
        let stays = |item: ModuleItem|
            !(item matches ModuleItem::ModuleDecl(ModuleDecl::Import(import))
                && import.src.value == path);
        let rest = items@.skip(k + 1).filter(stays);
        if any_declares(items, id) {
            let i = choose|i: int| 0 <= i < items@.len() && declares(#[trigger] items@[i], id);
            if i < k {
                assert(all[i] == items@[i]);
            } else {
                assert(i != k);
                let j = i - (k + 1);
                assert(items@.skip(k + 1)[j] == items@[i]);
                items@.skip(k + 1).lemma_filter_contains(stays, j);
                let l = choose|l: int| 0 <= l < rest.len() && rest[l] == items@[i];
                assert(all[k + imported@.len() + l] == items@[i]);
            }
        } else {
            let i = choose|i: int|
                0 <= i < imported@.len() && declares(#[trigger] imported@[i], id);
            assert(all[k + i] == imported@[i]);
        }
    }
}

/// Of the modules that wait, the one that all is merged into.
pub open spec fn outermost(stack: Stack) -> Option<Frame>
    decreases stack,
{
    match stack {
        Stack::Bottom => None,
        Stack::Above(frame, rest) => match *rest {
            Stack::Bottom => Some(*frame),
            Stack::Above(_, _) => outermost(*rest),
        },
    }
}

/// Whether none of the imports of a module from `n` on binds the name `id`.
pub open spec fn binds_not(info: ModuleInfo, n: int, id: Id) -> bool {
    forall|k: int, l: int|
        #![trigger info.imports@[k].specifiers@[l]]
        n <= k < info.imports@.len() && 0 <= l < info.imports@[k].specifiers@.len() ==> !concerns(
            info.imports@[k].specifiers@[l],
            false,
            id,
        )
}

/// Whether a stage that merges into the module that all is merged into keeps its
/// declaration of a name.
pub open spec fn reply_keeps(step: Step, reply: Reply, id: Id) -> bool {
    match (step, reply) {
        (Step::MergeCjs { dep, mark, frame, stack }, Reply::Cjs { result: Ok(module) }) => stack
            is Bottom && any_declares(frame.module.body, id) ==> any_declares(module.body, id),
        (
            Step::MergeRemaining { dep, mark, frame, stack },
            Reply::Remaining { result: Ok(module) },
        ) => stack is Bottom && any_declares(frame.module.body, id) ==> any_declares(
            module.body,
            id,
        ),
        _ => true,
    }
}

/// Whether the frame at the bottom, which is `frame` if no other waits, is of the
/// module at `at`, declares the name and binds it by no import from `n` on.
spec fn carries(b: Bundler, at: usize, frame: Frame, n: int, stack: Stack, id: Id) -> bool {
    match stack {
        Stack::Bottom => {
            &&& frame.at == at
            &&& any_declares(frame.module.body, id)
            &&& binds_not(b.scope.modules@[at as int], n, id)
        },
        Stack::Above(_, _) => waits(b, at, stack, id),
    }
}

spec fn waits(b: Bundler, at: usize, stack: Stack, id: Id) -> bool {
    &&& outermost(stack) matches Some(frame)
    &&& frame.at == at
    &&& is_within(b, frame)
    &&& any_declares(frame.module.body, id)
    &&& binds_not(b.scope.modules@[at as int], frame.next as int, id)
}

spec fn is_within(b: Bundler, frame: Frame) -> bool {
    frame.next < b.scope.modules@[frame.at as int].imports.len()
}

/// What holds of every step once the name is declared at the bottom.
spec fn safe(b: Bundler, at: usize, step: Step, id: Id) -> bool {
    match step {
        Step::Finished(Ok(module)) => any_declares(module.body, id),
        Step::Finished(Err(_)) => true,
        Step::Aborted(_) => true,
        Step::MergeCircular { entry, stack } => waits(b, at, stack, id),
        Step::MergeReexports { entry, at: _, is_entry, stack } => waits(b, at, stack, id),
        Step::ExtendHelpers { imported, frame, stack } => is_within(b, frame) && carries(
            b,
            at,
            frame,
            frame.next as int,
            stack,
            id,
        ),
        Step::DropUnused { dep, frame, stack } => (stack is Bottom ==> is_within(b, frame))
            && carries(b, at, frame, frame.next as int, stack, id),
        Step::MergeCjs { dep, mark, frame, stack } => (stack is Bottom ==> is_within(b, frame))
            && carries(b, at, frame, frame.next + 1, stack, id),
        Step::MergeRemaining { dep, mark, frame, stack } => carries(
            b,
            at,
            frame,
            frame.next + 1,
            stack,
            id,
        ),
    }
}

proof fn lemma_returned_err(b: Bundler, error: MergeError, stack: Stack)
    ensures
        b.returned(Err(error), stack) matches Step::Finished(Err(_)),
    decreases stack,
{
    match stack {
        Stack::Bottom => {},
        Stack::Above(frame, rest) => {
            let outer = MergeError::Dependency {
                importer: b.info(*frame).id,
                imported: b.import(*frame).source.module_id,
                path: b.import(*frame).source.src.value,
                cause: Box::new(error),
            };
            lemma_returned_err(b, outer, *rest);
        },
    }
}

proof fn lemma_returned_ok(b: Bundler, at: usize, module: Module, stack: Stack, id: Id)
    requires
        stack is Bottom ==> any_declares(module.body, id),
        stack is Above ==> waits(b, at, stack, id),
    ensures
        safe(b, at, b.returned(Ok(module), stack), id),
{
}

proof fn lemma_local_marking(b: Bundler, frame: Frame, id: Id)
    requires
        is_within(b, frame),
        binds_not(b.scope.modules@[frame.at as int], frame.next as int, id),
    ensures
        is_apart_from(b.local_marking(frame), id),
{
    let info = b.scope.modules@[frame.at as int];
    let m = b.local_marking(frame);
    assert forall|l: int| 0 <= l < m.specifiers.len() implies !concerns(
        #[trigger] m.specifiers[l],
        m.is_export,
        id,
    ) by {
        assert(m.specifiers[l] == info.imports@[frame.next as int].specifiers@[l]);
    }
}

proof fn lemma_visited(
    b: Bundler,
    at: usize,
    frame: Frame,
    targets: Seq<ModuleId>,
    stack: Stack,
    id: Id,
)
    requires
        carries(b, at, frame, frame.next as int, stack, id),
    ensures
        safe(b, at, b.visited(frame, targets, stack).0, id),
    decreases b.scope.modules@[frame.at as int].imports.len() - frame.next,
{
    let info = b.scope.modules@[frame.at as int];
    if is_within(b, frame) {
        let module = info.imports@[frame.next as int].source.module_id;
        if !targets.contains(module) {
            let skipped = b.skipped(frame);
            if stack is Bottom {
                lemma_local_marking(b, frame, id);
                let marked = if b.scope.lookup(module) is Some {
                    law_marking_keeps_declarations(
                        b.local_marking(frame),
                        Seq::empty(),
                        frame.module.body,
                        id,
                    );
                    marked_items(b.local_marking(frame), Seq::empty(), frame.module.body)
                } else {
                    frame.module.body
                };
                law_dropping_imports_keeps_declarations(info.imports@, module, marked, id);
            }
            if !b.require {
                lemma_visited(b, at, Bundler::past_import(frame, skipped), targets, stack, id);
            }
        } else if b.scope.lookup(module) is None {
            lemma_visited(b, at, Bundler::past_import(frame, frame.module), targets, stack, id);
        }
    }
}

/// The first import statement of a path, or the end.
proof fn lemma_first_statement(items: Seq<ModuleItem>, path: Word) -> (k: int)
    ensures
        is_first_statement(items, path, k),
    decreases items.len(),
{
    if items.len() == 0 {
        0
    } else {
        let k = lemma_first_statement(items.drop_last(), path);
        assert forall|j: int| 0 <= j < k implies !is_import_of_path(
            #[trigger] items[j],
            path,
        ) by {
            assert(items[j] == items.drop_last()[j]);
        }
        if k < items.len() - 1 || is_import_of_path(items.last(), path) {
            k
        } else {
            items.len() as int
        }
    }
}

proof fn lemma_dep_spliced(
    b: Bundler,
    at: usize,
    dep: Module,
    frame: Frame,
    targets: Seq<ModuleId>,
    stack: Stack,
    id: Id,
)
    requires
        stack is Bottom ==> is_within(b, frame),
        carries(b, at, frame, frame.next as int, stack, id),
    ensures
        safe(b, at, b.dep_spliced(dep, frame, targets, stack).0, id),
{
    let module = b.spliced_module(dep, frame);
    if stack is Bottom {
        lemma_local_marking(b, frame, id);
        law_marking_keeps_declarations(
            b.local_marking(frame),
            Seq::empty(),
            frame.module.body,
            id,
        );
        let path = b.import(frame).source.src.value;
        let k = lemma_first_statement(b.marked_entry(frame).body@, path);
        law_injection_keeps_declarations(
            b.marked_entry(frame).body,
            b.stripped_dep(dep, frame).body,
            path,
            k,
            id,
        );
    }
    lemma_visited(b, at, Bundler::past_import(frame, module), targets, stack, id);
}

proof fn lemma_entered(
    b: Bundler,
    at: usize,
    frame: Frame,
    targets: Seq<ModuleId>,
    stack: Stack,
    id: Id,
)
    requires
        is_within(b, frame),
        carries(b, at, frame, frame.next as int, stack, id),
    ensures
        safe(b, at, b.entered(frame, targets, stack).0, id),
{
    let left = without_first(targets, b.import(frame).source.module_id);
    let above = Stack::Above(Box::new(frame), Box::new(stack));
    assert(waits(b, at, above, id));
    lemma_visited(b, at, Bundler::past_import(frame, frame.module), left, stack, id);
}

proof fn lemma_next(
    b: Bundler,
    at: usize,
    state: (Step, Seq<ModuleId>),
    reply: Reply,
    id: Id,
)
    requires
        safe(b, at, state.0, id),
        reply_keeps(state.0, reply, id),
    ensures
        safe(b, at, next(b, state, reply).0, id),
{
    let targets = state.1;
    match (state.0, reply) {
        (Step::MergeCircular { entry, stack }, Reply::Circular { module, targets: left }) => {
            lemma_returned_ok(b, at, module, stack, id);
        },
        (
            Step::MergeReexports { entry, at: i, is_entry, stack },
            Reply::Reexports { result, targets: left },
        ) => match result {
            Ok(module) => lemma_visited(
                b,
                at,
                Frame { at: i, is_entry, next: 0, module },
                left,
                stack,
                id,
            ),
            Err(e) => lemma_returned_err(b, MergeError::Reexports(e), stack),
        },
        (Step::ExtendHelpers { imported, frame, stack }, Reply::Helpers) => {
            lemma_entered(b, at, frame, targets, stack, id);
        },
        (Step::DropUnused { dep: _, frame, stack }, Reply::Unused { dep }) => {
            lemma_dep_spliced(b, at, dep, frame, targets, stack, id);
        },
        (Step::MergeCjs { dep, mark, frame, stack }, Reply::Cjs { result }) => match result {
            Ok(module) => lemma_visited(
                b,
                at,
                Bundler::past_import(frame, module),
                targets,
                stack,
                id,
            ),
            Err(e) => lemma_returned_err(b, MergeError::Stage(e), stack),
        },
        (
            Step::MergeRemaining { dep, mark, frame, stack },
            Reply::Remaining { result },
        ) => match result {
            Ok(module) => lemma_returned_ok(b, at, module, stack, id),
            Err(e) => lemma_returned_err(b, MergeError::Stage(e), stack),
        },
        _ => {},
    }
}

/// Whether the stages that are answered after the first `n` replies keep the
/// declaration of a name in the module that all is merged into.
pub open spec fn stages_keep(
    b: Bundler,
    entry: ModuleId,
    is_entry: bool,
    targets: Seq<ModuleId>,
    replies: Seq<Reply>,
    n: int,
    id: Id,
) -> bool {
    forall|q: int|
        #![trigger replies[q]]
        n <= q < replies.len() ==> reply_keeps(
            reached(b, entry, is_entry, targets, replies.take(q)).0,
            replies[q],
            id,
        )
}

proof fn lemma_to_the_end(
    b: Bundler,
    at: usize,
    entry: ModuleId,
    is_entry: bool,
    targets: Seq<ModuleId>,
    replies: Seq<Reply>,
    n: int,
    m: int,
    id: Id,
)
    requires
        0 <= n <= m <= replies.len(),
        safe(b, at, reached(b, entry, is_entry, targets, replies.take(n)).0, id),
        stages_keep(b, entry, is_entry, targets, replies, n, id),
    ensures
        safe(b, at, reached(b, entry, is_entry, targets, replies.take(m)).0, id),
    decreases m - n,
{
    if n < m {
        lemma_to_the_end(b, at, entry, is_entry, targets, replies, n, m - 1, id);
        let before = replies.take(m - 1);
        assert(replies.take(m).drop_last() == before);
        assert(replies.take(m).last() == replies[m - 1]);
        lemma_next(b, at, reached(b, entry, is_entry, targets, before), replies[m - 1], id);
    }
}

/// What the entry declares once its re-exports are merged, a merge that ends well
/// gives back declared, unless an import of the entry binds that very name or a
/// stage takes the declaration away.
pub proof fn law_declarations_of_the_entry_stay(
    b: Bundler,
    entry: ModuleId,
    is_entry: bool,
    targets: Seq<ModuleId>,
    replies: Seq<Reply>,
    n: int,
    id: Id,
)
    requires
        0 <= n < replies.len(),
        reached(b, entry, is_entry, targets, replies.take(n)).0 matches Step::MergeReexports {
            entry: _,
            at,
            is_entry: _,
            stack: Stack::Bottom,
        } && binds_not(b.scope.modules@[at as int], 0, id),
        replies[n] matches Reply::Reexports { result: Ok(module), targets: _ } && any_declares(
            module.body,
            id,
        ),
        stages_keep(b, entry, is_entry, targets, replies, n + 1, id),
    ensures
        reached(b, entry, is_entry, targets, replies).0 matches Step::Finished(Ok(module))
            ==> any_declares(module.body, id),
{
    let before = reached(b, entry, is_entry, targets, replies.take(n));
    assert(replies.take(n + 1).drop_last() == replies.take(n));
    assert(replies.take(n + 1).last() == replies[n]);
    if let Step::MergeReexports { entry: _, at, is_entry: e, stack } = before.0 {
        if let Reply::Reexports { result: Ok(module), targets: left } = replies[n] {
            lemma_visited(b, at, Frame { at, is_entry: e, next: 0, module }, left, stack, id);
        }
        lemma_to_the_end(
            b,
            at,
            entry,
            is_entry,
            targets,
            replies,
            n + 1,
            replies.len() as int,
            id,
        );
    }
    assert(replies.take(replies.len() as int) == replies);
}

/// A value that the entry takes from a module that is merged is declared in the
/// module that the merge gives back, under the name that the entry has for it, with
/// the mark of that module. It does not matter which import of the entry it is.
///
/// The entry has an import statement of the path, and asks for the value in its
/// first import of the module. The name is lost only if a later import of the entry
/// binds that very name, mark and all, or a stage takes the declaration away.
pub proof fn law_taken_value_is_in_the_result(
    b: Bundler,
    entry: ModuleId,
    is_entry: bool,
    targets: Seq<ModuleId>,
    replies: Seq<Reply>,
    n: int,
    dep: Module,
    frame: Frame,
    info: ModuleInfo,
    import: Import,
    i: int,
    first: int,
    k: int,
    s: int,
    sym: Word,
    j: int,
)
    requires
        0 <= n < replies.len(),
        reached(b, entry, is_entry, targets, replies.take(n)).0 matches Step::DropUnused {
            dep: _,
            frame: f,
            stack: Stack::Bottom,
        } && f == frame,
        replies[n] == (Reply::Unused { dep }),
        is_at(b, frame, info, import),
        is_module(b, import.source.module_id, i),
        0 <= first < info.imports@.len(),
        info.imports@[first].source.module_id == import.source.module_id,
        forall|l: int|
            0 <= l < first ==> (#[trigger] info.imports@[l]).source.module_id
                != import.source.module_id,
        can_unexport_all(dep.body),
        0 <= k < frame.module.body@.len(),
        is_import_of_path(frame.module.body@[k], import.source.src.value),
        asks_first(info.imports@[first].specifiers@, sym, s),
        0 <= j < dep.body@.len(),
        exports_value(dep.body@[j], sym),
        binds_not(
            info,
            frame.next + 1,
            Id {
                sym: info.imports@[first].specifiers@[s]->Specific_local.sym,
                ctxt: SyntaxContext::Marked(b.scope.modules@[i].mark@),
            },
        ),
        stages_keep(
            b,
            entry,
            is_entry,
            targets,
            replies,
            n + 1,
            Id {
                sym: info.imports@[first].specifiers@[s]->Specific_local.sym,
                ctxt: SyntaxContext::Marked(b.scope.modules@[i].mark@),
            },
        ),
    ensures
        reached(b, entry, is_entry, targets, replies).0 matches Step::Finished(Ok(module))
            ==> any_declares(
            module.body,
            Id {
                sym: info.imports@[first].specifiers@[s]->Specific_local.sym,
                ctxt: SyntaxContext::Marked(b.scope.modules@[i].mark@),
            },
        ),
{
    let taken = info.imports@[first].specifiers@;
    let imported = b.scope.modules@[i];
    let id = Id { sym: taken[s]->Specific_local.sym, ctxt: SyntaxContext::Marked(imported.mark@) };
    let before = reached(b, entry, is_entry, targets, replies.take(n));
    let path = import.source.src.value;
    let marked = marked_for(imported, import, frame.module.body);
    let m = Marking {
        mark: imported.mark@,
        specifiers: import.specifiers@,
        is_export: false,
    };
    law_marked_in_order(m, Seq::empty(), frame.module.body, k);
    assert(is_import_of_path(marked@[k], path));
    let l = lemma_first_statement(marked@, path);
    assert(l < marked@.len());
    law_dependency_takes_the_place_of_its_import(
        b,
        dep,
        frame,
        before.1,
        Stack::Bottom,
        info,
        import,
        i,
        first,
        l,
    );
    let r = Renaming { mark: imported.mark@, imports: taken };
    let stripped = unexported_items(renamed_items(r, dep.body));
    law_first_to_ask_takes(taken, sym);
    law_taken_value_is_declared(r, dep.body, j, sym);
    let d = choose|d: int| 0 <= d < stripped@.len() && declares(#[trigger] stripped@[d], id);
    let rest = marked@.skip(l + 1).filter(|item: ModuleItem| !is_import_of_path(item, path));
    let module = choose|module: Module|
        #![trigger going_on(frame, module)]
        module.span == frame.module.span && module.shebang == frame.module.shebang
            && module.body@ == marked@.take(l) + stripped@ + rest && b.dep_spliced(
            dep,
            frame,
            before.1,
            Stack::Bottom,
        ) == b.visited(going_on(frame, module), before.1, Stack::Bottom);
    assert(module.body@[l + d] == stripped@[d]);
    lemma_visited(b, frame.at, going_on(frame, module), before.1, Stack::Bottom, id);
    assert(replies.take(n + 1).drop_last() == replies.take(n));
    assert(replies.take(n + 1).last() == replies[n]);
    lemma_to_the_end(
        b,
        frame.at,
        entry,
        is_entry,
        targets,
        replies,
        n + 1,
        replies.len() as int,
        id,
    );
    assert(replies.take(replies.len() as int) == replies);
}

} // verus!
