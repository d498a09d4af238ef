//! What holds of every merge.
use crate::actual_marker::taker;
use crate::connection::{
    any_declares, declares, exports_value, law_renaming_keeps_unexportable, law_use_is_declared,
};
use crate::export_renamer::Renaming;
use crate::injector::{
    any_imports_from, imports_from, injected, is_first_import, law_injected_in_place_of_import,
    law_injected_leaves_no_import, lemma_any_imports_from_view,
};
use crate::local_marker::{marked_ident, marked_module};
use crate::merge::{is_first_import_of, Bundler, Fault, Frame, MergeError, Stack, Step};
use crate::run::Run;
use crate::scope::{law_dropped_imports_are_gone, law_without_first, stays, without_first};
use crate::specifier::ModuleId;
use crate::syntax::{Id, Module, ModuleItem, Word};
use crate::unexporter::{
    can_unexport_all, is_export, law_unexported_exports_nothing, unexported_items,
};
use crate::uses::{law_marking_marks_each_use, uses_items};
use vstd::prelude::*;

verus! {

/// The error that a chain of errors started from.
pub open spec fn root_cause(error: MergeError) -> MergeError
    decreases error,
{
    match error {
        MergeError::Dependency { importer, imported, path, cause } => root_cause(*cause),
        _ => error,
    }
}

/// The imports that an error came through, outermost first.
pub open spec fn error_trail(error: MergeError) -> Seq<(ModuleId, ModuleId, Word)>
    decreases error,
{
    match error {
        MergeError::Dependency { importer, imported, path, cause } => seq![
            (importer, imported, path),
        ] + error_trail(*cause),
        _ => Seq::empty(),
    }
}

/// The imports that a stack waits for, outermost first.
pub open spec fn stack_trail(b: Bundler, stack: Stack) -> Seq<(ModuleId, ModuleId, Word)>
    decreases stack,
{
    match stack {
        Stack::Bottom => Seq::empty(),
        Stack::Above(frame, rest) => stack_trail(b, *rest) + seq![
            (
                b.info(*frame).id,
                b.import(*frame).source.module_id,
                b.import(*frame).source.src.value,
            ),
        ],
    }
}

/// With no targets, a module is merged as it is.
pub proof fn law_nothing_to_merge(b: Bundler, id: ModuleId, is_entry: bool)
    requires
        b.scope.lookup(id) is Some,
    ensures
        b.begun(id, is_entry, Seq::empty(), Stack::Bottom) == Step::Finished(
            Ok(b.scope.modules@[b.scope.lookup(id)->0].module),
        ),
{
}

/// A failure anywhere ends the whole merge. The error that comes out starts
/// from the same cause, and names each import that was being merged, outermost
/// first.
pub proof fn law_failure_ends_the_merge(b: Bundler, error: MergeError, stack: Stack)
    ensures
        b.returned(Err(error), stack) matches Step::Finished(Err(e)) && root_cause(e)
            == root_cause(error) && error_trail(e) == stack_trail(b, stack) + error_trail(error),
    decreases stack,
{
    match stack {
        Stack::Bottom => {
            assert(stack_trail(b, stack) + error_trail(error) == error_trail(error));
        },
        Stack::Above(frame, rest) => {
            let outer = MergeError::Dependency {
                importer: b.info(*frame).id,
                imported: b.import(*frame).source.module_id,
                path: b.import(*frame).source.src.value,
                cause: Box::new(error),
            };
            law_failure_ends_the_merge(b, outer, *rest);
            assert(stack_trail(b, *rest) + error_trail(outer) == stack_trail(b, stack)
                + error_trail(error));
        },
    }
}

/// Going through imports that are merged already leaves the targets alone, but
/// for a first one that is handed out to be merged.
pub(crate) proof fn lemma_visited_targets(
    b: Bundler,
    frame: Frame,
    targets: Seq<ModuleId>,
    stack: Stack,
)
    ensures
        b.visited(frame, targets, stack).1 == targets || (targets.len() > 0 && b.visited(
            frame,
            targets,
            stack,
        ).1 == targets.skip(1)),
    decreases b.info(frame).imports.len() - frame.next,
{
    if frame.next < b.info(frame).imports.len() {
        lemma_visited_targets(b, Bundler::past_import(frame, b.skipped(frame)), targets, stack);
        lemma_visited_targets(b, Bundler::past_import(frame, frame.module), targets, stack);
    }
}

/// A target is used up when it is merged: the targets get fewer, none is added,
/// and if none was there twice, the one that is merged is not a target any
/// longer.
pub proof fn law_merged_target_is_used_up(
    b: Bundler,
    frame: Frame,
    targets: Seq<ModuleId>,
    stack: Stack,
)
    requires
        b.is_at_module(frame),
        targets.contains(b.import(frame).source.module_id),
    ensures
        b.entered(frame, targets, stack).1.len() < targets.len(),
        b.entered(frame, targets, stack).1.to_set().subset_of(targets.to_set()),
        targets.no_duplicates() ==> !b.entered(frame, targets, stack).1.contains(
            b.import(frame).source.module_id,
        ),
{
    let id = b.import(frame).source.module_id;
    let rest = without_first(targets, id);
    let left = b.entered(frame, targets, stack).1;
    law_without_first(targets, id);
    lemma_visited_targets(b, Bundler::past_import(frame, frame.module), rest, stack);
    assert(left == rest || (rest.len() > 0 && left == rest.skip(1)));
    assert forall|x: ModuleId| left.contains(x) implies #[trigger] rest.contains(x) by {
        let k = choose|k: int| 0 <= k < left.len() && left[k] == x;
        if left != rest {
            assert(rest[k + 1] == x);
        }
    }
    targets.to_multiset_ensures();
    rest.to_multiset_ensures();
    assert forall|x: ModuleId| rest.contains(x) implies #[trigger] targets.contains(x) by {
        assert(rest.to_multiset().count(x) > 0);
        assert(targets.to_multiset().count(x) > 0);
    }
}

proof fn lemma_has_first_import(items: Seq<ModuleItem>, path: Word, k: int)
    requires
        0 <= k < items.len(),
        imports_from(items[k], path),
    ensures
        exists|l: int| is_first_import(items, path, l),
    decreases k,
{
    if exists|j: int| 0 <= j < k && imports_from(#[trigger] items[j], path) {
        let j = choose|j: int| 0 <= j < k && imports_from(#[trigger] items[j], path);
        lemma_has_first_import(items, path, j);
    } else {
        assert(is_first_import(items, path, k));
    }
}

/// What injected items declare is declared where they are injected.
proof fn lemma_injected_declares(
    items: Run<ModuleItem>,
    imported: Run<ModuleItem>,
    path: Word,
    id: Id,
)
    requires
        any_imports_from(items, path),
        any_declares(imported, id),
    ensures
        any_declares(injected(items, imported, path), id),
{
    lemma_any_imports_from_view(items, path);
    let k = choose|k: int| 0 <= k < items@.len() && imports_from(#[trigger] items@[k], path);
    lemma_has_first_import(items@, path, k);
    let l = choose|l: int| is_first_import(items@, path, l);
    law_injected_in_place_of_import(items, imported, path, l);
    let i = choose|i: int| 0 <= i < imported@.len() && declares(#[trigger] imported@[i], id);
    assert(injected(items, imported, path)@[l + i] == imported@[i]);
}

/// Once a dependency is merged, every use in the importer of a name that it
/// takes from the dependency has the name of a declaration in the importer,
/// unless the name is hidden where it is used.
///
/// This is so for the first import that the importer has of the dependency, if
/// there is an import statement for it, and for the first of several specifiers
/// that take the same export.
pub proof fn law_merged_import_is_connected(
    b: Bundler,
    dep: Module,
    frame: Frame,
    i: int,
    k: int,
    j: int,
)
    requires
        b.is_at_module(frame),
        is_first_import_of(
            b.info(frame).imports@,
            b.import(frame).source.module_id,
            frame.next as int,
        ),
        any_imports_from(b.marked_entry(frame).body, b.import(frame).source.src.value),
        0 <= k < b.import(frame).specifiers@.len(),
        taker(
            b.import(frame).specifiers@,
            b.import(frame).specifiers@[k].spec_foreign().sym,
        ) == Some(b.import(frame).specifiers@[k]),
        0 <= i < dep.body@.len(),
        exports_value(dep.body@[i], b.import(frame).specifiers@[k].spec_foreign().sym),
        0 <= j < uses_items(Seq::empty(), frame.module.body).len(),
        uses_items(Seq::empty(), frame.module.body)[j].ident.spec_id() == b.import(
            frame,
        ).specifiers@[k].spec_local(),
        !uses_items(Seq::empty(), frame.module.body)[j].hidden.contains(
            b.import(frame).specifiers@[k].spec_local(),
        ),
    ensures
        uses_items(Seq::empty(), b.marked_entry(frame).body).len() == uses_items(
            Seq::empty(),
            frame.module.body,
        ).len(),
        any_declares(
            b.spliced_module(dep, frame).body,
            uses_items(Seq::empty(), b.marked_entry(frame).body)[j].ident.spec_id(),
        ),
{
    let imports = b.info(frame).imports@;
    let id = b.import(frame).source.module_id;
    let first = choose|l: int| is_first_import_of(imports, id, l);
    assert(is_first_import_of(imports, id, first));
    assert(first == frame.next);
    let used = uses_items(Seq::empty(), frame.module.body)[j];
    let marked = marked_ident(b.local_marking(frame), used.hidden, used.ident);
    law_marking_marks_each_use(b.local_marking(frame), Seq::empty(), frame.module);
    assert(uses_items(Seq::empty(), b.marked_entry(frame).body)[j].ident == marked);
    let r = Renaming { mark: b.imported(frame).mark@, imports: b.first_specifiers(frame) };
    law_use_is_declared(r, dep.body, i, k, used.hidden, used.ident);
    lemma_injected_declares(
        b.marked_entry(frame).body,
        b.stripped_dep(dep, frame).body,
        b.import(frame).source.src.value,
        marked.spec_id(),
    );
}

/// Once a dependency is merged, the importer has no import of its path any
/// longer, unless the dependency brings one along.
pub proof fn law_merged_import_is_gone(b: Bundler, dep: Module, frame: Frame)
    requires
        b.is_at_module(frame),
        !any_imports_from(
            b.stripped_dep(dep, frame).body,
            b.import(frame).source.src.value,
        ),
    ensures
        !any_imports_from(
            b.spliced_module(dep, frame).body,
            b.import(frame).source.src.value,
        ),
{
    law_injected_leaves_no_import(
        b.marked_entry(frame).body,
        b.stripped_dep(dep, frame).body,
        b.import(frame).source.src.value,
    );
}

/// Where injected items come from.
proof fn lemma_injected_from(
    items: Run<ModuleItem>,
    imported: Run<ModuleItem>,
    path: Word,
    item: ModuleItem,
)
    requires
        injected(items, imported, path)@.contains(item),
    ensures
        items@.contains(item) || imported@.contains(item),
    decreases items,
{
    match items {
        Run::Empty => {},
        Run::One(x) => {},
        Run::Join(a, b) => {
            let left = if any_imports_from(*a, path) {
                Run::Empty
            } else {
                imported
            };
            let (x, y) = (injected(*a, imported, path)@, injected(*b, left, path)@);
            let k = choose|k: int| 0 <= k < (x + y).len() && (x + y)[k] == item;
            if k < x.len() {
                assert(x[k] == item);
                lemma_injected_from(*a, imported, path, item);
            } else {
                assert(y[k - x.len()] == item);
                lemma_injected_from(*b, left, path, item);
            }
            if a@.contains(item) {
                let l = choose|l: int| 0 <= l < a@.len() && a@[l] == item;
                assert(items@[l] == item);
            }
            if b@.contains(item) {
                let l = choose|l: int| 0 <= l < b@.len() && b@[l] == item;
                assert(items@[a@.len() + l] == item);
            }
        },
    }
}

/// Merging a dependency adds no export: what the importer exports afterwards
/// are items of its own.
pub proof fn law_merge_adds_no_export(b: Bundler, dep: Module, frame: Frame, item: ModuleItem)
    requires
        b.is_at_module(frame),
        can_unexport_all(dep.body),
        b.spliced_module(dep, frame).body@.contains(item),
        is_export(item),
    ensures
        b.marked_entry(frame).body@.contains(item),
{
    let r = Renaming { mark: b.imported(frame).mark@, imports: b.first_specifiers(frame) };
    let renamed = b.renamed_dep(dep, frame).body;
    law_renaming_keeps_unexportable(r, dep.body);
    law_unexported_exports_nothing(renamed);
    lemma_injected_from(
        b.marked_entry(frame).body,
        unexported_items(renamed),
        b.import(frame).source.src.value,
        item,
    );
}

/// An import that is merged already leaves no import statement of its module
/// behind.
pub proof fn law_skipped_import_is_gone(b: Bundler, frame: Frame, k: int)
    requires
        b.is_at_import(frame),
        0 <= k < b.skipped(frame).body@.len(),
    ensures
        stays(
            b.info(frame).imports@,
            b.import(frame).source.module_id,
            b.skipped(frame).body@[k],
        ),
{
    let id = b.import(frame).source.module_id;
    let body = if b.scope.lookup(id) is Some {
        marked_module(
            b.local_marking(frame),
            Seq::empty(),
            frame.module,
        ).body
    } else {
        frame.module.body
    };
    law_dropped_imports_are_gone(b.info(frame).imports@, id, body, k);
}

/// Whether a dependency can be stripped of its exports depends on these alone,
/// not on the importer. If it cannot, the merge does not go on.
pub proof fn law_unsupported_export_is_a_fault(
    b: Bundler,
    dep: Module,
    frame: Frame,
    targets: Seq<ModuleId>,
    stack: Stack,
)
    requires
        b.is_at_module(frame),
    ensures
        can_unexport_all(b.renamed_dep(dep, frame).body) == can_unexport_all(dep.body),
        !can_unexport_all(dep.body) ==> b.dep_spliced(dep, frame, targets, stack) == (
            Step::Aborted(Fault::UnsupportedExport(b.import(frame).source.module_id)),
            targets,
        ),
{
    let r = Renaming { mark: b.imported(frame).mark@, imports: b.first_specifiers(frame) };
    law_renaming_keeps_unexportable(r, dep.body);
    b.scope.lemma_lookup(b.import(frame).source.module_id);
}

} // verus!
