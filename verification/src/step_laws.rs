//! What each step of a merge does, situation by situation.
use crate::connection::law_renaming_keeps_unexportable;
use crate::events::{
    concerns, erased_item, events_item, is_hidden, law_unhidden_use_is_marked, Event,
};
use crate::export_renamer::{renamed_items, Renaming};
use crate::hygiene::{Span, SyntaxContext};
use crate::injector::law_import_is_replaced_by_all_items;
use crate::local_marker::{marked_items, Marking};
use crate::marking_laws::{law_marked_in_order, law_marking_without_specifiers};
use crate::merge::{is_first_import_of, Bundler, Fault, Frame, MergeError, Stack, StageError, Step};
use crate::merge_laws::law_unsupported_export_is_a_fault;
use crate::run::Run;
use crate::scope::{
    law_first_occurrence_goes, law_import_statements_are_dropped, Import, ModuleInfo,
};
use crate::specifier::ModuleId;
use crate::syntax::{Id, Ident, Module, ModuleDecl, ModuleItem, Word};
use crate::unexporter::{can_unexport_all, unexported_items};
use vstd::prelude::*;

verus! {

/// Whether the module at `i` is the one of the id `id`.
pub open spec fn is_module(b: Bundler, id: ModuleId, i: int) -> bool {
    &&& 0 <= i < b.scope.modules@.len()
    &&& b.scope.modules@[i].id == id
    &&& forall|j: int| 0 <= j < i ==> (#[trigger] b.scope.modules@[j]).id != id
}

/// Whether no module has the id `id`.
pub open spec fn is_no_module(b: Bundler, id: ModuleId) -> bool {
    forall|j: int| 0 <= j < b.scope.modules@.len() ==> (#[trigger] b.scope.modules@[j]).id != id
}

/// Whether a frame is of the module `info`, at its import `import`.
pub open spec fn is_at(b: Bundler, frame: Frame, info: ModuleInfo, import: Import) -> bool {
    &&& frame.at < b.scope.modules@.len()
    &&& b.scope.modules@[frame.at as int] == info
    &&& frame.next < info.imports@.len()
    &&& info.imports@[frame.next as int] == import
}

/// The frame with another module in it.
pub open spec fn holding(frame: Frame, module: Module) -> Frame {
    Frame { at: frame.at, is_entry: frame.is_entry, next: frame.next, module }
}

/// The frame with another module in it, at the import after its next one.
pub open spec fn going_on(frame: Frame, module: Module) -> Frame {
    Frame { at: frame.at, is_entry: frame.is_entry, next: (frame.next + 1) as usize, module }
}

/// The items of an importer with the names that an import binds marked for the
/// module `imported`.
pub open spec fn marked_for(
    imported: ModuleInfo,
    import: Import,
    items: Run<ModuleItem>,
) -> Run<ModuleItem> {
    marked_items(
        Marking {
            mark: imported.mark@,
            specifiers: import.specifiers@,
            is_export: false,
        },
        Seq::empty(),
        items,
    )
}

/// Whether an item is an import statement of the path `path`.
pub open spec fn is_import_of_path(item: ModuleItem, path: Word) -> bool {
    item matches ModuleItem::ModuleDecl(ModuleDecl::Import(import)) && import.src.value == path
}

/// Whether the first import statement of the path stands at `k`; at the end, if
/// there is none.
pub open spec fn is_first_statement(items: Seq<ModuleItem>, path: Word, k: int) -> bool {
    &&& 0 <= k <= items.len()
    &&& forall|j: int| 0 <= j < k ==> !is_import_of_path(#[trigger] items[j], path)
    &&& k < items.len() ==> is_import_of_path(items[k], path)
}

proof fn lemma_found(b: Bundler, id: ModuleId, i: int)
    requires
        is_module(b, id, i),
    ensures
        b.scope.lookup(id) == Some(i),
        i < b.scope.modules.len(),
{
    b.scope.law_lookup_by_id(id, i);
}

proof fn lemma_not_found(b: Bundler, id: ModuleId)
    requires
        is_no_module(b, id),
    ensures
        b.scope.lookup(id) is None,
{
    b.scope.law_lookup_by_id(id, b.scope.modules@.len() as int);
}

/// Merging starts with the module of the id. With no target it is merged as it is;
/// a circular one goes to the stage for circular modules, and any other to the
/// stage for re-exports, as it stands in the scope. No module of the id is a fault.
pub proof fn law_merge_starts(
    b: Bundler,
    id: ModuleId,
    i: int,
    is_entry: bool,
    targets: Seq<ModuleId>,
    stack: Stack,
)
    ensures
        is_no_module(b, id) ==> b.begun(id, is_entry, targets, stack) == Step::Aborted(
            Fault::MissingModule(id),
        ),
        is_module(b, id, i) && targets.len() == 0 ==> b.begun(id, is_entry, targets, stack)
            == b.returned(Ok(b.scope.modules@[i].module), stack),
        is_module(b, id, i) && targets.len() > 0 && b.scope.circular@.contains(id) ==> b.begun(
            id,
            is_entry,
            targets,
            stack,
        ) == (Step::MergeCircular { entry: id, stack }),
        is_module(b, id, i) && targets.len() > 0 && !b.scope.circular@.contains(id) ==> b.begun(
            id,
            is_entry,
            targets,
            stack,
        ) == (Step::MergeReexports {
            entry: b.scope.modules@[i].module,
            at: i as usize,
            is_entry,
            stack,
        }) && (i as usize) as int == i,
{
    if is_no_module(b, id) {
        lemma_not_found(b, id);
    }
    if is_module(b, id, i) {
        lemma_found(b, id, i);
    }
}

/// A module that is merged is the result if none waits for it. Else it goes, as it
/// is, to tree shaking for the module that waits for it, which is then on top.
pub proof fn law_merged_module_goes_to_its_importer(
    b: Bundler,
    module: Module,
    frame: Frame,
    rest: Stack,
)
    ensures
        b.returned(Ok(module), Stack::Bottom) == Step::Finished(Ok(module)),
        b.returned(Ok(module), Stack::Above(Box::new(frame), Box::new(rest))) == (
        Step::DropUnused { dep: module, frame, stack: rest }),
{
}

/// A failure passes through each module that waits, which adds its import to it.
pub proof fn law_failure_passes_through(
    b: Bundler,
    error: MergeError,
    frame: Frame,
    rest: Stack,
    info: ModuleInfo,
    import: Import,
)
    requires
        is_at(b, frame, info, import),
    ensures
        b.returned(Err(error), Stack::Bottom) == Step::Finished(Err(error)),
        b.returned(Err(error), Stack::Above(Box::new(frame), Box::new(rest))) == b.returned(
            Err(
                MergeError::Dependency {
                    importer: info.id,
                    imported: import.source.module_id,
                    path: import.source.src.value,
                    cause: Box::new(error),
                },
            ),
            rest,
        ),
{
    reveal_with_fuel(Bundler::returned, 2);
}

/// When the re-exports are merged, the imports of the module are dealt with from
/// the first on. If they could not be, the merge fails for that reason.
pub proof fn law_after_reexports(
    b: Bundler,
    at: usize,
    is_entry: bool,
    targets: Seq<ModuleId>,
    stack: Stack,
    module: Module,
    error: StageError,
)
    ensures
        b.after_reexports(Ok(module), at, is_entry, targets, stack) == b.visited(
            Frame { at, is_entry, next: 0, module },
            targets,
            stack,
        ),
        b.after_reexports(Err(error), at, is_entry, targets, stack) == (
            b.returned(Err(MergeError::Reexports(error)), stack),
            targets,
        ),
{
}

/// When a CommonJS module is merged, the import after it is dealt with, in the
/// module that the stage gave back. If it could not be, the merge fails for that
/// reason.
pub proof fn law_after_cjs(
    b: Bundler,
    frame: Frame,
    targets: Seq<ModuleId>,
    stack: Stack,
    module: Module,
    error: StageError,
)
    ensures
        b.after_cjs(Ok(module), frame, targets, stack) == b.visited(
            going_on(frame, module),
            targets,
            stack,
        ),
        b.after_cjs(Err(error), frame, targets, stack) == (
            b.returned(Err(MergeError::Stage(error)), stack),
            targets,
        ),
{
}

/// The targets that are left over are merged one by one, the first first, each as
/// it stands in the scope and with its mark. When none is left, the module is
/// merged. If one fails, the merge fails for that reason, and the others are
/// dropped.
pub proof fn law_left_over_targets(
    b: Bundler,
    frame: Frame,
    targets: Seq<ModuleId>,
    stack: Stack,
    module: Module,
    error: StageError,
    i: int,
)
    ensures
        targets.len() == 0 ==> b.after_remaining(Ok(module), frame, targets, stack) == (
            b.returned(Ok(module), stack),
            targets,
        ),
        targets.len() > 0 && is_module(b, targets[0], i) ==> b.after_remaining(
            Ok(module),
            frame,
            targets,
            stack,
        ) == (
            Step::MergeRemaining {
                dep: b.scope.modules@[i].module,
                mark: b.scope.modules@[i].mark,
                frame: holding(frame, module),
                stack,
            },
            targets.drop_first(),
        ),
        targets.len() > 0 && is_no_module(b, targets[0]) ==> b.after_remaining(
            Ok(module),
            frame,
            targets,
            stack,
        ) == (Step::Aborted(Fault::MissingModule(targets[0])), targets),
        b.after_remaining(Err(error), frame, targets, stack) == (
            b.returned(Err(MergeError::Stage(error)), stack),
            Seq::<ModuleId>::empty(),
        ),
{
    if targets.len() > 0 {
        assert(targets.skip(1) == targets.drop_first());
        if is_module(b, targets[0], i) {
            lemma_found(b, targets[0], i);
        }
        if is_no_module(b, targets[0]) {
            lemma_not_found(b, targets[0]);
        }
    }
}

/// When all imports of a module are dealt with, the entry of the chunk goes on with
/// the targets that are left over if `require` is supported. Any other module is
/// merged.
pub proof fn law_all_imports_dealt_with(
    b: Bundler,
    frame: Frame,
    targets: Seq<ModuleId>,
    stack: Stack,
)
    requires
        frame.at < b.scope.modules@.len(),
        frame.next >= b.scope.modules@[frame.at as int].imports@.len(),
    ensures
        frame.is_entry && b.require ==> b.visited(frame, targets, stack) == b.after_remaining(
            Ok(frame.module),
            frame,
            targets,
            stack,
        ),
        !(frame.is_entry && b.require) ==> b.visited(frame, targets, stack) == (
            b.returned(Ok(frame.module), stack),
            targets,
        ),
{
    assert(holding(frame, frame.module) == frame);
}

/// The module of a frame once an import that is merged already is dealt with: the
/// names that it binds are marked for the imported module, and the import
/// statements of that module are gone. This is so for the entry of the chunk and
/// for every dependency.
pub open spec fn is_dealt_with(
    before: Module,
    after: Module,
    info: ModuleInfo,
    import: Import,
    imported: ModuleInfo,
) -> bool {
    &&& after.span == before.span
    &&& after.shebang == before.shebang
    &&& after.body@ == marked_for(imported, import, before.body)@.filter(
        |item: ModuleItem|
            !(item matches ModuleItem::ModuleDecl(ModuleDecl::Import(statement)) && exists|k: int|
                0 <= k < info.imports@.len() && (#[trigger] info.imports@[k]).source.module_id
                    == import.source.module_id && info.imports@[k].source.src == statement.src),
    )
}

/// An import of a module that is no target is merged already. The uses of its names
/// are marked for that module and its import statements are dropped, in whatever
/// module is being merged. With `require` the CommonJS stage follows, and without
/// it the next import.
pub proof fn law_import_merged_already(
    b: Bundler,
    frame: Frame,
    targets: Seq<ModuleId>,
    stack: Stack,
    info: ModuleInfo,
    import: Import,
    i: int,
)
    requires
        is_at(b, frame, info, import),
        is_module(b, import.source.module_id, i),
        !targets.contains(import.source.module_id),
    ensures
        exists|module: Module|
            #![trigger is_dealt_with(frame.module, module, info, import, b.scope.modules@[i])]
            is_dealt_with(frame.module, module, info, import, b.scope.modules@[i]) && b.visited(
                frame,
                targets,
                stack,
            ) == (if b.require {
                (
                    Step::MergeCjs {
                        dep: b.scope.modules@[i].module,
                        mark: b.scope.modules@[i].mark,
                        frame: holding(frame, module),
                        stack,
                    },
                    targets,
                )
            } else {
                b.visited(going_on(frame, module), targets, stack)
            }),
{
    let id = import.source.module_id;
    lemma_found(b, id, i);
    let module = b.skipped(frame);
    law_import_statements_are_dropped(
        info.imports@,
        id,
        marked_for(b.scope.modules@[i], import, frame.module.body),
    );
    assert(is_dealt_with(frame.module, module, info, import, b.scope.modules@[i]));
    assert(b.visited(frame, targets, stack) == (if b.require {
        (
            Step::MergeCjs {
                dep: b.scope.modules@[i].module,
                mark: b.scope.modules@[i].mark,
                frame: holding(frame, module),
                stack,
            },
            targets,
        )
    } else {
        b.visited(going_on(frame, module), targets, stack)
    }));
}

/// An import that is no target, of a module that the scope does not have: its import
/// statements are dropped, and nothing is marked. With `require` it is a fault.
pub proof fn law_import_of_nothing(
    b: Bundler,
    frame: Frame,
    targets: Seq<ModuleId>,
    stack: Stack,
    info: ModuleInfo,
    import: Import,
)
    requires
        is_at(b, frame, info, import),
        is_no_module(b, import.source.module_id),
        !targets.contains(import.source.module_id),
    ensures
        b.require ==> b.visited(frame, targets, stack) == (
            Step::Aborted(Fault::MissingModule(import.source.module_id)),
            targets,
        ),
        !b.require ==> exists|module: Module|
            #![trigger going_on(frame, module)]
            module.span == frame.module.span && module.shebang == frame.module.shebang
                && module.body@ == frame.module.body@.filter(
                |item: ModuleItem|
                    !(item matches ModuleItem::ModuleDecl(ModuleDecl::Import(statement)) && exists|
                        k: int,
                    |
                        0 <= k < info.imports@.len() && (
                        #[trigger] info.imports@[k]).source.module_id == import.source.module_id
                            && info.imports@[k].source.src == statement.src),
            ) && b.visited(frame, targets, stack) == b.visited(
                going_on(frame, module),
                targets,
                stack,
            ),
{
    let id = import.source.module_id;
    lemma_not_found(b, id);
    let module = b.skipped(frame);
    law_import_statements_are_dropped(info.imports@, id, frame.module.body);
    assert(!b.require ==> b.visited(frame, targets, stack) == b.visited(
        going_on(frame, module),
        targets,
        stack,
    ));
}

/// An import of a target is merged next, unless it binds a namespace, which is a
/// fault, or the scope does not have the module, and then it is passed over. The
/// module of the frame is not touched yet.
pub proof fn law_import_of_a_target(
    b: Bundler,
    frame: Frame,
    targets: Seq<ModuleId>,
    stack: Stack,
    info: ModuleInfo,
    import: Import,
    i: int,
)
    requires
        is_at(b, frame, info, import),
        targets.contains(import.source.module_id),
    ensures
        ({
            let namespace = exists|k: int|
                0 <= k < import.specifiers@.len() && (
                #[trigger] import.specifiers@[k]) is Namespace;
            let id = import.source.module_id;
            &&& namespace ==> b.visited(frame, targets, stack) == (
                Step::Aborted(Fault::NamespaceImport { importer: info.id, imported: id }),
                targets,
            )
            &&& !namespace && is_no_module(b, id) ==> b.visited(frame, targets, stack) == b.visited(
                going_on(frame, frame.module),
                targets,
                stack,
            )
            &&& !namespace && is_module(b, id, i) ==> b.visited(frame, targets, stack) == (
                Step::ExtendHelpers { imported: id, frame, stack },
                targets,
            )
        }),
{
    let id = import.source.module_id;
    if is_no_module(b, id) {
        lemma_not_found(b, id);
    }
    if is_module(b, id, i) {
        lemma_found(b, id, i);
    }
}

/// A target that is merged is taken out of the targets, once. An ES module is then
/// merged itself, with what is left of the targets, while its importer waits for
/// it as it is. A CommonJS module goes to its stage as it stands in the scope, with
/// its mark, if `require` is supported, and else is passed over.
pub proof fn law_target_is_merged(
    b: Bundler,
    frame: Frame,
    targets: Seq<ModuleId>,
    stack: Stack,
    info: ModuleInfo,
    import: Import,
    i: int,
    t: int,
)
    requires
        is_at(b, frame, info, import),
        is_module(b, import.source.module_id, i),
        0 <= t <= targets.len(),
        t < targets.len() ==> targets[t] == import.source.module_id,
        forall|j: int| 0 <= j < t ==> #[trigger] targets[j] != import.source.module_id,
    ensures
        ({
            let left = if t < targets.len() {
                targets.take(t) + targets.skip(t + 1)
            } else {
                targets
            };
            let imported = b.scope.modules@[i];
            b.entered(frame, targets, stack) == (if imported.is_es6 {
                (
                    b.begun(
                        import.source.module_id,
                        false,
                        left,
                        Stack::Above(Box::new(frame), Box::new(stack)),
                    ),
                    left,
                )
            } else if b.require {
                (
                    Step::MergeCjs { dep: imported.module, mark: imported.mark, frame, stack },
                    left,
                )
            } else {
                b.visited(going_on(frame, frame.module), left, stack)
            })
        }),
{
    lemma_found(b, import.source.module_id, i);
    law_first_occurrence_goes(targets, import.source.module_id, t);
}

/// A dependency is spliced into its importer, whichever import of it this is. What
/// it exports is renamed to the names of the first import that the importer has of
/// it, with its mark, and stripped of `export`. The names that this import binds
/// are marked for it in the importer. Then all its items take the place of the
/// first import statement of the path, where there is one, and the merge goes on
/// with the next import.
pub proof fn law_dependency_takes_the_place_of_its_import(
    b: Bundler,
    dep: Module,
    frame: Frame,
    targets: Seq<ModuleId>,
    stack: Stack,
    info: ModuleInfo,
    import: Import,
    i: int,
    first: int,
    k: int,
)
    requires
        is_at(b, frame, info, import),
        is_module(b, import.source.module_id, i),
        0 <= first < info.imports@.len(),
        info.imports@[first].source.module_id == import.source.module_id,
        forall|j: int|
            0 <= j < first ==> (#[trigger] info.imports@[j]).source.module_id
                != import.source.module_id,
        can_unexport_all(dep.body),
        is_first_statement(
            marked_for(b.scope.modules@[i], import, frame.module.body)@,
            import.source.src.value,
            k,
        ),
        k < marked_for(b.scope.modules@[i], import, frame.module.body)@.len(),
    ensures
        exists|module: Module|
            #![trigger going_on(frame, module)]
            module.span == frame.module.span && module.shebang == frame.module.shebang
                && module.body@ == marked_for(
                b.scope.modules@[i],
                import,
                frame.module.body,
            )@.take(k) + unexported_items(
                renamed_items(
                    Renaming {
                        mark: b.scope.modules@[i].mark@,
                        imports: info.imports@[first].specifiers@,
                    },
                    dep.body,
                ),
            )@ + marked_for(b.scope.modules@[i], import, frame.module.body)@.skip(k + 1).filter(
                |item: ModuleItem| !is_import_of_path(item, import.source.src.value),
            ) && b.dep_spliced(dep, frame, targets, stack) == b.visited(
                going_on(frame, module),
                targets,
                stack,
            ),
{
    let imported = b.scope.modules@[i];
    let path = import.source.src.value;
    lemma_spliced(b, dep, frame, info, import, i, first);
    let entry = b.marked_entry(frame);
    let stripped = b.stripped_dep(dep, frame);
    let module = b.spliced_module(dep, frame);
    law_import_is_replaced_by_all_items(entry.body, stripped.body, path, k);
    let mine = |item: ModuleItem| !is_import_of_path(item, path);
    let other = |item: ModuleItem|
        !(item matches ModuleItem::ModuleDecl(ModuleDecl::Import(import)) && import.src.value
            == path);
    assert(mine =~= other);
    assert(b.dep_spliced(dep, frame, targets, stack) == b.visited(
        going_on(frame, module),
        targets,
        stack,
    ));
}

proof fn lemma_spliced(
    b: Bundler,
    dep: Module,
    frame: Frame,
    info: ModuleInfo,
    import: Import,
    i: int,
    first: int,
)
    requires
        is_at(b, frame, info, import),
        is_module(b, import.source.module_id, i),
        0 <= first < info.imports@.len(),
        info.imports@[first].source.module_id == import.source.module_id,
        forall|j: int|
            0 <= j < first ==> (#[trigger] info.imports@[j]).source.module_id
                != import.source.module_id,
    ensures
        b.imported(frame) == b.scope.modules@[i],
        b.first_specifiers(frame) == info.imports@[first].specifiers@,
        b.marked_entry(frame).body == marked_for(b.scope.modules@[i], import, frame.module.body),
        b.marked_entry(frame).span == frame.module.span,
        b.marked_entry(frame).shebang == frame.module.shebang,
        can_unexport_all(b.renamed_dep(dep, frame).body) == can_unexport_all(dep.body),
{
    lemma_found(b, import.source.module_id, i);
    let id = import.source.module_id;
    assert(is_first_import_of(info.imports@, id, first));
    let l = choose|l: int| is_first_import_of(info.imports@, id, l);
    assert(is_first_import_of(info.imports@, id, l));
    assert(l == first);
    let r = Renaming {
        mark: b.scope.modules@[i].mark@,
        imports: info.imports@[first].specifiers@,
    };
    law_renaming_keeps_unexportable(r, dep.body);
    if import.specifiers@.len() == 0 {
        law_marking_without_specifiers(
            Marking {
                mark: b.scope.modules@[i].mark@,
                specifiers: import.specifiers@,
                is_export: false,
            },
            Seq::empty(),
            frame.module,
        );
    }
}

/// Without an import statement of its path, a dependency that has items goes to the
/// CommonJS stage, renamed and stripped, with its mark, if `require` is supported;
/// the importer has its names marked all the same. A dependency without items, and
/// any without `require`, leaves the importer at that. A dependency that cannot be
/// stripped is a fault.
pub proof fn law_dependency_without_import_statement(
    b: Bundler,
    dep: Module,
    frame: Frame,
    targets: Seq<ModuleId>,
    stack: Stack,
    info: ModuleInfo,
    import: Import,
    i: int,
    first: int,
)
    requires
        is_at(b, frame, info, import),
        is_module(b, import.source.module_id, i),
        0 <= first < info.imports@.len(),
        info.imports@[first].source.module_id == import.source.module_id,
        forall|j: int|
            0 <= j < first ==> (#[trigger] info.imports@[j]).source.module_id
                != import.source.module_id,
        is_first_statement(
            marked_for(b.scope.modules@[i], import, frame.module.body)@,
            import.source.src.value,
            marked_for(
                b.scope.modules@[i],
                import,
                frame.module.body,
            )@.len() as int,
        ),
    ensures
        ({
            let imported = b.scope.modules@[i];
            let stripped = Module {
                span: dep.span,
                body: unexported_items(
                    renamed_items(
                        Renaming {
                            mark: imported.mark@,
                            imports: info.imports@[first].specifiers@,
                        },
                        dep.body,
                    ),
                ),
                shebang: dep.shebang,
            };
            let module = Module {
                span: frame.module.span,
                body: marked_for(imported, import, frame.module.body),
                shebang: frame.module.shebang,
            };
            &&& !can_unexport_all(dep.body) ==> b.dep_spliced(dep, frame, targets, stack) == (
                Step::Aborted(Fault::UnsupportedExport(import.source.module_id)),
                targets,
            )
            &&& can_unexport_all(dep.body) && b.require && stripped.body@.len() > 0
                ==> b.dep_spliced(dep, frame, targets, stack) == (
                Step::MergeCjs {
                    dep: stripped,
                    mark: imported.mark,
                    frame: holding(frame, module),
                    stack,
                },
                targets,
            )
            &&& can_unexport_all(dep.body) && !(b.require && stripped.body@.len() > 0)
                ==> b.dep_spliced(dep, frame, targets, stack) == b.visited(
                going_on(frame, module),
                targets,
                stack,
            )
        }),
{
    let path = import.source.src.value;
    lemma_spliced(b, dep, frame, info, import, i, first);
    let entry = b.marked_entry(frame);
    law_import_is_replaced_by_all_items(
        entry.body,
        b.stripped_dep(dep, frame).body,
        path,
        entry.body@.len() as int,
    );
}

/// A dependency that cannot be stripped of its exports is a fault, with an import
/// statement too.
pub proof fn law_dependency_that_cannot_be_stripped(
    b: Bundler,
    dep: Module,
    frame: Frame,
    targets: Seq<ModuleId>,
    stack: Stack,
    info: ModuleInfo,
    import: Import,
    i: int,
)
    requires
        is_at(b, frame, info, import),
        is_module(b, import.source.module_id, i),
        !can_unexport_all(dep.body),
    ensures
        b.dep_spliced(dep, frame, targets, stack) == (
            Step::Aborted(Fault::UnsupportedExport(import.source.module_id)),
            targets,
        ),
{
    lemma_found(b, import.source.module_id, i);
    law_unsupported_export_is_a_fault(b, dep, frame, targets, stack);
}

/// Whether a module has an item that is `item` but for contexts, and has `event` in
/// the place `p`.
pub open spec fn has_event_at(module: Module, item: ModuleItem, p: int, event: Event) -> bool {
    exists|l: int|
        #![trigger module.body@[l]]
        0 <= l < module.body@.len() && erased_item(module.body@[l]) == erased_item(item)
            && events_item(module.body@[l]).len() == events_item(item).len() && events_item(
            module.body@[l],
        )[p] == event
}

/// When an import is merged already, every use in the importer of a name that it
/// binds, and that nothing hides, has the mark of the imported module when the
/// merge goes on. This is so for the entry of the chunk and for every dependency.
pub proof fn law_uses_of_a_merged_import_are_marked(
    b: Bundler,
    frame: Frame,
    targets: Seq<ModuleId>,
    stack: Stack,
    info: ModuleInfo,
    import: Import,
    i: int,
    j: int,
    p: int,
    k: int,
    ident: Ident,
)
    requires
        is_at(b, frame, info, import),
        is_module(b, import.source.module_id, i),
        !targets.contains(import.source.module_id),
        0 <= j < frame.module.body@.len(),
        !(frame.module.body@[j] matches ModuleItem::ModuleDecl(ModuleDecl::Import(_))),
        0 <= p < events_item(frame.module.body@[j]).len(),
        events_item(frame.module.body@[j])[p] == Event::Use(ident),
        0 <= k < import.specifiers@.len(),
        concerns(
            import.specifiers@[k],
            false,
            Id { sym: ident.sym, ctxt: ident.span.ctxt },
        ),
        !is_hidden(
            frame.module.body@,
            j,
            p,
            Id { sym: ident.sym, ctxt: ident.span.ctxt },
        ),
    ensures
        ({
            let marked = Ident {
                span: Span {
                    lo: ident.span.lo,
                    hi: ident.span.hi,
                    ctxt: SyntaxContext::Marked(b.scope.modules@[i].mark@),
                },
                sym: ident.sym,
                type_ann: ident.type_ann,
                optional: ident.optional,
            };
            exists|module: Module|
                #![trigger going_on(frame, module)]
                #![trigger holding(frame, module)]
                has_event_at(module, frame.module.body@[j], p, Event::Use(marked)) && b.visited(
                    frame,
                    targets,
                    stack,
                ) == (if b.require {
                    (
                        Step::MergeCjs {
                            dep: b.scope.modules@[i].module,
                            mark: b.scope.modules@[i].mark,
                            frame: holding(frame, module),
                            stack,
                        },
                        targets,
                    )
                } else {
                    b.visited(going_on(frame, module), targets, stack)
                })
        }),
{
    let imported = b.scope.modules@[i];
    let items = frame.module.body;
    let m = Marking {
        mark: imported.mark@,
        specifiers: import.specifiers@,
        is_export: false,
    };
    law_import_merged_already(b, frame, targets, stack, info, import, i);
    let module = choose|module: Module|
        #![trigger is_dealt_with(frame.module, module, info, import, imported)]
        is_dealt_with(frame.module, module, info, import, imported) && b.visited(
            frame,
            targets,
            stack,
        ) == (if b.require {
            (
                Step::MergeCjs {
                    dep: imported.module,
                    mark: imported.mark,
                    frame: holding(frame, module),
                    stack,
                },
                targets,
            )
        } else {
            b.visited(going_on(frame, module), targets, stack)
        });
    law_unhidden_use_is_marked(m, items, j, p, k, ident);
    let stays = |item: ModuleItem|
        !(item matches ModuleItem::ModuleDecl(ModuleDecl::Import(statement)) && exists|k: int|
            0 <= k < info.imports@.len() && (#[trigger] info.imports@[k]).source.module_id
                == import.source.module_id && info.imports@[k].source.src == statement.src);
    let marked = marked_items(m, Seq::empty(), items)@;
    assert(!(marked[j] matches ModuleItem::ModuleDecl(ModuleDecl::Import(_)))) by {
        law_marked_in_order(m, Seq::empty(), items, j);
    }
    marked.lemma_filter_contains(stays, j);
    let l = choose|l: int| 0 <= l < module.body@.len() && module.body@[l] == marked[j];
    assert(module.body@[l] == marked[j]);
}

/// Whether a frame is at an import of a module that the scope has.
pub open spec fn is_at_some_module(b: Bundler, frame: Frame) -> bool {
    &&& frame.at < b.scope.modules@.len()
    &&& frame.next < b.scope.modules@[frame.at as int].imports@.len()
    &&& !is_no_module(
        b,
        b.scope.modules@[frame.at as int].imports@[frame.next as int].source.module_id,
    )
}

proof fn lemma_at_module(b: Bundler, frame: Frame)
    ensures
        b.is_at_module(frame) == is_at_some_module(b, frame),
{
    if b.is_at_import(frame) {
        let id = b.import(frame).source.module_id;
        if is_no_module(b, id) {
            lemma_not_found(b, id);
        } else {
            let j = choose|j: int|
                0 <= j < b.scope.modules@.len() && (#[trigger] b.scope.modules@[j]).id == id;
            assert(b.scope.ids()[j] == id);
        }
    }
}

/// A module can wait if it is at an import of a module that the scope has, and so is
/// every module that waits below it.
pub proof fn law_modules_that_can_wait(b: Bundler, frame: Frame, rest: Stack)
    ensures
        b.is_stack(Stack::Bottom),
        b.is_stack(Stack::Above(Box::new(frame), Box::new(rest))) == (is_at_some_module(b, frame)
            && b.is_stack(rest)),
{
    lemma_at_module(b, frame);
}

/// From which steps a merge can go on: the modules that wait can, and the module
/// that is being merged is where the step takes it to be.
pub proof fn law_steps_that_can_go_on(b: Bundler, step: Step)
    ensures
        b.is_step(step) == (match step {
            Step::Finished(_) => true,
            Step::Aborted(_) => true,
            Step::MergeCircular { entry, stack } => b.is_stack(stack),
            Step::MergeReexports { entry, at, is_entry, stack } => at < b.scope.modules@.len()
                && b.is_stack(stack),
            Step::ExtendHelpers { imported, frame, stack } => is_at_some_module(b, frame)
                && b.is_stack(stack),
            Step::DropUnused { dep, frame, stack } => is_at_some_module(b, frame) && b.is_stack(
                stack,
            ),
            Step::MergeCjs { dep, mark, frame, stack } => frame.at < b.scope.modules@.len()
                && frame.next < b.scope.modules@[frame.at as int].imports@.len() && b.is_stack(
                stack,
            ),
            Step::MergeRemaining { dep, mark, frame, stack } => frame.at < b.scope.modules@.len()
                && frame.next <= b.scope.modules@[frame.at as int].imports@.len() && b.is_stack(
                stack,
            ),
        }),
{
    match step {
        Step::ExtendHelpers { imported, frame, stack } => lemma_at_module(b, frame),
        Step::DropUnused { dep, frame, stack } => lemma_at_module(b, frame),
        _ => {},
    }
}

} // verus!
