//! Merging of the modules of a chunk into its entry.
//!
//! Merging needs work that is done elsewhere in a bundler: merging of circular
//! modules, of re-exports and of CommonJS modules, and tree shaking. So it runs
//! in steps. [`Bundler::merge_modules`] takes the first, and each [`Step`] that
//! asks for such work names the method that goes on with its result.
use crate::export_renamer::{renamed_module, ExportRenamer, Renaming};
use crate::hygiene::Mark;
use crate::injector::{any_imports_from, injected, Es6ModuleInjector};
use crate::local_marker::{marked_module, LocalMarker, Marking};
use crate::scope::{
    contains, drop_imports, remove_first, without_first, without_imports, Import, ModuleInfo, Scope,
};
use crate::specifier::{ModuleId, Specifier};
use crate::syntax::{Id, Module, Word};
use crate::unexporter::{can_unexport_all, supports, unexported_items, Unexporter};
use vstd::prelude::*;

verus! {

/// An error of the work that is done elsewhere, by the number under which it
/// is kept there.
#[derive(Clone, Copy, Debug, PartialEq, Eq, Structural)]
pub struct StageError(pub u64);

/// Why a merge failed.
#[derive(Debug, PartialEq, Eq)]
pub enum MergeError {
    Stage(StageError),
    /// Re-exports could not be merged.
    Reexports(StageError),
    /// A dependency could not be merged.
    Dependency {
        importer: ModuleId,
        imported: ModuleId,
        /// The path as the import writes it.
        path: Word,
        cause: Box<MergeError>,
    },
}

/// Input that merging cannot handle; the merge must not go on.
#[derive(Clone, Copy, Debug, PartialEq, Eq, Structural)]
pub enum Fault {
    /// The scope has no such module.
    MissingModule(ModuleId),
    /// A namespace is accessed with a computed key.
    NamespaceImport {
        importer: ModuleId,
        imported: ModuleId,
    },
    /// The module has an export that cannot be undone.
    UnsupportedExport(ModuleId),
}

/// A module into which its imports are being merged.
#[derive(Debug, PartialEq, Eq)]
pub struct Frame {
    /// Its position in the scope.
    pub at: usize,
    pub is_entry: bool,
    /// The import to merge next.
    pub next: usize,
    /// The module as far as it is merged.
    pub module: Module,
}

/// The modules that wait for a dependency to be merged, innermost first.
#[derive(Debug, PartialEq, Eq)]
pub enum Stack {
    Bottom,
    Above(Box<Frame>, Box<Stack>),
}

/// What has to happen next.
#[derive(Debug, PartialEq, Eq)]
pub enum Step {
    /// Nothing: the merge is done.
    Finished(Result<Module, MergeError>),
    /// Nothing: the merge cannot go on.
    Aborted(Fault),
    /// Merge the circular modules of `entry`, then call
    /// [`Bundler::circular_merged`].
    MergeCircular {
        entry: ModuleId,
        stack: Stack,
    },
    /// Merge the re-exports of the module at `at` into `entry`, then call
    /// [`Bundler::reexports_merged`].
    MergeReexports {
        entry: Module,
        at: usize,
        is_entry: bool,
        stack: Stack,
    },
    /// Add the helpers of `imported` to those of the module of `frame`, then
    /// call [`Bundler::helpers_extended`].
    ExtendHelpers {
        imported: ModuleId,
        frame: Frame,
        stack: Stack,
    },
    /// Drop from `dep` what the import that is next in `frame` does not use,
    /// then call [`Bundler::unused_dropped`].
    DropUnused {
        dep: Module,
        frame: Frame,
        stack: Stack,
    },
    /// Merge `dep`, a CommonJS module, into the module of `frame`, then call
    /// [`Bundler::cjs_merged`].
    MergeCjs {
        dep: Module,
        mark: Mark,
        frame: Frame,
        stack: Stack,
    },
    /// Merge `dep`, a transitive dependency, into the module of `frame`, then
    /// call [`Bundler::remaining_merged`].
    MergeRemaining {
        dep: Module,
        mark: Mark,
        frame: Frame,
        stack: Stack,
    },
}

/// Whether the first import of the module `id` stands at position `k`.
pub open spec fn is_first_import_of(imports: Seq<Import>, id: ModuleId, k: int) -> bool {
    &&& 0 <= k < imports.len()
    &&& imports[k].source.module_id == id
    &&& forall|j: int| 0 <= j < k ==> (#[trigger] imports[j]).source.module_id != id
}

/// Whether a list of specifiers holds `import * as name`.
pub open spec fn has_namespace(specifiers: Seq<Specifier>) -> bool {
    exists|i: int| 0 <= i < specifiers.len() && (#[trigger] specifiers[i]) is Namespace
}

fn any_namespace(specifiers: &Vec<Specifier>) -> (r: bool)
    ensures
        r == has_namespace(specifiers@),
{
    let mut i: usize = 0;
    while i < specifiers.len()
        invariant
            i <= specifiers@.len(),
            forall|j: int| 0 <= j < i ==> !((#[trigger] specifiers@[j]) is Namespace),
        decreases specifiers@.len() - i,
    {
        if specifiers[i].is_namespace() {
            return true;
        }
        i += 1;
    }
    false
}

/// The modules of a bundle and how to merge them.
pub struct Bundler<'a> {
    pub globals: &'a swc_common::Globals,
    pub scope: Scope,
    /// Whether `require` is supported.
    pub require: bool,
}

impl<'a> Bundler<'a> {
    /// The module of a frame.
    pub open spec fn info(self, frame: Frame) -> ModuleInfo {
        self.scope.modules@[frame.at as int]
    }

    /// The import that is next in a frame.
    pub open spec fn import(self, frame: Frame) -> Import {
        self.info(frame).imports@[frame.next as int]
    }

    /// The module that the import that is next in a frame names.
    pub open spec fn imported(self, frame: Frame) -> ModuleInfo {
        self.scope.modules@[self.scope.lookup(self.import(frame).source.module_id)->0]
    }

    /// Whether a frame is about a module of the scope.
    pub open spec fn is_frame(self, frame: Frame) -> bool {
        frame.at < self.scope.modules@.len() && frame.next <= self.info(frame).imports.len()
    }

    /// Whether a frame is at one of its imports.
    pub open spec fn is_at_import(self, frame: Frame) -> bool {
        self.is_frame(frame) && frame.next < self.info(frame).imports.len()
    }

    /// Whether a frame is at an import of a module of the scope.
    pub open spec fn is_at_module(self, frame: Frame) -> bool {
        self.is_at_import(frame) && self.scope.lookup(
            self.import(frame).source.module_id,
        ) is Some
    }

    /// Whether every module of the stack waits for a module of the scope.
    pub open spec fn is_stack(self, stack: Stack) -> bool
        decreases stack,
    {
        match stack {
            Stack::Bottom => true,
            Stack::Above(frame, rest) => self.is_at_module(*frame) && self.is_stack(*rest),
        }
    }

    /// Whether the merge can go on from a step.
    pub open spec fn is_step(self, step: Step) -> bool {
        match step {
            Step::Finished(_) => true,
            Step::Aborted(_) => true,
            Step::MergeCircular { entry, stack } => self.is_stack(stack),
            Step::MergeReexports { entry, at, is_entry, stack } => at < self.scope.modules@.len()
                && self.is_stack(stack),
            Step::ExtendHelpers { imported, frame, stack } => self.is_at_module(frame)
                && self.is_stack(stack),
            Step::DropUnused { dep, frame, stack } => self.is_at_module(frame) && self.is_stack(
                stack,
            ),
            Step::MergeCjs { dep, mark, frame, stack } => self.is_at_import(frame)
                && self.is_stack(stack),
            Step::MergeRemaining { dep, mark, frame, stack } => self.is_frame(frame)
                && self.is_stack(stack),
        }
    }

    /// What follows when the module on top is merged, or cannot be: the module
    /// below goes on with it, or fails too.
    pub open spec fn returned(self, result: Result<Module, MergeError>, stack: Stack) -> Step
        decreases stack,
    {
        match stack {
            Stack::Bottom => Step::Finished(result),
            Stack::Above(frame, rest) => match result {
                Ok(dep) => Step::DropUnused { dep, frame: *frame, stack: *rest },
                Err(cause) => self.returned(
                    Err(
                        MergeError::Dependency {
                            importer: self.info(*frame).id,
                            imported: self.import(*frame).source.module_id,
                            path: self.import(*frame).source.src.value,
                            cause: Box::new(cause),
                        },
                    ),
                    *rest,
                ),
            },
        }
    }

    /// The first step of merging `targets` into the module `id`.
    pub open spec fn begun(
        self,
        id: ModuleId,
        is_entry: bool,
        targets: Seq<ModuleId>,
        stack: Stack,
    ) -> Step {
        match self.scope.lookup(id) {
            None => Step::Aborted(Fault::MissingModule(id)),
            Some(i) => {
                let module = self.scope.modules@[i].module;
                if targets.len() == 0 {
                    self.returned(Ok(module), stack)
                } else if self.scope.circular@.contains(id) {
                    Step::MergeCircular { entry: id, stack }
                } else {
                    Step::MergeReexports { entry: module, at: i as usize, is_entry, stack }
                }
            },
        }
    }

    /// How the names that the next import of a frame binds are marked.
    pub open spec fn local_marking(self, frame: Frame) -> Marking {
        Marking {
            mark: self.imported(frame).mark@,
            specifiers: self.import(frame).specifiers@,
            is_export: false,
        }
    }

    /// The module of a frame whose next import is merged already: the imported
    /// names are marked, and the import statements of that module are gone.
    pub open spec fn skipped(self, frame: Frame) -> Module {
        let id = self.import(frame).source.module_id;
        let marked = if self.scope.lookup(id) is Some {
            marked_module(self.local_marking(frame), Seq::empty(), frame.module)
        } else {
            frame.module
        };
        Module {
            body: without_imports(self.info(frame).imports@, id, marked.body),
            ..marked
        }
    }

    /// A frame, past its next import.
    pub open spec fn past_import(frame: Frame, module: Module) -> Frame {
        Frame { next: (frame.next + 1) as usize, module, ..frame }
    }

    /// What follows when all imports of a frame are merged. The entry of the
    /// chunk takes in the targets that are left, the first of them first.
    pub open spec fn imports_merged(self, frame: Frame, targets: Seq<ModuleId>, stack: Stack) -> (
        Step,
        Seq<ModuleId>,
    ) {
        if frame.is_entry && self.require && targets.len() > 0 {
            self.drained(frame, targets, stack)
        } else {
            (self.returned(Ok(frame.module), stack), targets)
        }
    }

    /// The first target that is left is merged next; if none is left, the
    /// module is.
    pub open spec fn drained(self, frame: Frame, targets: Seq<ModuleId>, stack: Stack) -> (
        Step,
        Seq<ModuleId>,
    ) {
        if targets.len() == 0 {
            (self.returned(Ok(frame.module), stack), targets)
        } else {
            match self.scope.lookup(targets[0]) {
                None => (Step::Aborted(Fault::MissingModule(targets[0])), targets),
                Some(i) => (
                    Step::MergeRemaining {
                        dep: self.scope.modules@[i].module,
                        mark: self.scope.modules@[i].mark,
                        frame,
                        stack,
                    },
                    targets.skip(1),
                ),
            }
        }
    }

    /// What follows from the next import of a frame on. Imports of modules that
    /// are no targets are merged already; so long as that takes no work
    /// elsewhere, the import after it follows.
    pub open spec fn visited(self, frame: Frame, targets: Seq<ModuleId>, stack: Stack) -> (
        Step,
        Seq<ModuleId>,
    )
        decreases self.info(frame).imports.len() - frame.next,
    {
        let id = self.import(frame).source.module_id;
        if frame.next >= self.info(frame).imports.len() {
            self.imports_merged(frame, targets, stack)
        } else if !targets.contains(id) {
            let module = self.skipped(frame);
            if !self.require {
                self.visited(Self::past_import(frame, module), targets, stack)
            } else {
                match self.scope.lookup(id) {
                    None => (Step::Aborted(Fault::MissingModule(id)), targets),
                    Some(i) => (
                        Step::MergeCjs {
                            dep: self.scope.modules@[i].module,
                            mark: self.scope.modules@[i].mark,
                            frame: Frame { module, ..frame },
                            stack,
                        },
                        targets,
                    ),
                }
            }
        } else if has_namespace(self.import(frame).specifiers@) {
            (
                Step::Aborted(
                    Fault::NamespaceImport { importer: self.info(frame).id, imported: id },
                ),
                targets,
            )
        } else if self.scope.lookup(id) is None {
            self.visited(Self::past_import(frame, frame.module), targets, stack)
        } else {
            (Step::ExtendHelpers { imported: id, frame, stack }, targets)
        }
    }

    /// What follows when an import of a frame is merged but for the CommonJS
    /// part.
    pub open spec fn spliced(
        self,
        dep: Module,
        frame: Frame,
        targets: Seq<ModuleId>,
        stack: Stack,
    ) -> (Step, Seq<ModuleId>) {
        if self.require {
            (
                Step::MergeCjs { dep, mark: self.imported(frame).mark, frame, stack },
                targets,
            )
        } else {
            self.visited(Self::past_import(frame, frame.module), targets, stack)
        }
    }

    /// The specifiers of the first import that the module of a frame has of the
    /// module that it imports next.
    pub open spec fn first_specifiers(self, frame: Frame) -> Seq<Specifier> {
        let imports = self.info(frame).imports@;
        let id = self.import(frame).source.module_id;
        imports[choose|k: int| is_first_import_of(imports, id, k)].specifiers@
    }

    /// A dependency with its exports renamed for the importer.
    pub open spec fn renamed_dep(self, dep: Module, frame: Frame) -> Module {
        renamed_module(
            Renaming {
                mark: self.imported(frame).mark@,
                imports: self.first_specifiers(frame),
            },
            dep,
        )
    }

    /// The importer, with the names that its next import binds marked.
    pub open spec fn marked_entry(self, frame: Frame) -> Module {
        if self.import(frame).specifiers@.len() > 0 {
            marked_module(self.local_marking(frame), Seq::empty(), frame.module)
        } else {
            frame.module
        }
    }

    /// A dependency with its exports renamed for the importer, and then undone.
    pub open spec fn stripped_dep(self, dep: Module, frame: Frame) -> Module {
        let renamed = self.renamed_dep(dep, frame);
        Module { body: unexported_items(renamed.body), ..renamed }
    }

    /// The importer, with the items of a dependency in the place of its import.
    pub open spec fn spliced_module(self, dep: Module, frame: Frame) -> Module {
        let entry = self.marked_entry(frame);
        let path = self.import(frame).source.src.value;
        Module {
            body: injected(entry.body, self.stripped_dep(dep, frame).body, path),
            ..entry
        }
    }

    /// What follows when what is not used has been dropped from the dependency
    /// `dep`: its exports are renamed and undone, the imported names are marked,
    /// and the items of the dependency take the place of its import. If there
    /// is no such import, the dependency is left to be merged as a CommonJS
    /// module.
    pub open spec fn dep_spliced(
        self,
        dep: Module,
        frame: Frame,
        targets: Seq<ModuleId>,
        stack: Stack,
    ) -> (Step, Seq<ModuleId>) {
        let stripped = self.stripped_dep(dep, frame);
        let module = self.spliced_module(dep, frame);
        let path = self.import(frame).source.src.value;
        if !can_unexport_all(self.renamed_dep(dep, frame).body) {
            (Step::Aborted(Fault::UnsupportedExport(self.imported(frame).id)), targets)
        } else if any_imports_from(self.marked_entry(frame).body, path) || stripped.body@.len()
            == 0 {
            self.visited(Self::past_import(frame, module), targets, stack)
        } else {
            self.spliced(stripped, Frame { module, ..frame }, targets, stack)
        }
    }

    /// What follows when the helpers of the module that a frame imports next
    /// are added: that module is no target any longer, and is merged itself if
    /// it is an ES module.
    pub open spec fn entered(self, frame: Frame, targets: Seq<ModuleId>, stack: Stack) -> (
        Step,
        Seq<ModuleId>,
    ) {
        let id = self.import(frame).source.module_id;
        let targets = without_first(targets, id);
        if self.imported(frame).is_es6 {
            (
                self.begun(
                    id,
                    false,
                    targets,
                    Stack::Above(Box::new(frame), Box::new(stack)),
                ),
                targets,
            )
        } else {
            self.spliced(self.imported(frame).module, frame, targets, stack)
        }
    }

    /// What follows when the re-exports of the module at `at` are merged, or
    /// cannot be: its imports are merged, the first of them first.
    pub open spec fn after_reexports(
        self,
        result: Result<Module, StageError>,
        at: usize,
        is_entry: bool,
        targets: Seq<ModuleId>,
        stack: Stack,
    ) -> (Step, Seq<ModuleId>) {
        match result {
            Ok(module) => self.visited(Frame { at, is_entry, next: 0, module }, targets, stack),
            Err(e) => (self.returned(Err(MergeError::Reexports(e)), stack), targets),
        }
    }

    /// What follows when a CommonJS module is merged, or cannot be.
    pub open spec fn after_cjs(
        self,
        result: Result<Module, StageError>,
        frame: Frame,
        targets: Seq<ModuleId>,
        stack: Stack,
    ) -> (Step, Seq<ModuleId>) {
        match result {
            Ok(module) => self.visited(Self::past_import(frame, module), targets, stack),
            Err(e) => (self.returned(Err(MergeError::Stage(e)), stack), targets),
        }
    }

    /// What follows when a target that was left over is merged, or cannot be.
    /// In the latter case the targets after it are dropped.
    pub open spec fn after_remaining(
        self,
        result: Result<Module, StageError>,
        frame: Frame,
        targets: Seq<ModuleId>,
        stack: Stack,
    ) -> (Step, Seq<ModuleId>) {
        match result {
            Ok(module) => self.drained(Frame { module, ..frame }, targets, stack),
            Err(e) => (self.returned(Err(MergeError::Stage(e)), stack), Seq::empty()),
        }
    }

    proof fn lemma_returned(self, result: Result<Module, MergeError>, stack: Stack)
        requires
            self.is_stack(stack),
        ensures
            self.is_step(self.returned(result, stack)),
        decreases stack,
    {
        match stack {
            Stack::Bottom => {},
            Stack::Above(frame, rest) => match result {
                Ok(_) => {},
                Err(cause) => {
                    let outer = MergeError::Dependency {
                        importer: self.info(*frame).id,
                        imported: self.import(*frame).source.module_id,
                        path: self.import(*frame).source.src.value,
                        cause: Box::new(cause),
                    };
                    self.lemma_returned(Err(outer), *rest);
                },
            },
        }
    }

    fn at_import(&self, frame: &Frame) -> (r: bool)
        ensures
            r == self.is_at_import(*frame),
    {
        frame.at < self.scope.modules.len() && frame.next
            < self.scope.modules[frame.at].imports.len()
    }

    fn at_module(&self, frame: &Frame) -> (r: bool)
        ensures
            r == self.is_at_module(*frame),
    {
        self.at_import(frame) && self.scope.get_module(
            self.scope.modules[frame.at].imports[frame.next].source.module_id,
        ).is_some()
    }

    fn can_wait(&self, stack: &Stack) -> (r: bool)
        ensures
            r == self.is_stack(*stack),
        decreases stack,
    {
        match stack {
            Stack::Bottom => true,
            Stack::Above(frame, rest) => self.at_module(frame) && self.can_wait(rest),
        }
    }

    /// Tells whether the merge can go on from a step. It can from every step
    /// that a method of this bundler has returned.
    pub fn can_resume(&self, step: &Step) -> (r: bool)
        ensures
            r == self.is_step(*step),
    {
        match step {
            Step::Finished(_) => true,
            Step::Aborted(_) => true,
            Step::MergeCircular { entry: _, stack } => self.can_wait(stack),
            Step::MergeReexports { entry: _, at, is_entry: _, stack } => *at
                < self.scope.modules.len() && self.can_wait(stack),
            Step::ExtendHelpers { imported: _, frame, stack } => self.at_module(frame)
                && self.can_wait(stack),
            Step::DropUnused { dep: _, frame, stack } => self.at_module(frame) && self.can_wait(
                stack,
            ),
            Step::MergeCjs { dep: _, mark: _, frame, stack } => self.at_import(frame)
                && self.can_wait(stack),
            Step::MergeRemaining { dep: _, mark: _, frame, stack } => frame.at
                < self.scope.modules.len() && frame.next
                <= self.scope.modules[frame.at].imports.len() && self.can_wait(stack),
        }
    }

    fn give_back(&self, result: Result<Module, MergeError>, stack: Stack) -> (r: Step)
        requires
            self.is_stack(stack),
        ensures
            r == self.returned(result, stack),
            self.is_step(r),
        decreases stack,
    {
        proof {
            self.lemma_returned(result, stack);
        }
        match stack {
            Stack::Bottom => Step::Finished(result),
            Stack::Above(frame, rest) => match result {
                Ok(dep) => Step::DropUnused { dep, frame: *frame, stack: *rest },
                Err(cause) => {
                    let info = &self.scope.modules[frame.at];
                    let source = info.imports[frame.next].source;
                    let outer = MergeError::Dependency {
                        importer: info.id,
                        imported: source.module_id,
                        path: source.src.value,
                        cause: Box::new(cause),
                    };
                    self.give_back(Err(outer), *rest)
                },
            },
        }
    }

    fn begin(
        &self,
        id: ModuleId,
        is_entry: bool,
        targets: &Vec<ModuleId>,
        stack: Stack,
    ) -> (r: Step)
        requires
            self.is_stack(stack),
        ensures
            r == self.begun(id, is_entry, targets@, stack),
            self.is_step(r),
    {
        let is_circular = self.scope.is_circular(id);
        match self.scope.get_module(id) {
            None => Step::Aborted(Fault::MissingModule(id)),
            Some(at) => {
                let module = self.scope.modules[at].module.clone();
                if targets.len() == 0 {
                    self.give_back(Ok(module), stack)
                } else if is_circular {
                    Step::MergeCircular { entry: id, stack }
                } else {
                    Step::MergeReexports { entry: module, at, is_entry, stack }
                }
            },
        }
    }

    /// Merge `targets` into `entry`.
    pub fn merge_modules(&self, entry: ModuleId, is_entry: bool, targets: &Vec<ModuleId>) -> (r:
        Step)
        ensures
            r == self.begun(entry, is_entry, targets@, Stack::Bottom),
            self.is_step(r),
    {
        self.begin(entry, is_entry, targets, Stack::Bottom)
    }

    /// Goes on when circular modules are merged.
    pub fn circular_merged(&self, module: Module, stack: Stack) -> (r: Step)
        requires
            self.is_stack(stack),
        ensures
            r == self.returned(Ok(module), stack),
            self.is_step(r),
    {
        self.give_back(Ok(module), stack)
    }

    fn drain(&self, frame: Frame, targets: &mut Vec<ModuleId>, stack: Stack) -> (r: Step)
        requires
            self.is_frame(frame),
            self.is_stack(stack),
        ensures
            (r, final(targets)@) == self.drained(frame, old(targets)@, stack),
            self.is_step(r),
    {
        if targets.len() == 0 {
            return self.give_back(Ok(frame.module), stack);
        }
        match self.scope.get_module(targets[0]) {
            None => Step::Aborted(Fault::MissingModule(targets[0])),
            Some(i) => {
                targets.remove(0);
                assert(targets@ == old(targets)@.skip(1));
                let info = &self.scope.modules[i];
                Step::MergeRemaining { dep: info.module.clone(), mark: info.mark, frame, stack }
            },
        }
    }

    fn mark_imported(&self, mark: Mark, specifiers: &Vec<Specifier>, module: Module) -> (r: Module)
        ensures
            r == marked_module(
                Marking { mark: mark@, specifiers: specifiers@, is_export: false },
                Seq::empty(),
                module,
            ),
    {
        let excluded: Vec<Id> = Vec::new();
        assert(excluded@ == Seq::<Id>::empty());
        let mut marker = LocalMarker {
            globals: self.globals,
            mark,
            specifiers: specifiers.as_slice(),
            is_export: false,
            excluded,
        };
        marker.fold_module(module)
    }

    fn skip(&self, frame: Frame) -> (r: Frame)
        requires
            self.is_at_import(frame),
        ensures
            r == (Frame { module: self.skipped(frame), ..frame }),
    {
        let Frame { at, is_entry, next, module } = frame;
        let info = &self.scope.modules[at];
        let import = &info.imports[next];
        let id = import.source.module_id;
        let module = match self.scope.get_module(id) {
            Some(i) => {
                let mark = self.scope.modules[i].mark;
                self.mark_imported(mark, &import.specifiers, module)
            },
            None => module,
        };
        let module = Module {
            span: module.span,
            body: drop_imports(&info.imports, id, module.body),
            shebang: module.shebang,
        };
        Frame { at, is_entry, next, module }
    }

    fn visit(&self, from: Frame, targets: &mut Vec<ModuleId>, stack: Stack) -> (r: Step)
        requires
            self.is_frame(from),
            self.is_stack(stack),
        ensures
            (r, final(targets)@) == self.visited(from, old(targets)@, stack),
            self.is_step(r),
    {
        let mut frame = from;
        let info = &self.scope.modules[frame.at];
        while frame.next < info.imports.len()
            invariant
                self.is_frame(frame),
                self.is_stack(stack),
                *info == self.info(frame),
                *targets == *old(targets),
                self.visited(frame, targets@, stack) == self.visited(from, targets@, stack),
            decreases info.imports.len() - frame.next,
        {
            let import = &info.imports[frame.next];
            let id = import.source.module_id;
            let ghost before = frame;
            if !contains(targets, id) {
                frame = self.skip(frame);
                if self.require {
                    return match self.scope.get_module(id) {
                        None => Step::Aborted(Fault::MissingModule(id)),
                        Some(i) => {
                            let dep = &self.scope.modules[i];
                            Step::MergeCjs { dep: dep.module.clone(), mark: dep.mark, frame, stack }
                        },
                    };
                }
            } else if any_namespace(&import.specifiers) {
                return Step::Aborted(
                    Fault::NamespaceImport { importer: info.id, imported: id },
                );
            } else if self.scope.get_module(id).is_some() {
                return Step::ExtendHelpers { imported: id, frame, stack };
            }
            frame.next = frame.next + 1;
            assert(frame == Self::past_import(before, frame.module));
        }
        if frame.is_entry && self.require && targets.len() > 0 {
            self.drain(frame, targets, stack)
        } else {
            self.give_back(Ok(frame.module), stack)
        }
    }

    /// Goes on when the re-exports of the module at `at` are merged.
    pub fn reexports_merged(
        &self,
        result: Result<Module, StageError>,
        at: usize,
        is_entry: bool,
        targets: &mut Vec<ModuleId>,
        stack: Stack,
    ) -> (r: Step)
        requires
            at < self.scope.modules@.len(),
            self.is_stack(stack),
        ensures
            (r, final(targets)@) == self.after_reexports(
                result,
                at,
                is_entry,
                old(targets)@,
                stack,
            ),
            self.is_step(r),
    {
        match result {
            Ok(module) => self.visit(Frame { at, is_entry, next: 0, module }, targets, stack),
            Err(e) => self.give_back(Err(MergeError::Reexports(e)), stack),
        }
    }

    fn splice(
        &self,
        dep: Module,
        mark: Mark,
        frame: Frame,
        targets: &mut Vec<ModuleId>,
        stack: Stack,
    ) -> (r: Step)
        requires
            self.is_at_module(frame),
            self.is_stack(stack),
            mark == self.imported(frame).mark,
        ensures
            (r, final(targets)@) == self.spliced(dep, frame, old(targets)@, stack),
            self.is_step(r),
    {
        if self.require {
            Step::MergeCjs { dep, mark, frame, stack }
        } else {
            let ghost before = frame;
            let Frame { at, is_entry, next, module } = frame;
            let frame = Frame { at, is_entry, next: next + 1, module };
            assert(frame == Self::past_import(before, before.module));
            self.visit(frame, targets, stack)
        }
    }

    /// Goes on when the helpers of the next import of `frame` are added.
    pub fn helpers_extended(
        &self,
        frame: Frame,
        targets: &mut Vec<ModuleId>,
        stack: Stack,
    ) -> (r: Step)
        requires
            self.is_at_module(frame),
            self.is_stack(stack),
        ensures
            (r, final(targets)@) == self.entered(frame, old(targets)@, stack),
            self.is_step(r),
    {
        let id = self.scope.modules[frame.at].imports[frame.next].source.module_id;
        remove_first(targets, id);
        match self.scope.get_module(id) {
            Some(i) => {
                let imported = &self.scope.modules[i];
                if imported.is_es6 {
                    self.begin(id, false, targets, Stack::Above(Box::new(frame), Box::new(stack)))
                } else {
                    self.splice(imported.module.clone(), imported.mark, frame, targets, stack)
                }
            },
            None => Step::Aborted(Fault::MissingModule(id)),
        }
    }

    fn find_specifiers(&self, frame: &Frame) -> (r: &Vec<Specifier>)
        requires
            self.is_at_import(*frame),
        ensures
            r@ == self.first_specifiers(*frame),
    {
        let info = &self.scope.modules[frame.at];
        let id = info.imports[frame.next].source.module_id;
        let mut k: usize = 0;
        while k < frame.next && info.imports[k].source.module_id != id
            invariant
                k <= frame.next < info.imports.len(),
                forall|j: int|
                    0 <= j < k ==> (#[trigger] info.imports@[j]).source.module_id != id,
            decreases frame.next - k,
        {
            k += 1;
        }
        proof {
            assert(is_first_import_of(info.imports@, id, k as int));
            let l = choose|l: int| is_first_import_of(info.imports@, id, l);
            assert(is_first_import_of(info.imports@, id, l));
            assert(l == k);
        }
        &info.imports[k].specifiers
    }

    /// Goes on when what is not used has been dropped from the dependency
    /// `dep`.
    pub fn unused_dropped(
        &self,
        dep: Module,
        frame: Frame,
        targets: &mut Vec<ModuleId>,
        stack: Stack,
    ) -> (r: Step)
        requires
            self.is_at_module(frame),
            self.is_stack(stack),
        ensures
            (r, final(targets)@) == self.dep_spliced(dep, frame, old(targets)@, stack),
            self.is_step(r),
    {
        let ghost before = frame;
        let info = &self.scope.modules[frame.at];
        let import = &info.imports[frame.next];
        let imported = match self.scope.get_module(import.source.module_id) {
            Some(i) => &self.scope.modules[i],
            None => {
                return Step::Aborted(Fault::MissingModule(import.source.module_id));
            },
        };
        let renamer = ExportRenamer {
            globals: self.globals,
            mark: imported.mark,
            imports: self.find_specifiers(&frame).as_slice(),
        };
        let renamed = renamer.fold_module(dep);
        if !supports(&renamed.body) {
            return Step::Aborted(Fault::UnsupportedExport(imported.id));
        }
        let mut unexporter = Unexporter;
        let dep = unexporter.fold_module(renamed);
        let Frame { at, is_entry, next, module } = frame;
        let entry = if import.specifiers.len() > 0 {
            self.mark_imported(imported.mark, &import.specifiers, module)
        } else {
            module
        };
        assert(entry == self.marked_entry(before));
        let Module { span, body, shebang } = entry;
        let mut body = body;
        let mut injector = Es6ModuleInjector {
            imported: dep.clone().body,
            src: import.source.src,
        };
        injector.visit_mut_module_items(&mut body);
        let module = Module { span, body, shebang };
        if injector.imported.is_empty() {
            let frame = Frame { at, is_entry, next: next + 1, module };
            assert(frame == Self::past_import(before, module));
            self.visit(frame, targets, stack)
        } else {
            self.splice(dep, imported.mark, Frame { at, is_entry, next, module }, targets, stack)
        }
    }

    /// Goes on when a CommonJS module is merged into the module of `frame`.
    pub fn cjs_merged(
        &self,
        result: Result<Module, StageError>,
        frame: Frame,
        targets: &mut Vec<ModuleId>,
        stack: Stack,
    ) -> (r: Step)
        requires
            self.is_at_import(frame),
            self.is_stack(stack),
        ensures
            (r, final(targets)@) == self.after_cjs(result, frame, old(targets)@, stack),
            self.is_step(r),
    {
        match result {
            Ok(module) => {
                let next: usize = frame.next + 1;
                let merged = Frame { at: frame.at, is_entry: frame.is_entry, next, module };
                assert(merged == Self::past_import(frame, module));
                self.visit(merged, targets, stack)
            },
            Err(e) => self.give_back(Err(MergeError::Stage(e)), stack),
        }
    }

    /// Goes on when a target that was left over is merged into the module of
    /// `frame`.
    pub fn remaining_merged(
        &self,
        result: Result<Module, StageError>,
        frame: Frame,
        targets: &mut Vec<ModuleId>,
        stack: Stack,
    ) -> (r: Step)
        requires
            self.is_frame(frame),
            self.is_stack(stack),
        ensures
            (r, final(targets)@) == self.after_remaining(result, frame, old(targets)@, stack),
            self.is_step(r),
    {
        match result {
            Ok(module) => {
                let Frame { at, is_entry, next, module: _ } = frame;
                let frame = Frame { at, is_entry, next, module };
                self.drain(frame, targets, stack)
            },
            Err(e) => {
                targets.clear();
                self.give_back(Err(MergeError::Stage(e)), stack)
            },
        }
    }
}

} // verus!
