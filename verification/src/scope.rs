//! The modules of a bundle, and what each imports.
use crate::hygiene::Mark;
use crate::run::Run;
use crate::specifier::{ModuleId, Source, Specifier};
use crate::syntax::{ImportDecl, Module, ModuleDecl, ModuleItem};
use vstd::prelude::*;

verus! {

/// What a module takes from one other module.
#[derive(Debug, PartialEq, Eq)]
pub struct Import {
    pub source: Source,
    pub specifiers: Vec<Specifier>,
}

/// A module that is ready for merging.
#[derive(Debug, PartialEq, Eq)]
pub struct ModuleInfo {
    pub id: ModuleId,
    pub module: Module,
    pub imports: Vec<Import>,
    pub is_es6: bool,
    /// The mark of the names that the module exports.
    pub mark: Mark,
}

/// All modules of a bundle.
#[derive(Debug, PartialEq, Eq)]
pub struct Scope {
    pub modules: Vec<ModuleInfo>,
    /// The modules that import themselves through others.
    pub circular: Vec<ModuleId>,
}

/// Whether `id` stands at position `i` of `ids`, and nowhere before.
pub open spec fn is_first_at(ids: Seq<ModuleId>, id: ModuleId, i: int) -> bool {
    &&& 0 <= i < ids.len()
    &&& ids[i] == id
    &&& forall|j: int| 0 <= j < i ==> #[trigger] ids[j] != id
}

/// The ids without the first occurrence of `id`.
pub open spec fn without_first(ids: Seq<ModuleId>, id: ModuleId) -> Seq<ModuleId> {
    if ids.contains(id) {
        ids.remove(choose|i: int| is_first_at(ids, id, i))
    } else {
        ids
    }
}

/// There is a first occurrence wherever there is one at all.
pub(crate) proof fn lemma_has_first(ids: Seq<ModuleId>, id: ModuleId)
    requires
        ids.contains(id),
    ensures
        exists|i: int| is_first_at(ids, id, i),
    decreases ids.len(),
{
    let i = choose|i: int| 0 <= i < ids.len() && ids[i] == id;
    if ids.take(i).contains(id) {
        lemma_has_first(ids.take(i), id);
        let k = choose|k: int| is_first_at(ids.take(i), id, k);
        assert forall|j: int| 0 <= j < k implies #[trigger] ids[j] != id by {
            assert(ids.take(i)[j] == ids[j]);
        }
        assert(is_first_at(ids, id, k));
    } else {
        assert forall|j: int| 0 <= j < i implies #[trigger] ids[j] != id by {
            assert(ids.take(i)[j] == ids[j]);
        }
        assert(is_first_at(ids, id, i));
    }
}

/// Tells whether `id` is among `ids`.
pub fn contains(ids: &Vec<ModuleId>, id: ModuleId) -> (r: bool)
    ensures
        r == ids@.contains(id),
{
    let mut i: usize = 0;
    while i < ids.len()
        invariant
            i <= ids@.len(),
            forall|j: int| 0 <= j < i ==> ids@[j] != id,
        decreases ids@.len() - i,
    {
        if ids[i] == id {
            return true;
        }
        i += 1;
    }
    false
}

/// Removes the first occurrence of `id`, if there is one.
pub fn remove_first(ids: &mut Vec<ModuleId>, id: ModuleId)
    ensures
        final(ids)@ == without_first(old(ids)@, id),
{
    let mut i: usize = 0;
    while i < ids.len()
        invariant
            i <= ids@.len(),
            ids@ == old(ids)@,
            forall|j: int| 0 <= j < i ==> ids@[j] != id,
        decreases ids@.len() - i,
    {
        if ids[i] == id {
            assert(is_first_at(ids@, id, i as int));
            let ghost k = choose|k: int| is_first_at(ids@, id, k);
            assert(k == i) by {
                assert(is_first_at(ids@, id, k));
            }
            ids.remove(i);
            return ;
        }
        i += 1;
    }
}

/// Taking out the first occurrence of an id that is there makes the list one
/// shorter. If nothing occurs twice in the list, the id is then gone from it,
/// and every other id is where it was among the rest.
pub proof fn law_without_first(ids: Seq<ModuleId>, id: ModuleId)
    requires
        ids.contains(id),
    ensures
        without_first(ids, id).len() == ids.len() - 1,
        without_first(ids, id).to_multiset() == ids.to_multiset().remove(id),
        ids.no_duplicates() ==> !without_first(ids, id).contains(id),
        ids.no_duplicates() ==> without_first(ids, id).no_duplicates(),
{
    lemma_has_first(ids, id);
    let i = choose|i: int| is_first_at(ids, id, i);
    ids.to_multiset_ensures();
    let rest = without_first(ids, id);
    if ids.no_duplicates() {
        assert forall|k: int| 0 <= k < rest.len() implies #[trigger] rest[k] != id by {
            if k >= i {
                assert(rest[k] == ids[k + 1]);
            }
        }
        assert forall|k: int, l: int|
            0 <= k < rest.len() && 0 <= l < rest.len() && k != l implies rest[k] != rest[l] by {
            let k0 = if k < i {
                k
            } else {
                k + 1
            };
            let l0 = if l < i {
                l
            } else {
                l + 1
            };
            assert(rest[k] == ids[k0] && rest[l] == ids[l0]);
        }
    }
}

/// Taking out an id takes out its first occurrence, and leaves the others where
/// they are.
pub proof fn law_first_occurrence_goes(ids: Seq<ModuleId>, id: ModuleId, i: int)
    requires
        0 <= i <= ids.len(),
        forall|j: int| 0 <= j < i ==> #[trigger] ids[j] != id,
        i < ids.len() ==> ids[i] == id,
    ensures
        i < ids.len() ==> without_first(ids, id) == ids.take(i) + ids.skip(i + 1),
        i == ids.len() ==> without_first(ids, id) == ids,
{
    if i < ids.len() {
        assert(is_first_at(ids, id, i));
        let k = choose|k: int| is_first_at(ids, id, k);
        assert(is_first_at(ids, id, k));
        assert(k == i);
        assert(ids.remove(i) == ids.take(i) + ids.skip(i + 1));
    }
}

impl Scope {
    /// A module is looked up by its id: the first that has it is found, and none
    /// only if none has it.
    pub proof fn law_lookup_by_id(self, id: ModuleId, i: int)
        requires
            0 <= i <= self.modules@.len(),
            forall|j: int| 0 <= j < i ==> (#[trigger] self.modules@[j]).id != id,
            i < self.modules@.len() ==> self.modules@[i].id == id,
        ensures
            i < self.modules@.len() ==> self.lookup(id) == Some(i),
            i == self.modules@.len() ==> self.lookup(id) is None,
    {
        let ids = self.ids();
        assert forall|j: int| 0 <= j < i implies #[trigger] ids[j] != id by {
            assert(self.modules@[j].id != id);
        }
        if i < self.modules@.len() {
            assert(ids[i] == id);
            assert(is_first_at(ids, id, i));
            let k = choose|k: int| is_first_at(ids, id, k);
            assert(is_first_at(ids, id, k));
            assert(k == i);
        }
    }

    /// The ids of the modules, in order.
    pub open spec fn ids(self) -> Seq<ModuleId> {
        self.modules@.map_values(|info: ModuleInfo| info.id)
    }

    /// The position of the module `id`.
    pub open spec fn lookup(self, id: ModuleId) -> Option<int> {
        if self.ids().contains(id) {
            Some(choose|i: int| is_first_at(self.ids(), id, i))
        } else {
            None
        }
    }

    /// Tells whether the module `id` imports itself through others.
    pub fn is_circular(&self, id: ModuleId) -> (r: bool)
        ensures
            r == self.circular@.contains(id),
    {
        contains(&self.circular, id)
    }

    /// The position of the module `id`.
    pub fn get_module(&self, id: ModuleId) -> (r: Option<usize>)
        ensures
            match r {
                Some(i) => self.lookup(id) == Some(i as int) && i < self.modules@.len()
                    && self.modules@[i as int].id == id,
                None => self.lookup(id) is None,
            },
    {
        let mut i: usize = 0;
        while i < self.modules.len()
            invariant
                i <= self.modules@.len(),
                forall|j: int| 0 <= j < i ==> self.modules@[j].id != id,
            decreases self.modules@.len() - i,
        {
            if self.modules[i].id == id {
                proof {
                    let ids = self.ids();
                    assert(ids[i as int] == id);
                    assert(is_first_at(ids, id, i as int));
                    let k = choose|k: int| is_first_at(ids, id, k);
                    assert(is_first_at(ids, id, k));
                    assert(k == i);
                }
                return Some(i);
            }
            i += 1;
        }
        proof {
            if self.ids().contains(id) {
                let j = choose|j: int| 0 <= j < self.ids().len() && self.ids()[j] == id;
                assert(self.modules@[j].id == id);
            }
        }
        None
    }

    /// A module that is found is one of the scope, and has the id it was found
    /// by.
    pub proof fn lemma_lookup(self, id: ModuleId)
        ensures
            self.lookup(id) matches Some(i) ==> 0 <= i < self.modules@.len()
                && self.modules@[i].id == id,
    {
        if self.ids().contains(id) {
            lemma_has_first(self.ids(), id);
        }
    }
}

/// Whether an import statement stands for an import of the module `id`.
pub open spec fn stands_for(imports: Seq<Import>, id: ModuleId, import: ImportDecl) -> bool {
    exists|k: int|
        0 <= k < imports.len() && (#[trigger] imports[k]).source.module_id == id
            && imports[k].source.src == import.src
}

/// Whether an item stays when the import statements of the module `id` go.
pub open spec fn stays(imports: Seq<Import>, id: ModuleId, item: ModuleItem) -> bool {
    match item {
        ModuleItem::ModuleDecl(ModuleDecl::Import(import)) => !stands_for(imports, id, import),
        _ => true,
    }
}

/// The items without the import statements of the module `id`.
pub open spec fn without_imports(
    imports: Seq<Import>,
    id: ModuleId,
    items: Run<ModuleItem>,
) -> Run<ModuleItem>
    decreases items,
{
    match items {
        Run::Empty => Run::Empty,
        Run::One(x) => if stays(imports, id, *x) {
            items
        } else {
            Run::Empty
        },
        Run::Join(a, b) => Run::Join(
            Box::new(without_imports(imports, id, *a)),
            Box::new(without_imports(imports, id, *b)),
        ),
    }
}

fn is_for(imports: &Vec<Import>, id: ModuleId, import: &ImportDecl) -> (r: bool)
    ensures
        r == stands_for(imports@, id, *import),
{
    let mut k: usize = 0;
    while k < imports.len()
        invariant
            k <= imports@.len(),
            forall|j: int|
                0 <= j < k ==> !((#[trigger] imports@[j]).source.module_id == id
                    && imports@[j].source.src == import.src),
        decreases imports@.len() - k,
    {
        if imports[k].source.module_id == id && imports[k].source.src == import.src {
            return true;
        }
        k += 1;
    }
    false
}

/// Drops the import statements of the module `id`.
pub fn drop_imports(imports: &Vec<Import>, id: ModuleId, items: Run<ModuleItem>) -> (r: Run<
    ModuleItem,
>)
    ensures
        r == without_imports(imports@, id, items),
        r@ == items@.filter(|item: ModuleItem| stays(imports@, id, item)),
    decreases items,
{
    proof {
        lemma_without_imports_view(imports@, id, items);
    }
    match items {
        Run::Empty => Run::Empty,
        Run::One(x) => {
            let dropped = match &*x {
                ModuleItem::ModuleDecl(ModuleDecl::Import(import)) => is_for(imports, id, import),
                _ => false,
            };
            if dropped {
                Run::Empty
            } else {
                Run::One(x)
            }
        },
        Run::Join(a, b) => {
            let a = drop_imports(imports, id, *a);
            let b = drop_imports(imports, id, *b);
            Run::Join(Box::new(a), Box::new(b))
        },
    }
}

/// Dropping the import statements of a module keeps all other items, in order.
pub proof fn lemma_without_imports_view(imports: Seq<Import>, id: ModuleId, items: Run<ModuleItem>)
    ensures
        without_imports(imports, id, items)@ == items@.filter(
            |item: ModuleItem| stays(imports, id, item),
        ),
    decreases items,
{
    let keep = |item: ModuleItem| stays(imports, id, item);
    match items {
        Run::Empty => {
            reveal(Seq::filter);
        },
        Run::One(x) => {
            reveal(Seq::filter);
            assert(items@.drop_last() == Seq::<ModuleItem>::empty());
            assert(items@.last() == *x);
            assert(items@.drop_last().filter(keep) == Seq::<ModuleItem>::empty());
        },
        Run::Join(a, b) => {
            lemma_without_imports_view(imports, id, *a);
            lemma_without_imports_view(imports, id, *b);
            Seq::filter_distributes_over_add(a@, b@, keep);
        },
    }
}

/// Dropping the import statements of a module drops exactly the import statements
/// whose literal is that of an import of the module. All other items stay, in
/// order.
pub proof fn law_import_statements_are_dropped(
    imports: Seq<Import>,
    id: ModuleId,
    items: Run<ModuleItem>,
)
    ensures
        without_imports(imports, id, items)@ == items@.filter(
            |item: ModuleItem|
                !(item matches ModuleItem::ModuleDecl(ModuleDecl::Import(import)) && exists|k: int|
                    0 <= k < imports.len() && (#[trigger] imports[k]).source.module_id == id
                        && imports[k].source.src == import.src),
        ),
{
    lemma_without_imports_view(imports, id, items);
    let mine = |item: ModuleItem|
        !(item matches ModuleItem::ModuleDecl(ModuleDecl::Import(import)) && exists|k: int|
            0 <= k < imports.len() && (#[trigger] imports[k]).source.module_id == id
                && imports[k].source.src == import.src);
    let named = |item: ModuleItem| stays(imports, id, item);
    assert(mine =~= named);
}

/// No import statement of the module is left once they are dropped.
pub proof fn law_dropped_imports_are_gone(
    imports: Seq<Import>,
    id: ModuleId,
    items: Run<ModuleItem>,
    k: int,
)
    requires
        0 <= k < without_imports(imports, id, items)@.len(),
    ensures
        stays(imports, id, without_imports(imports, id, items)@[k]),
{
    lemma_without_imports_view(imports, id, items);
    items@.lemma_filter_pred(|item: ModuleItem| stays(imports, id, item), k);
}

} // verus!
