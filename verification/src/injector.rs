//! Replacement of an import by the items of the imported module.
use crate::run::Run;
use crate::syntax::{ModuleDecl, ModuleItem, Str, Word};
use vstd::prelude::*;

verus! {

/// Whether an item is an import from the path `path`.
pub open spec fn imports_from(item: ModuleItem, path: Word) -> bool {
    match item {
        ModuleItem::ModuleDecl(ModuleDecl::Import(import)) => import.src.value == path,
        _ => false,
    }
}

/// Whether one of the items is an import from the path `path`.
pub open spec fn any_imports_from(items: Run<ModuleItem>, path: Word) -> bool
    decreases items,
{
    match items {
        Run::Empty => false,
        Run::One(x) => imports_from(*x, path),
        Run::Join(a, b) => any_imports_from(*a, path) || any_imports_from(*b, path),
    }
}

/// The items with the first import from `path` replaced by `imported`, and
/// without the other imports from it.
pub open spec fn injected(
    items: Run<ModuleItem>,
    imported: Run<ModuleItem>,
    path: Word,
) -> Run<ModuleItem>
    decreases items,
{
    match items {
        Run::Empty => Run::Empty,
        Run::One(x) => if imports_from(*x, path) {
            imported
        } else {
            items
        },
        Run::Join(a, b) => Run::Join(
            Box::new(injected(*a, imported, path)),
            Box::new(
                injected(
                    *b,
                    if any_imports_from(*a, path) {
                        Run::Empty
                    } else {
                        imported
                    },
                    path,
                ),
            ),
        ),
    }
}

/// The items that are no import from `path`.
pub open spec fn without_imports_from(items: Seq<ModuleItem>, path: Word) -> Seq<ModuleItem> {
    items.filter(|item: ModuleItem| !imports_from(item, path))
}

/// Whether the first import from `path` stands at position `k`.
pub open spec fn is_first_import(items: Seq<ModuleItem>, path: Word, k: int) -> bool {
    &&& 0 <= k < items.len()
    &&& imports_from(items[k], path)
    &&& forall|j: int| 0 <= j < k ==> !imports_from(#[trigger] items[j], path)
}

/// Puts the items of an imported module in the place of its import.
pub struct Es6ModuleInjector {
    pub imported: Run<ModuleItem>,
    pub src: Str,
}

impl Es6ModuleInjector {
    /// Replaces the first import of the module by its items, which are then
    /// used up, and drops the other imports of it.
    pub fn visit_mut_module_items(&mut self, orig: &mut Run<ModuleItem>)
        ensures
            *final(orig) == injected(*old(orig), old(self).imported, old(self).src.value),
            final(self).src == old(self).src,
            final(self).imported == (if any_imports_from(*old(orig), old(self).src.value) {
                Run::Empty
            } else {
                old(self).imported
            }),
            forall|k: int|
                is_first_import(old(orig)@, old(self).src.value, k) ==> final(orig)@
                    == #[trigger] old(orig)@.take(k) + old(self).imported@ + without_imports_from(
                    old(orig)@.skip(k + 1),
                    old(self).src.value,
                ),
    {
        proof {
            let (path, imported) = (self.src.value, self.imported);
            assert forall|k: int| is_first_import(orig@, path, k) implies injected(
                *orig,
                imported,
                path,
            )@ == #[trigger] orig@.take(k) + imported@ + without_imports_from(
                orig@.skip(k + 1),
                path,
            ) by {
                law_injected_in_place_of_import(*orig, imported, path, k);
            }
        }
        let mut items: Run<ModuleItem> = Run::Empty;
        core::mem::swap(orig, &mut items);
        *orig = self.inject(items);
    }

    fn inject(&mut self, items: Run<ModuleItem>) -> (r: Run<ModuleItem>)
        ensures
            r == injected(items, old(self).imported, old(self).src.value),
            final(self).src == old(self).src,
            final(self).imported == (if any_imports_from(items, old(self).src.value) {
                Run::Empty
            } else {
                old(self).imported
            }),
        decreases items,
    {
        match items {
            Run::Empty => Run::Empty,
            Run::One(x) => {
                let replaced = match &*x {
                    ModuleItem::ModuleDecl(ModuleDecl::Import(import)) => {
                        import.src.value == self.src.value
                    },
                    _ => false,
                };
                if replaced {
                    let mut imported: Run<ModuleItem> = Run::Empty;
                    core::mem::swap(&mut self.imported, &mut imported);
                    imported
                } else {
                    Run::One(x)
                }
            },
            Run::Join(a, b) => {
                let a = self.inject(*a);
                let b = self.inject(*b);
                Run::Join(Box::new(a), Box::new(b))
            },
        }
    }
}

/// A run has an import from `path` exactly if one of its items is one.
pub proof fn lemma_any_imports_from_view(items: Run<ModuleItem>, path: Word)
    ensures
        any_imports_from(items, path) == exists|k: int|
            0 <= k < items@.len() && imports_from(#[trigger] items@[k], path),
    decreases items,
{
    match items {
        Run::Empty => {},
        Run::One(x) => {
            assert(items@[0] == *x);
        },
        Run::Join(a, b) => {
            lemma_any_imports_from_view(*a, path);
            lemma_any_imports_from_view(*b, path);
            assert(items@ == a@ + b@);
            if any_imports_from(*a, path) {
                let k = choose|k: int| 0 <= k < a@.len() && imports_from(#[trigger] a@[k], path);
                assert(imports_from(items@[k], path));
            }
            if any_imports_from(*b, path) {
                let k = choose|k: int| 0 <= k < b@.len() && imports_from(#[trigger] b@[k], path);
                assert(items@[a@.len() + k] == b@[k]);
            }
            if exists|k: int| 0 <= k < items@.len() && imports_from(#[trigger] items@[k], path) {
                let k = choose|k: int|
                    0 <= k < items@.len() && imports_from(#[trigger] items@[k], path);
                if k < a@.len() {
                    assert(a@[k] == items@[k]);
                } else {
                    assert(b@[k - a@.len()] == items@[k]);
                }
            }
        },
    }
}

/// With nothing left to put in, all imports from `path` are dropped.
proof fn lemma_injected_nothing(items: Run<ModuleItem>, path: Word)
    ensures
        injected(items, Run::Empty, path)@ == without_imports_from(items@, path),
    decreases items,
{
    let keep = |item: ModuleItem| !imports_from(item, path);
    match items {
        Run::Empty => {
            reveal(Seq::filter);
        },
        Run::One(x) => {
            reveal(Seq::filter);
            assert(items@.drop_last() == Seq::<ModuleItem>::empty());
            assert(items@.last() == *x);
            assert(items@.drop_last().filter(keep) == Seq::<ModuleItem>::empty());
        },
        Run::Join(a, b) => {
            lemma_injected_nothing(*a, path);
            lemma_injected_nothing(*b, path);
            Seq::filter_distributes_over_add(a@, b@, keep);
        },
    }
}

/// Without an import from `path` nothing is dropped by leaving such imports
/// out.
proof fn lemma_nothing_to_drop(items: Seq<ModuleItem>, path: Word)
    requires
        forall|j: int| 0 <= j < items.len() ==> !imports_from(#[trigger] items[j], path),
    ensures
        without_imports_from(items, path) == items,
    decreases items.len(),
{
    reveal(Seq::filter);
    if items.len() > 0 {
        assert(items[items.len() - 1] == items.last());
        lemma_nothing_to_drop(items.drop_last(), path);
        assert(items.drop_last().push(items.last()) == items);
    }
}

/// Where nothing is imported from `path`, injection changes nothing.
pub proof fn law_injected_without_import(
    items: Run<ModuleItem>,
    imported: Run<ModuleItem>,
    path: Word,
)
    requires
        !any_imports_from(items, path),
    ensures
        injected(items, imported, path) == items,
    decreases items,
{
    match items {
        Run::Empty => {},
        Run::One(_) => {},
        Run::Join(a, b) => {
            law_injected_without_import(*a, imported, path);
            law_injected_without_import(*b, imported, path);
        },
    }
}

/// The imported items stand where the first import from `path` stood. What was
/// before it is before them, and what was after it is after them, but for
/// further imports from `path`.
pub proof fn law_injected_in_place_of_import(
    items: Run<ModuleItem>,
    imported: Run<ModuleItem>,
    path: Word,
    k: int,
)
    requires
        is_first_import(items@, path, k),
    ensures
        injected(items, imported, path)@ == items@.take(k) + imported@ + without_imports_from(
            items@.skip(k + 1),
            path,
        ),
    decreases items,
{
    let keep = |item: ModuleItem| !imports_from(item, path);
    match items {
        Run::Empty => {},
        Run::One(x) => {
            reveal(Seq::filter);
            assert(items@.skip(k + 1) == Seq::<ModuleItem>::empty());
            assert(items@[0] == *x);
        },
        Run::Join(a, b) => {
            assert(items@ == a@ + b@);
            lemma_any_imports_from_view(*a, path);
            if k < a@.len() {
                assert forall|j: int| 0 <= j < k implies !imports_from(
                    #[trigger] a@[j],
                    path,
                ) by {
                    assert(items@[j] == a@[j]);
                }
                assert(imports_from(a@[k], path));
                law_injected_in_place_of_import(*a, imported, path, k);
                lemma_injected_nothing(*b, path);
                assert(items@.skip(k + 1) == a@.skip(k + 1) + b@);
                assert(items@.take(k) == a@.take(k));
                Seq::filter_distributes_over_add(a@.skip(k + 1), b@, keep);
            } else {
                let l = k - a@.len();
                assert forall|j: int| 0 <= j < a@.len() implies !imports_from(
                    #[trigger] a@[j],
                    path,
                ) by {
                    assert(items@[j] == a@[j]);
                }
                assert forall|j: int| 0 <= j < l implies !imports_from(
                    #[trigger] b@[j],
                    path,
                ) by {
                    assert(items@[a@.len() + j] == b@[j]);
                }
                assert(b@[l] == items@[k]);
                law_injected_without_import(*a, imported, path);
                law_injected_in_place_of_import(*b, imported, path, l);
                assert(items@.skip(k + 1) == b@.skip(l + 1));
                assert(items@.take(k) == a@ + b@.take(l));
            }
        },
    }
}

/// Injection replaces the first import statement of a path, whatever else stands
/// in it, by all the imported items in their order. It drops the later ones, and
/// keeps every other item where it was. Without such a statement all stays as it
/// is.
pub proof fn law_import_is_replaced_by_all_items(
    items: Run<ModuleItem>,
    imported: Run<ModuleItem>,
    path: Word,
    k: int,
)
    requires
        0 <= k <= items@.len(),
        forall|j: int|
            0 <= j < k ==> !(#[trigger] items@[j] matches ModuleItem::ModuleDecl(
                ModuleDecl::Import(import),
            ) && import.src.value == path),
        k < items@.len() ==> (items@[k] matches ModuleItem::ModuleDecl(ModuleDecl::Import(import))
            && import.src.value == path),
    ensures
        any_imports_from(items, path) == (k < items@.len()),
        k == items@.len() ==> injected(items, imported, path) == items,
        k < items@.len() ==> injected(items, imported, path)@ == items@.take(k) + imported@
            + items@.skip(k + 1).filter(
            |item: ModuleItem|
                !(item matches ModuleItem::ModuleDecl(ModuleDecl::Import(import))
                    && import.src.value == path),
        ),
{
    lemma_any_imports_from_view(items, path);
    if k == items@.len() {
        assert(forall|j: int| 0 <= j < k ==> !imports_from(#[trigger] items@[j], path));
        law_injected_without_import(items, imported, path);
    } else {
        assert(imports_from(items@[k], path));
        law_injected_in_place_of_import(items, imported, path, k);
        let mine = |item: ModuleItem|
            !(item matches ModuleItem::ModuleDecl(ModuleDecl::Import(import)) && import.src.value
                == path);
        let named = |item: ModuleItem| !imports_from(item, path);
        assert(mine =~= named);
    }
}

/// After injection the only imports from `path` are those that the imported
/// items bring along.
pub proof fn law_injected_leaves_no_import(
    items: Run<ModuleItem>,
    imported: Run<ModuleItem>,
    path: Word,
)
    ensures
        any_imports_from(injected(items, imported, path), path) == (any_imports_from(items, path)
            && any_imports_from(imported, path)),
    decreases items,
{
    match items {
        Run::Empty => {},
        Run::One(_) => {},
        Run::Join(a, b) => {
            law_injected_leaves_no_import(*a, imported, path);
            law_injected_leaves_no_import(*b, imported, path);
            law_injected_leaves_no_import(*b, Run::Empty, path);
        },
    }
}

} // verus!
