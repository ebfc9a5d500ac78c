//! Ordered collections keyed by name: an entry with a new name is appended,
//! one with a name already present takes the place of the earlier entry.
use vstd::prelude::*;
use vstd::string::*;
use crate::document::{
    BookFile, BookFileView, Delegate, DelegateView, Enum, EnumView, Function, FunctionView,
    Snippet, SnippetView, StructClass, StructClassView,
};
use crate::text::views;

verus! {

/// Index of the first entry of `names` equal to `name`, or -1.
pub open spec fn index_of(names: Seq<Seq<char>>, name: Seq<char>) -> int
    decreases names.len(),
{
    if names.len() == 0 {
        -1
    } else {
        let before = index_of(names.drop_last(), name);
        if before >= 0 {
            before
        } else if names.last() == name {
            names.len() - 1
        } else {
            -1
        }
    }
}

/// A value that a collection finds again by its name.
pub trait Named: View + Sized {
    /// The name under which the value is kept.
    spec fn name_of(v: Self::V) -> Seq<char>;

    fn name(&self) -> (r: &String)
        ensures
            r@ == Self::name_of(self@),
    ;
}

/// The names of the entries, in order.
pub open spec fn names_of<T: Named>(items: Seq<T::V>) -> Seq<Seq<char>> {
    items.map_values(|v: T::V| T::name_of(v))
}

/// Whether an entry named as `item` is present.
pub open spec fn has_name<T: Named>(items: Seq<T::V>, item: T::V) -> bool {
    index_of(names_of::<T>(items), T::name_of(item)) >= 0
}

/// The collection after `item` was entered: in the place of the first entry
/// of the same name, or at the end where there is none.
pub open spec fn upserted<T: Named>(items: Seq<T::V>, item: T::V) -> Seq<T::V> {
    let at = index_of(names_of::<T>(items), T::name_of(item));
    if 0 <= at < items.len() {
        items.update(at, item)
    } else {
        items.push(item)
    }
}

/// Whether no two entries share a name.
pub open spec fn distinct_names<T: Named>(items: Seq<T::V>) -> bool {
    forall|i: int, j: int|
        0 <= i < j < items.len() ==> T::name_of(#[trigger] items[i]) != T::name_of(
            #[trigger] items[j],
        )
}

/// What [`index_of`] finds: the first index that holds the name, and -1
/// exactly where no index holds it.
pub proof fn lemma_index_of(names: Seq<Seq<char>>, name: Seq<char>)
    ensures
        -1 <= index_of(names, name) < names.len(),
        index_of(names, name) >= 0 ==> names[index_of(names, name)] == name,
        forall|j: int|
            0 <= j < names.len() && (j < index_of(names, name) || index_of(names, name) < 0)
                ==> #[trigger] names[j] != name,
    decreases names.len(),
{
    if names.len() > 0 {
        let front = names.drop_last();
        lemma_index_of(front, name);
        assert forall|j: int|
            0 <= j < names.len() && (j < index_of(names, name) || index_of(names, name)
                < 0) implies #[trigger] names[j] != name by {
            if j < front.len() {
                assert(front[j] == names[j]);
            }
        }
    }
}

/// The first index that holds the name is what [`index_of`] returns.
pub proof fn lemma_index_of_first(names: Seq<Seq<char>>, name: Seq<char>, at: int)
    requires
        0 <= at < names.len(),
        names[at] == name,
        forall|j: int| 0 <= j < at ==> #[trigger] names[j] != name,
    ensures
        index_of(names, name) == at,
{
    lemma_index_of(names, name);
}

/// Entering an entry under a name that is present keeps the length and
/// every other entry, and puts the new entry in the place of the earlier one;
/// under a new name, the entry is appended. Names that were distinct stay
/// distinct.
pub proof fn lemma_upserted<T: Named>(items: Seq<T::V>, item: T::V)
    ensures
        has_name::<T>(items, item) ==> upserted::<T>(items, item).len() == items.len(),
        !has_name::<T>(items, item) ==> upserted::<T>(items, item) == items.push(item),
        has_name::<T>(upserted::<T>(items, item), item),
        upserted::<T>(items, item)[index_of(
            names_of::<T>(upserted::<T>(items, item)),
            T::name_of(item),
        )] == item,
        forall|i: int|
            0 <= i < items.len() && T::name_of(items[i]) != T::name_of(item) ==> #[trigger] upserted::<
                T,
            >(items, item)[i] == items[i],
        names_of::<T>(upserted::<T>(items, item)) == if has_name::<T>(items, item) {
            names_of::<T>(items)
        } else {
            names_of::<T>(items).push(T::name_of(item))
        },
        distinct_names::<T>(items) ==> distinct_names::<T>(upserted::<T>(items, item)),
{
    let names = names_of::<T>(items);
    let name = T::name_of(item);
    let after = upserted::<T>(items, item);
    lemma_index_of(names, name);
    let at = index_of(names, name);
    if at >= 0 {
        assert(names_of::<T>(after) =~= names);
    } else {
        assert(names_of::<T>(after) =~= names.push(name));
        lemma_index_of_first(names_of::<T>(after), name, items.len() as int);
        assert forall|i: int, j: int|
            distinct_names::<T>(items) && 0 <= i < j < after.len() implies T::name_of(
            #[trigger] after[i],
        ) != T::name_of(#[trigger] after[j]) by {
            if distinct_names::<T>(items) {
                if j == items.len() {
                    assert(names[i] != name);
                    assert(after[i] == items[i]);
                } else {
                    assert(after[i] == items[i] && after[j] == items[j]);
                }
            }
        }
    }
    if distinct_names::<T>(items) && at >= 0 {
        assert forall|i: int, j: int| 0 <= i < j < after.len() implies T::name_of(
            #[trigger] after[i],
        ) != T::name_of(#[trigger] after[j]) by {
            assert(names_of::<T>(after)[i] == names[i]);
            assert(names_of::<T>(after)[j] == names[j]);
            assert(T::name_of(items[i]) != T::name_of(items[j]));
        }
    }
}

/// Enters `item` into `items`: in the place of the first entry of the same
/// name, else at the end. Returns whether an entry was replaced.
pub fn upsert<T: Named>(items: &mut Vec<T>, item: T) -> (overwrote: bool)
    ensures
        views(final(items)@) == upserted::<T>(views(old(items)@), item@),
        overwrote == has_name::<T>(views(old(items)@), item@),
{
    let ghost before = views(items@);
    let ghost names = names_of::<T>(before);
    let ghost name = T::name_of(item@);
    let mut i: usize = 0;
    while i < items.len()
        invariant
            i <= items.len(),
            items@ == old(items)@,
            before == views(items@),
            names == names_of::<T>(before),
            name == T::name_of(item@),
            forall|j: int| 0 <= j < i ==> #[trigger] names[j] != name,
        decreases items.len() - i,
    {
        if *items[i].name() == *item.name() {
            proof {
                lemma_index_of_first(names, name, i as int);
            }
            let ghost entry = item@;
            items.set(i, item);
            proof {
                assert(views(items@) =~= before.update(i as int, entry));
            }
            return true;
        }
        i += 1;
    }
    proof {
        lemma_index_of(names, name);
    }
    let ghost entry = item@;
    items.push(item);
    proof {
        assert(views(items@) =~= before.push(entry));
    }
    false
}

/// Finds the first entry of the given name.
pub fn position_of<T: Named>(items: &Vec<T>, name: &str) -> (r: Option<usize>)
    ensures
        match r {
            Some(at) => at < items.len() && at == index_of(names_of::<T>(views(items@)), name@),
            None => index_of(names_of::<T>(views(items@)), name@) < 0,
        },
{
    let ghost names = names_of::<T>(views(items@));
    let wanted = name.to_owned();
    let mut i: usize = 0;
    while i < items.len()
        invariant
            i <= items.len(),
            names == names_of::<T>(views(items@)),
            wanted@ == name@,
            forall|j: int| 0 <= j < i ==> #[trigger] names[j] != name@,
        decreases items.len() - i,
    {
        if *items[i].name() == wanted {
            proof {
                lemma_index_of_first(names, name@, i as int);
            }
            return Some(i);
        }
        i += 1;
    }
    proof {
        lemma_index_of(names, name@);
    }
    None
}

impl Named for String {
    open spec fn name_of(v: Seq<char>) -> Seq<char> {
        v
    }

    fn name(&self) -> (r: &String) {
        self
    }
}

impl Named for Enum {
    open spec fn name_of(v: EnumView) -> Seq<char> {
        v.name
    }

    fn name(&self) -> (r: &String) {
        &self.name
    }
}

impl Named for StructClass {
    open spec fn name_of(v: StructClassView) -> Seq<char> {
        v.name
    }

    fn name(&self) -> (r: &String) {
        &self.name
    }
}

impl Named for Function {
    open spec fn name_of(v: FunctionView) -> Seq<char> {
        v.name
    }

    fn name(&self) -> (r: &String) {
        &self.name
    }
}

impl Named for Delegate {
    open spec fn name_of(v: DelegateView) -> Seq<char> {
        v.name
    }

    fn name(&self) -> (r: &String) {
        &self.name
    }
}

impl Named for Snippet {
    open spec fn name_of(v: SnippetView) -> Seq<char> {
        v.name
    }

    fn name(&self) -> (r: &String) {
        &self.name
    }
}

impl Named for BookFile {
    open spec fn name_of(v: BookFileView) -> Seq<char> {
        v.name
    }

    fn name(&self) -> (r: &String) {
        &self.name
    }
}

} // verus!
