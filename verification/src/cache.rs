//! A lookup cache from entity ids to display names.

use std::collections::HashMap;
use vstd::prelude::*;
use crate::batch::{reference_views, ReferenceRow, ReferenceRowView};

verus! {

broadcast use vstd::std_specs::hash::group_hash_axioms;

/// The display names of the entities of one reference table, by entity id.
/// An id has at most one name: a later insert replaces an earlier one.
pub struct NameCache {
    names: HashMap<u64, String>,
}

/// The cache after one more row: the row's id now has the row's name.
pub open spec fn absorb_row(cache: Map<u64, Seq<char>>, row: ReferenceRowView) -> Map<
    u64,
    Seq<char>,
> {
    cache.insert(row.entity_id, row.name)
}

/// The cache after a sequence of rows, taken in order.
pub open spec fn absorb(cache: Map<u64, Seq<char>>, rows: Seq<ReferenceRowView>) -> Map<
    u64,
    Seq<char>,
>
    decreases rows.len(),
{
    if rows.len() == 0 {
        cache
    } else {
        absorb_row(absorb(cache, rows.drop_last()), rows.last())
    }
}

impl View for NameCache {
    type V = Map<u64, Seq<char>>;

    closed spec fn view(&self) -> Map<u64, Seq<char>> {
        self.names@.map_values(|name: String| name@)
    }
}

impl NameCache {
    /// A cache that knows no name.
    pub fn new() -> (cache: NameCache)
        ensures
            cache@ == Map::<u64, Seq<char>>::empty(),
    {
        let cache = NameCache { names: HashMap::new() };
        cache
    }

    /// Gives `entity_id` the name `name`, in place of any name it had.
    pub fn insert(&mut self, entity_id: u64, name: String)
        ensures
            final(self)@ == old(self)@.insert(entity_id, name@),
    {
        self.names.insert(entity_id, name);
    }

    /// The name of `entity_id`, if the cache knows one.
    pub fn get(&self, entity_id: u64) -> (name: Option<&String>)
        ensures
            match name {
                Some(n) => self@.contains_key(entity_id) && n@ == self@[entity_id],
                None => !self@.contains_key(entity_id),
            },
    {
        self.names.get(&entity_id)
    }

    /// Takes in the rows of one tick, in order.
    pub fn absorb_rows(&mut self, rows: &Vec<ReferenceRow>)
        ensures
            final(self)@ == absorb(old(self)@, reference_views(rows@)),
    {
        let ghost views = reference_views(rows@);
        let mut i: usize = 0;
        while i < rows.len()
            invariant
                i <= rows.len(),
                views == reference_views(rows@),
                self@ == absorb(old(self)@, views.take(i as int)),
            decreases rows.len() - i,
        {
            let row = &rows[i];
            proof {
                assert(views.take(i as int + 1).drop_last() =~= views.take(i as int));
            }
            self.insert(row.entity_id, row.name.clone());
            i = i + 1;
        }
        proof {
            assert(views.take(i as int) =~= views);
        }
    }
}

/// Whether some row of `rows` names the entity `id`.
pub open spec fn names_entity(rows: Seq<ReferenceRowView>, id: u64) -> bool {
    exists|i: int| 0 <= i < rows.len() && (#[trigger] rows[i]).entity_id == id
}

/// Taking in the same row twice leaves the cache as taking it in once does.
pub proof fn lemma_absorb_row_idempotent(cache: Map<u64, Seq<char>>, row: ReferenceRowView)
    ensures
        absorb_row(absorb_row(cache, row), row) == absorb_row(cache, row),
{
    assert(absorb_row(absorb_row(cache, row), row) =~= absorb_row(cache, row));
}

/// Taking in one sequence of rows and then another is taking in the two in
/// one go.
pub proof fn lemma_absorb_concat(
    cache: Map<u64, Seq<char>>,
    first: Seq<ReferenceRowView>,
    second: Seq<ReferenceRowView>,
)
    ensures
        absorb(cache, first + second) == absorb(absorb(cache, first), second),
    decreases second.len(),
{
    if second.len() == 0 {
        assert(first + second =~= first);
    } else {
        assert((first + second).drop_last() =~= first + second.drop_last());
        lemma_absorb_concat(cache, first, second.drop_last());
    }
}

/// Within a sequence of rows, one that comes twice in a row counts once,
/// wherever in the sequence it stands.
pub proof fn lemma_absorb_repeated_row(
    cache: Map<u64, Seq<char>>,
    before: Seq<ReferenceRowView>,
    row: ReferenceRowView,
    after: Seq<ReferenceRowView>,
)
    ensures
        absorb(cache, before.push(row).push(row) + after) == absorb(
            cache,
            before.push(row) + after,
        ),
{
    let once = before.push(row);
    assert(once.push(row).drop_last() =~= once);
    assert(once.drop_last() =~= before);
    lemma_absorb_row_idempotent(absorb(cache, before), row);
    lemma_absorb_concat(cache, once.push(row), after);
    lemma_absorb_concat(cache, once, after);
}

/// Whether `rows[i]` is the last row of `rows` that names the entity `id`.
pub open spec fn is_last_naming(rows: Seq<ReferenceRowView>, id: u64, i: int) -> bool {
    &&& 0 <= i < rows.len()
    &&& rows[i].entity_id == id
    &&& forall|j: int| i < j < rows.len() ==> (#[trigger] rows[j]).entity_id != id
}

/// After a sequence of rows the cache knows exactly the ids it knew before
/// and the ids that the rows name.
pub proof fn lemma_absorb_domain(cache: Map<u64, Seq<char>>, rows: Seq<ReferenceRowView>, id: u64)
    ensures
        absorb(cache, rows).contains_key(id) <==> cache.contains_key(id) || names_entity(rows, id),
    decreases rows.len(),
{
    if rows.len() > 0 {
        let front = rows.drop_last();
        lemma_absorb_domain(cache, front, id);
        if rows.last().entity_id != id && names_entity(rows, id) {
            let k = choose|k: int| 0 <= k < rows.len() && (#[trigger] rows[k]).entity_id == id;
            assert(front[k].entity_id == id);
        }
        if names_entity(front, id) {
            let k = choose|k: int| 0 <= k < front.len() && (#[trigger] front[k]).entity_id == id;
            assert(rows[k].entity_id == id);
        }
    }
}

/// An id that no row names keeps the name it had.
pub proof fn lemma_absorb_keeps(cache: Map<u64, Seq<char>>, rows: Seq<ReferenceRowView>, id: u64)
    requires
        !names_entity(rows, id),
    ensures
        absorb(cache, rows).contains_key(id) == cache.contains_key(id),
        cache.contains_key(id) ==> absorb(cache, rows)[id] == cache[id],
    decreases rows.len(),
{
    if rows.len() > 0 {
        let front = rows.drop_last();
        if names_entity(front, id) {
            let k = choose|k: int| 0 <= k < front.len() && (#[trigger] front[k]).entity_id == id;
            assert(rows[k].entity_id == id);
        }
        lemma_absorb_keeps(cache, front, id);
    }
}

/// An id that the rows name has the name of the last row that names it.
pub proof fn lemma_absorb_last_wins(
    cache: Map<u64, Seq<char>>,
    rows: Seq<ReferenceRowView>,
    id: u64,
    i: int,
)
    requires
        is_last_naming(rows, id, i),
    ensures
        absorb(cache, rows).contains_key(id),
        absorb(cache, rows)[id] == rows[i].name,
    decreases rows.len(),
{
    if i < rows.len() - 1 {
        lemma_absorb_last_wins(cache, rows.drop_last(), id, i);
    }
}

/// Among the rows that name an id, one is the last.
pub proof fn lemma_last_naming_exists(rows: Seq<ReferenceRowView>, id: u64) -> (i: int)
    requires
        names_entity(rows, id),
    ensures
        is_last_naming(rows, id, i),
    decreases rows.len(),
{
    let front = rows.drop_last();
    if rows.last().entity_id == id {
        rows.len() - 1
    } else {
        let k = choose|k: int| 0 <= k < rows.len() && (#[trigger] rows[k]).entity_id == id;
        assert(front[k].entity_id == id);
        let i = lemma_last_naming_exists(front, id);
        assert(rows[i] == front[i]);
        assert forall|j: int| i < j < rows.len() implies (#[trigger] rows[j]).entity_id != id by {
            if j < front.len() {
                assert(front[j] == rows[j]);
            }
        }
        i
    }
}

/// Taking in the same sequence of rows a second time changes nothing.
pub proof fn lemma_absorb_twice(cache: Map<u64, Seq<char>>, rows: Seq<ReferenceRowView>)
    ensures
        absorb(absorb(cache, rows), rows) == absorb(cache, rows),
{
    let once = absorb(cache, rows);
    let twice = absorb(once, rows);
    assert forall|id: u64|
        #![trigger twice.dom().contains(id)]
        #![trigger once.dom().contains(id)]
        twice.dom().contains(id) == once.dom().contains(id) && (once.dom().contains(id)
            ==> twice[id] == once[id]) by {
        lemma_absorb_domain(cache, rows, id);
        lemma_absorb_domain(once, rows, id);
        if names_entity(rows, id) {
            let i = lemma_last_naming_exists(rows, id);
            lemma_absorb_last_wins(cache, rows, id, i);
            lemma_absorb_last_wins(once, rows, id, i);
        } else {
            lemma_absorb_keeps(once, rows, id);
        }
    }
    assert(twice =~= once);
}

} // verus!
