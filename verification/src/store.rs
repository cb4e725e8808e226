use std::collections::HashMap;
use vstd::prelude::*;
use vstd::std_specs::hash::*;
use vstd::std_specs::iter::IteratorSpec;

verus! {

broadcast use vstd::std_specs::hash::group_hash_axioms;

/// An item held by the store: its id and its name.
pub struct Item {
    pub id: u32,
    pub name: String,
}

impl Clone for Item {
    fn clone(&self) -> (copy: Self)
        ensures
            copy.id == self.id,
            copy.name@ == self.name@,
    {
        Item { id: self.id, name: self.name.clone() }
    }
}

/// The body of a request that creates or renames an item.
pub struct ItemPayload {
    pub name: String,
}

/// The HTTP statuses that the item endpoints answer with.
#[derive(Clone, Copy, Debug, PartialEq, Eq, Structural)]
pub enum Status {
    Success,
    Created,
    NoContent,
    NotFound,
}

impl Status {
    /// The numeric HTTP status code.
    pub fn code(&self) -> (code: u16)
        ensures
            code == status_code(*self),
    {
        match self {
            Status::Success => 200,
            Status::Created => 201,
            Status::NoContent => 204,
            Status::NotFound => 404,
        }
    }
}

/// The numeric HTTP status code of a status.
pub open spec fn status_code(s: Status) -> u16 {
    match s {
        Status::Success => 200,
        Status::Created => 201,
        Status::NoContent => 204,
        Status::NotFound => 404,
    }
}

/// `x` is the largest id in `ids`, or 0 when `ids` is empty.
pub open spec fn is_max_id(ids: Set<u32>, x: u32) -> bool {
    &&& forall|k: u32| #[trigger] ids.contains(k) ==> k <= x
    &&& ids.is_empty() ==> x == 0
    &&& !ids.is_empty() ==> ids.contains(x)
}

/// The largest id in `ids`, or 0 when `ids` is empty.
pub open spec fn max_id(ids: Set<u32>) -> u32 {
    choose|x: u32| is_max_id(ids, x)
}

/// The id that the next created item receives: one more than the largest id
/// in use, 1 in an empty store.
pub open spec fn next_id(m: Map<u32, Seq<char>>) -> int {
    max_id(m.dom()) + 1
}

/// The name stored under `id`, if any.
pub open spec fn spec_get(m: Map<u32, Seq<char>>, id: u32) -> Option<Seq<char>> {
    if m.contains_key(id) {
        Some(m[id])
    } else {
        None
    }
}

/// The store after creating an item named `name`.
pub open spec fn spec_create(m: Map<u32, Seq<char>>, name: Seq<char>) -> Map<u32, Seq<char>> {
    m.insert(next_id(m) as u32, name)
}

/// The store after renaming item `id`; unchanged when there is none.
pub open spec fn spec_update(m: Map<u32, Seq<char>>, id: u32, name: Seq<char>) -> Map<u32, Seq<char>> {
    if m.contains_key(id) {
        m.insert(id, name)
    } else {
        m
    }
}

/// The store after deleting item `id`.
pub open spec fn spec_delete(m: Map<u32, Seq<char>>, id: u32) -> Map<u32, Seq<char>> {
    m.remove(id)
}

/// Every finite set of ids has exactly one largest id.
pub proof fn lemma_max_id(ids: Set<u32>)
    requires
        ids.finite(),
    ensures
        is_max_id(ids, max_id(ids)),
        forall|x: u32| is_max_id(ids, x) ==> x == max_id(ids),
    decreases ids.len(),
{
    if ids.is_empty() {
        assert(is_max_id(ids, 0));
    } else {
        let a: u32 = ids.choose();
        let rest = ids.remove(a);
        lemma_max_id(rest);
        let r: u32 = max_id(rest);
        let x: u32 = if rest.is_empty() || a >= r { a } else { r };
        assert forall|k: u32| #[trigger] ids.contains(k) implies k <= x by {
            if k != a {
                assert(rest.contains(k));
            }
        }
        assert(is_max_id(ids, x));
    }
    assert forall|x: u32| is_max_id(ids, x) implies x == max_id(ids) by {
        let y: u32 = max_id(ids);
        if !ids.is_empty() {
            assert(ids.contains(x) && ids.contains(y));
            assert(x <= y && y <= x);
        }
    }
}

/// The items of the store, keyed by their ids.
pub struct ItemStore {
    items: HashMap<u32, Item>,
}

impl View for ItemStore {
    type V = Map<u32, Seq<char>>;

    /// The name of each stored item, by id.
    closed spec fn view(&self) -> Map<u32, Seq<char>> {
        self.items@.map_values(|item: Item| item.name@)
    }
}

impl ItemStore {
    /// Each item is filed under its own id.
    pub closed spec fn wf(&self) -> bool {
        forall|k: u32| #[trigger] self.items@.contains_key(k) ==> self.items@[k].id == k
    }

    proof fn lemma_view(&self)
        ensures
            self@.dom() == self.items@.dom(),
            self@.dom().finite(),
            forall|k: u32| #[trigger] self.items@.contains_key(k) ==> self@[k] == self.items@[k].name@,
    {
        assert(self@.dom() =~= self.items@.dom());
    }

    /// An empty store.
    pub fn new() -> (store: Self)
        ensures
            store.wf(),
            store@ == Map::<u32, Seq<char>>::empty(),
    {
        let store = ItemStore { items: HashMap::new() };
        proof {
            store.lemma_view();
            assert(store@ =~= Map::<u32, Seq<char>>::empty());
        }
        store
    }

    /// The largest id in the store, 0 when it is empty.
    pub fn max_id(&self) -> (m: u32)
        ensures
            m == max_id(self@.dom()),
    {
        proof {
            self.lemma_view();
        }
        let mut m: u32 = 0;
        for (k, _item) in it: self.items.iter()
            invariant
                it.seq() == spec_hash_map_iter(&self.items).remaining(),
                forall|i: int| 0 <= i < it.index() ==> *(#[trigger] it.seq()[i]).0 <= m,
                m == 0 || exists|i: int| 0 <= i < it.index() && *(#[trigger] it.seq()[i]).0 == m,
        {
            if *k > m {
                m = *k;
            }
        }
        proof {
            let v = spec_hash_map_iter(&self.items).remaining();
            let ids = self.items@.dom();
            assert forall|k: u32| #[trigger] ids.contains(k) implies k <= m by {
                assert(self.items@.contains_key(k));
                assert(v.contains((&k, &self.items@[k])));
                let i = choose|i: int| 0 <= i < v.len() && v[i] == (&k, &self.items@[k]);
                assert(*v[i].0 <= m);
            }
            if !ids.is_empty() {
                if m == 0 {
                    let k: u32 = ids.choose();
                    assert(ids.contains(k));
                    assert(k <= m);
                    assert(ids.contains(m));
                } else {
                    let i = choose|i: int| 0 <= i < v.len() && *v[i].0 == m;
                    assert(self.items@.contains_key(*v[i].0));
                }
            }
            assert(is_max_id(ids, m));
            lemma_max_id(ids);
        }
        m
    }
}

/// A created item gets an id that no stored item has, larger than every
/// stored id; reading it back gives the name it was created with, and every
/// other item reads as before.
pub proof fn law_get_after_create(db: ItemStore, name: Seq<char>)
    requires
        db.wf(),
        max_id(db@.dom()) < u32::MAX,
    ensures
        !db@.contains_key(next_id(db@) as u32),
        forall|k: u32| #[trigger] db@.contains_key(k) ==> k < next_id(db@),
        spec_get(spec_create(db@, name), next_id(db@) as u32) == Some(name),
        forall|k: u32|
            k != next_id(db@) ==> #[trigger] spec_get(spec_create(db@, name), k) == spec_get(db@, k),
        spec_create(db@, name).len() == db@.len() + 1,
{
    db.lemma_view();
    lemma_max_id(db@.dom());
}

/// Ids are handed out one after another: the item created after another
/// gets the next id.
pub proof fn law_consecutive_ids(db: ItemStore, name: Seq<char>)
    requires
        db.wf(),
        max_id(db@.dom()) < u32::MAX,
    ensures
        next_id(spec_create(db@, name)) == next_id(db@) + 1,
{
    db.lemma_view();
    let m = db@;
    let n = spec_create(m, name);
    lemma_max_id(m.dom());
    let x: u32 = (max_id(m.dom()) + 1) as u32;
    assert(n.dom() == m.dom().insert(x));
    assert(n.dom().finite());
    assert(is_max_id(n.dom(), x)) by {
        assert(n.dom().contains(x));
    }
    lemma_max_id(n.dom());
}

/// Deleting the item just created gives back the store as it was, so the
/// next creation hands out the same id again.
pub proof fn law_delete_undoes_create(db: ItemStore, name: Seq<char>)
    requires
        db.wf(),
        max_id(db@.dom()) < u32::MAX,
    ensures
        spec_delete(spec_create(db@, name), next_id(db@) as u32) == db@,
        next_id(spec_delete(spec_create(db@, name), next_id(db@) as u32)) == next_id(db@),
{
    db.lemma_view();
    lemma_max_id(db@.dom());
    assert(spec_delete(spec_create(db@, name), next_id(db@) as u32) =~= db@);
}

/// After a rename, the item reads with its new name and the others as
/// before; renaming an id that is not stored changes nothing.
pub proof fn law_get_after_update(m: Map<u32, Seq<char>>, id: u32, name: Seq<char>)
    ensures
        m.contains_key(id) ==> spec_get(spec_update(m, id, name), id) == Some(name),
        !m.contains_key(id) ==> spec_update(m, id, name) == m,
        forall|k: u32| k != id ==> #[trigger] spec_get(spec_update(m, id, name), k) == spec_get(m, k),
        spec_update(m, id, name).dom() == m.dom(),
{
    if m.contains_key(id) {
        assert(spec_update(m, id, name).dom() =~= m.dom());
    }
}

/// After a delete the item is gone and the others read as before; a
/// second delete of the same id finds nothing and changes nothing.
pub proof fn law_get_after_delete(m: Map<u32, Seq<char>>, id: u32)
    ensures
        spec_get(spec_delete(m, id), id) is None,
        forall|k: u32| k != id ==> #[trigger] spec_get(spec_delete(m, id), k) == spec_get(m, k),
        !spec_delete(m, id).contains_key(id),
        spec_delete(spec_delete(m, id), id) == spec_delete(m, id),
{
    assert(spec_delete(spec_delete(m, id), id) =~= spec_delete(m, id));
}

/// Lists every stored item once, in the order in which the map is walked.
pub fn list_items(db: &ItemStore) -> (items: Vec<Item>)
    requires
        db.wf(),
    ensures
        items.len() == db@.len(),
        forall|i: int|
            0 <= i < items.len() ==> db@.contains_key(#[trigger] items[i].id) && db@[items[i].id]
                == items[i].name@,
        forall|i: int, j: int|
            0 <= i < items.len() && 0 <= j < items.len() && i != j ==> #[trigger] items[i].id
                != #[trigger] items[j].id,
        forall|k: u32| #[trigger]
            db@.contains_key(k) ==> exists|i: int| 0 <= i < items.len() && items[i].id == k,
{
    proof {
        db.lemma_view();
    }
    let mut items: Vec<Item> = Vec::new();
    for (_k, item) in it: db.items.iter()
        invariant
            db.wf(),
            it.seq() == spec_hash_map_iter(&db.items).remaining(),
            items.len() == it.index(),
            forall|i: int|
                0 <= i < it.index() ==> items[i].id == (*(#[trigger] it.seq()[i]).1).id
                    && items[i].name@ == (*it.seq()[i].1).name@,
    {
        items.push(item.clone());
    }
    proof {
        let v = spec_hash_map_iter(&db.items).remaining();
        assert(items.len() == v.len());
        assert forall|i: int| 0 <= i < items.len() implies #[trigger] items[i].id == *v[i].0 by {
            assert(db.items@.contains_key(*v[i].0));
            assert(db.items@[*v[i].0] == *v[i].1);
        }
        assert forall|i: int| 0 <= i < items.len() implies db@.contains_key(
            #[trigger] items[i].id,
        ) && db@[items[i].id] == items[i].name@ by {
            assert(db.items@.contains_key(*v[i].0));
            assert(db.items@[*v[i].0] == *v[i].1);
        }
        assert forall|i: int, j: int|
            0 <= i < items.len() && 0 <= j < items.len() && i != j implies #[trigger] items[i].id
            != #[trigger] items[j].id by {
            assert(db.items@.contains_key(*v[i].0));
            assert(db.items@.contains_key(*v[j].0));
            if items[i].id == items[j].id {
                assert(v[i] == v[j]);
            }
        }
        assert forall|k: u32| #[trigger] db@.contains_key(k) implies exists|i: int|
            0 <= i < items.len() && items[i].id == k by {
            assert(db.items@.contains_key(k));
            assert(v.contains((&k, &db.items@[k])));
            let i = choose|i: int| 0 <= i < v.len() && v[i] == (&k, &db.items@[k]);
            assert(items[i].id == k);
        }
    }
    items
}

/// Creates an item named as the payload says, under the next free id.
pub fn create_item(db: &mut ItemStore, payload: ItemPayload) -> (res: (Status, Item))
    requires
        old(db).wf(),
        max_id(old(db)@.dom()) < u32::MAX,
    ensures
        final(db).wf(),
        res.0 == Status::Created,
        res.1.id == next_id(old(db)@),
        res.1.name@ == payload.name@,
        final(db)@ == spec_create(old(db)@, payload.name@),
{
    proof {
        db.lemma_view();
    }
    let id: u32 = db.max_id() + 1;
    let item = Item { id, name: payload.name };
    db.items.insert(id, item.clone());
    proof {
        db.lemma_view();
        assert(db@ =~= spec_create(old(db)@, item.name@));
    }
    (Status::Created, item)
}

/// The item filed under `id`, or `NotFound`.
pub fn get_item(db: &ItemStore, id: u32) -> (res: Result<Item, Status>)
    requires
        db.wf(),
    ensures
        match res {
            Ok(item) => spec_get(db@, id) == Some(item.name@) && item.id == id,
            Err(status) => spec_get(db@, id) is None && status == Status::NotFound,
        },
{
    proof {
        db.lemma_view();
    }
    match db.items.get(&id) {
        Some(item) => Ok(item.clone()),
        None => Err(Status::NotFound),
    }
}

/// Renames the item filed under `id` and returns it, or answers `NotFound`
/// and leaves the store as it was.
pub fn update_item(db: &mut ItemStore, id: u32, payload: ItemPayload) -> (res: Result<Item, Status>)
    requires
        old(db).wf(),
    ensures
        final(db).wf(),
        final(db)@ == spec_update(old(db)@, id, payload.name@),
        match res {
            Ok(item) => old(db)@.contains_key(id) && item.id == id && item.name@ == payload.name@,
            Err(status) => !old(db)@.contains_key(id) && status == Status::NotFound,
        },
{
    proof {
        db.lemma_view();
    }
    if !db.items.contains_key(&id) {
        return Err(Status::NotFound);
    }
    let item = Item { id, name: payload.name };
    db.items.insert(id, item.clone());
    proof {
        db.lemma_view();
        assert(db@ =~= spec_update(old(db)@, id, item.name@));
    }
    Ok(item)
}

/// Deletes the item filed under `id`: `NoContent` when there was one,
/// `NotFound` when there was none.
pub fn delete_item(db: &mut ItemStore, id: u32) -> (status: Status)
    requires
        old(db).wf(),
    ensures
        final(db).wf(),
        final(db)@ == spec_delete(old(db)@, id),
        status == (if old(db)@.contains_key(id) { Status::NoContent } else { Status::NotFound }),
{
    proof {
        db.lemma_view();
    }
    let removed = db.items.remove(&id);
    proof {
        db.lemma_view();
        assert(db@ =~= spec_delete(old(db)@, id));
    }
    if removed.is_some() {
        Status::NoContent
    } else {
        Status::NotFound
    }
}

} // verus!
