use crate::item::FeedItem;
use indexmap::IndexMap;
use vstd::prelude::*;

verus! {

// ---------------------------------------------------------------------------
// Trusted boundary: the cache is an insertion-order-preserving map of the
// indexmap crate. Its entry sequence is named by two uninterpreted spec
// functions (the keys and the values, in order), and each method the logic
// calls is wrapped with a contract over those names.
// ---------------------------------------------------------------------------

/// Declares indexmap's ordered map so that it can stand in fields and
/// signatures; its contents are visible only through `map_keys` / `map_vals`.
#[verifier::external_type_specification]
#[verifier::external_body]
#[verifier::reject_recursive_types(K)]
#[verifier::reject_recursive_types(V)]
#[verifier::reject_recursive_types(S)]
pub struct ExIndexMap<K, V, S>(IndexMap<K, V, S>);

/// The keys of the map, in insertion order, as character sequences.
pub uninterp spec fn map_keys(m: IndexMap<String, FeedItem>) -> Seq<Seq<char>>;

/// The values of the map, in the same order as `map_keys`.
pub uninterp spec fn map_vals(m: IndexMap<String, FeedItem>) -> Seq<FeedItem>;

/// Whether `keys` holds `cid`.
pub open spec fn has_key(keys: Seq<Seq<char>>, cid: Seq<char>) -> bool {
    exists|j: int| 0 <= j < keys.len() && keys[j] == cid
}

/// The position of `cid` in `keys`; meaningful when `has_key` holds and the
/// keys are distinct.
pub open spec fn key_index(keys: Seq<Seq<char>>, cid: Seq<char>) -> int {
    choose|j: int| 0 <= j < keys.len() && keys[j] == cid
}

/// No key occurs twice.
pub open spec fn distinct_keys(keys: Seq<Seq<char>>) -> bool {
    forall|j: int, k: int| 0 <= j < k < keys.len() ==> keys[j] != keys[k]
}

/// `s` with the element at `j` removed by swapping the last element into its
/// place, as indexmap's `swap_remove` does.
pub open spec fn seq_swap_remove<T>(s: Seq<T>, j: int) -> Seq<T> {
    s.update(j, s.last()).drop_last()
}

/// Relies on indexmap::IndexMap::new: the new map is empty.
#[verifier::external_body]
pub(crate) fn map_new() -> (m: IndexMap<String, FeedItem>)
    ensures
        map_keys(m) == Seq::<Seq<char>>::empty(),
        map_vals(m) == Seq::<FeedItem>::empty(),
{
    IndexMap::new()
}

/// Relies on indexmap::IndexMap::len: the number of entries.
#[verifier::external_body]
pub(crate) fn map_len(m: &IndexMap<String, FeedItem>) -> (n: usize)
    ensures
        n == map_vals(*m).len(),
        n == map_keys(*m).len(),
{
    m.len()
}

/// Relies on indexmap::IndexMap::get: the value stored under an equivalent
/// key, if one is present (keys in an IndexMap are unique), and on the
/// item's `Clone`, which copies every field.
#[verifier::external_body]
pub(crate) fn map_get(m: &IndexMap<String, FeedItem>, cid: &String) -> (r: Option<FeedItem>)
    ensures
        (match r {
            Some(e) => has_key(map_keys(*m), cid@) && e == map_vals(*m)[key_index(
                map_keys(*m),
                cid@,
            )],
            None => !has_key(map_keys(*m), cid@),
        }),
{
    m.get(cid).cloned()
}

/// Relies on indexmap::IndexMap::insert: an existing equivalent key keeps
/// its place in the order and its value is replaced; a new key is appended
/// last. The entry is keyed by its own item's cid.
#[verifier::external_body]
pub(crate) fn map_insert(m: &mut IndexMap<String, FeedItem>, v: FeedItem)
    ensures
        has_key(map_keys(*old(m)), v.post.cid@) ==> {
            &&& map_keys(*final(m)) == map_keys(*old(m))
            &&& map_vals(*final(m)) == map_vals(*old(m)).update(
                key_index(map_keys(*old(m)), v.post.cid@),
                v,
            )
        },
        !has_key(map_keys(*old(m)), v.post.cid@) ==> {
            &&& map_keys(*final(m)) == map_keys(*old(m)).push(v.post.cid@)
            &&& map_vals(*final(m)) == map_vals(*old(m)).push(v)
        },
{
    let key = v.post.cid.clone();
    m.insert(key, v);
}

/// Relies on indexmap::IndexMap::swap_remove: the pair under an equivalent
/// key is removed by swapping it with the last pair and popping it off, and
/// its value is returned; a missing key leaves the map unchanged.
#[verifier::external_body]
pub(crate) fn map_swap_remove(m: &mut IndexMap<String, FeedItem>, cid: &String) -> (r: Option<
    FeedItem,
>)
    ensures
        (match r {
            Some(e) => {
                &&& has_key(map_keys(*old(m)), cid@)
                &&& e == map_vals(*old(m))[key_index(map_keys(*old(m)), cid@)]
                &&& map_keys(*final(m)) == seq_swap_remove(
                    map_keys(*old(m)),
                    key_index(map_keys(*old(m)), cid@),
                )
                &&& map_vals(*final(m)) == seq_swap_remove(
                    map_vals(*old(m)),
                    key_index(map_keys(*old(m)), cid@),
                )
            },
            None => {
                &&& !has_key(map_keys(*old(m)), cid@)
                &&& map_keys(*final(m)) == map_keys(*old(m))
                &&& map_vals(*final(m)) == map_vals(*old(m))
            },
        }),
{
    m.swap_remove(cid)
}

/// Relies on indexmap::IndexMap::values: the values in their order, and on
/// the item's `Clone`, which copies every field.
#[verifier::external_body]
pub(crate) fn map_values(m: &IndexMap<String, FeedItem>) -> (r: Vec<FeedItem>)
    ensures
        r@ == map_vals(*m),
{
    m.values().cloned().collect()
}

// ---------------------------------------------------------------------------
// The verified cache type over that boundary.
// ---------------------------------------------------------------------------

/// An ordered mapping from post cid to feed item; insertion order is
/// meaningful (oldest-seen first). At most one entry per cid.
pub struct FeedCache {
    pub map: IndexMap<String, FeedItem>,
}

impl View for FeedCache {
    type V = Seq<FeedItem>;

    open spec fn view(&self) -> Seq<FeedItem> {
        map_vals(self.map)
    }
}

impl FeedCache {
    /// The cache's invariant: every entry is keyed by its own item's cid,
    /// and no cid occurs twice.
    pub open spec fn wf(self) -> bool {
        &&& map_keys(self.map).len() == map_vals(self.map).len()
        &&& distinct_keys(map_keys(self.map))
        &&& forall|j: int|
            0 <= j < map_vals(self.map).len() ==> map_keys(self.map)[j] == map_vals(
                self.map,
            )[j].post.cid@
    }

    /// A feed cache starts empty.
    pub fn new() -> (c: FeedCache)
        ensures
            c.wf(),
            c@ == Seq::<FeedItem>::empty(),
    {
        FeedCache { map: map_new() }
    }

    /// How many items the cache holds.
    pub fn len(&self) -> (n: usize)
        ensures
            n == self@.len(),
    {
        map_len(&self.map)
    }

    /// The cached items, oldest-seen first.
    pub fn items(&self) -> (r: Vec<FeedItem>)
        ensures
            r@ == self@,
    {
        map_values(&self.map)
    }
}

} // verus!
