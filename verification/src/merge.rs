use crate::cache::{
    has_key, key_index, map_get, map_insert, map_keys, map_swap_remove, map_vals, seq_swap_remove,
    FeedCache,
};
use crate::item::FeedItem;
use vstd::prelude::*;

verus! {

// ---------------------------------------------------------------------------
// The reconciliation algorithm, stated over the cache's entry sequence.
// ---------------------------------------------------------------------------

/// Whether the incoming item re-surfaces the cached entry: it does when both
/// carry a repost reason and the incoming reshare is strictly later, and
/// when the cached entry has no reason but the incoming item has one.
pub open spec fn promotes(cached: FeedItem, incoming: FeedItem) -> bool {
    match (cached.reason, incoming.reason) {
        (Some(curr), Some(next)) => curr.indexed_at < next.indexed_at,
        (None, Some(_)) => true,
        _ => false,
    }
}

/// The entry that replaces a cached one on a payload-only update: the fresh
/// post, under the cached reason and reply context, in the cached position.
pub open spec fn payload_updated(cached: FeedItem, incoming: FeedItem) -> FeedItem {
    FeedItem { post: incoming.post, reason: cached.reason, reply: cached.reply }
}

/// Whether `s` holds an item with this cid.
pub open spec fn has_cid(s: Seq<FeedItem>, cid: Seq<char>) -> bool {
    exists|j: int| 0 <= j < s.len() && s[j].post.cid@ == cid
}

/// The position of the item with this cid; meaningful when `has_cid` holds
/// and the cids are distinct.
pub open spec fn cid_index(s: Seq<FeedItem>, cid: Seq<char>) -> int {
    choose|j: int| 0 <= j < s.len() && s[j].post.cid@ == cid
}

/// No cid occurs twice among the items.
pub open spec fn distinct_cids(s: Seq<FeedItem>) -> bool {
    forall|j: int, k: int| 0 <= j < k < s.len() ==> s[j].post.cid@ != s[k].post.cid@
}

/// One reconciliation step: how merging a single incoming item transforms
/// the cache's entry sequence. A promoted entry leaves its place (the last
/// entry is swapped into it) and the incoming item is appended at the tail;
/// an unpromoted duplicate keeps its place and only its payload changes; a
/// new item is appended at the tail.
pub open spec fn merge_one(s: Seq<FeedItem>, incoming: FeedItem) -> Seq<FeedItem> {
    if has_cid(s, incoming.post.cid@) {
        let j = cid_index(s, incoming.post.cid@);
        if promotes(s[j], incoming) {
            seq_swap_remove(s, j).push(incoming)
        } else {
            s.update(j, payload_updated(s[j], incoming))
        }
    } else {
        s.push(incoming)
    }
}

/// Merging a whole page: one item after the other, in the page's order
/// (oldest first).
pub open spec fn merge_seq(s: Seq<FeedItem>, page: Seq<FeedItem>) -> Seq<FeedItem>
    decreases page.len(),
{
    if page.len() == 0 {
        s
    } else {
        merge_seq(merge_one(s, page[0]), page.drop_first())
    }
}

// ---------------------------------------------------------------------------
// Bridging the cache's key sequence and its entry sequence.
// ---------------------------------------------------------------------------

/// Under the cache invariant, looking a cid up among the keys and among the
/// entries is the same thing, at the same position.
proof fn lemma_key_cid(c: FeedCache, cid: Seq<char>)
    requires
        c.wf(),
    ensures
        has_key(map_keys(c.map), cid) == has_cid(c@, cid),
        has_key(map_keys(c.map), cid) ==> {
            let j = key_index(map_keys(c.map), cid);
            &&& 0 <= j < c@.len()
            &&& map_keys(c.map)[j] == cid
            &&& c@[j].post.cid@ == cid
            &&& j == cid_index(c@, cid)
            &&& forall|k: int| 0 <= k < c@.len() && c@[k].post.cid@ == cid ==> k == j
        },
{
    let keys = map_keys(c.map);
    let vals = c@;
    if has_key(keys, cid) {
        let j = key_index(keys, cid);
        assert(0 <= j < keys.len() && keys[j] == cid);
        assert(vals[j].post.cid@ == cid);
        assert(has_cid(vals, cid));
        assert(forall|k: int| 0 <= k < vals.len() && vals[k].post.cid@ == cid ==> k == j) by {
            assert forall|k: int| 0 <= k < vals.len() && vals[k].post.cid@ == cid implies k == j by {
                assert(keys[k] == cid);
                if k < j {
                    assert(keys[k] != keys[j]);
                } else if j < k {
                    assert(keys[j] != keys[k]);
                }
            }
        }
        let j2 = cid_index(vals, cid);
        assert(0 <= j2 < vals.len() && vals[j2].post.cid@ == cid);
        assert(j2 == j);
    }
    if has_cid(vals, cid) {
        let k = choose|k: int| 0 <= k < vals.len() && vals[k].post.cid@ == cid;
        assert(keys[k] == cid);
        assert(has_key(keys, cid));
    }
}

// ---------------------------------------------------------------------------
// The executable reconciliation.
// ---------------------------------------------------------------------------

/// Whether the incoming item promotes the cached entry.
fn is_promotion(cached: &FeedItem, incoming: &FeedItem) -> (r: bool)
    ensures
        r == promotes(*cached, *incoming),
{
    match (&cached.reason, &incoming.reason) {
        (Some(curr), Some(next)) => curr.indexed_at < next.indexed_at,
        (None, Some(_)) => true,
        _ => false,
    }
}

/// Merge one incoming item into the cache.
fn merge_item(cache: &mut FeedCache, incoming: FeedItem)
    requires
        old(cache).wf(),
    ensures
        final(cache).wf(),
        final(cache)@ == merge_one(old(cache)@, incoming),
{
    let ghost keys0 = map_keys(old(cache).map);
    let ghost vals0 = old(cache)@;
    let ghost cid = incoming.post.cid@;
    proof {
        lemma_key_cid(*old(cache), cid);
    }
    let found = map_get(&cache.map, &incoming.post.cid);
    match found {
        Some(entry) => {
            let ghost j = key_index(keys0, cid);
            if is_promotion(&entry, &incoming) {
                let _ = map_swap_remove(&mut cache.map, &incoming.post.cid);
                let ghost keys1 = map_keys(cache.map);
                let ghost vals1 = map_vals(cache.map);
                proof {
                    assert(keys1 == seq_swap_remove(keys0, j));
                    assert(vals1 == seq_swap_remove(vals0, j));
                    assert forall|k: int| 0 <= k < keys1.len() implies keys1[k] != cid by {
                        assert(keys1[k] == keys0.update(j, keys0.last())[k]);
                        if k == j {
                            if j < keys0.len() - 1 {
                                assert(keys1[k] == keys0[keys0.len() - 1]);
                                assert(keys0[j] != keys0[keys0.len() - 1]);
                            }
                        } else {
                            assert(keys1[k] == keys0[k]);
                        }
                    }
                    assert(!has_key(keys1, cid));
                    assert forall|a: int, b: int| 0 <= a < b < keys1.len() implies keys1[a]
                        != keys1[b] by {
                        let ka = if a == j { keys0.len() - 1 } else { a };
                        let kb = if b == j { keys0.len() - 1 } else { b };
                        assert(keys1[a] == keys0[ka]);
                        assert(keys1[b] == keys0[kb]);
                    }
                    assert forall|k: int| 0 <= k < vals1.len() implies keys1[k]
                        == vals1[k].post.cid@ by {
                        assert(keys1[k] == keys0.update(j, keys0.last())[k]);
                        assert(vals1[k] == vals0.update(j, vals0.last())[k]);
                    }
                }
                map_insert(&mut cache.map, incoming);
                proof {
                    assert(map_keys(cache.map) == keys1.push(cid));
                    assert(map_vals(cache.map) == vals1.push(incoming));
                    assert(cache.wf()) by {
                        let keys2 = keys1.push(cid);
                        let vals2 = vals1.push(incoming);
                        assert forall|a: int, b: int| 0 <= a < b < keys2.len() implies keys2[a]
                            != keys2[b] by {
                            if b == keys2.len() - 1 {
                                assert(keys2[a] == keys1[a]);
                                assert(keys1[a] != cid);
                            }
                        }
                    }
                    assert(cache@ == merge_one(vals0, incoming));
                }
            } else {
                let updated = FeedItem {
                    post: incoming.post,
                    reason: entry.reason,
                    reply: entry.reply,
                };
                proof {
                    assert(updated == payload_updated(vals0[j], incoming));
                }
                map_insert(&mut cache.map, updated);
                proof {
                    assert(map_keys(cache.map) == keys0);
                    assert(map_vals(cache.map) == vals0.update(j, updated));
                    assert(cache.wf());
                    assert(cache@ == merge_one(vals0, incoming));
                }
            }
        },
        None => {
            map_insert(&mut cache.map, incoming);
            proof {
                assert(map_keys(cache.map) == keys0.push(cid));
                assert(map_vals(cache.map) == vals0.push(incoming));
                assert(cache.wf()) by {
                    let keys2 = keys0.push(cid);
                    assert forall|a: int, b: int| 0 <= a < b < keys2.len() implies keys2[a]
                        != keys2[b] by {
                        if b == keys2.len() - 1 {
                            assert(keys2[a] == keys0[a]);
                        }
                    }
                }
                assert(cache@ == merge_one(vals0, incoming));
            }
        },
    }
}

/// Merging a page, then one more item, is merging the page and then that
/// item.
proof fn lemma_merge_seq_push(s: Seq<FeedItem>, page: Seq<FeedItem>, x: FeedItem)
    ensures
        merge_seq(s, page.push(x)) == merge_one(merge_seq(s, page), x),
    decreases page.len(),
{
    let snoc = page.push(x);
    assert(snoc.len() == page.len() + 1);
    if page.len() == 0 {
        assert(snoc[0] == x);
        assert(snoc.drop_first() =~= Seq::<FeedItem>::empty());
        assert(merge_seq(s, snoc) == merge_seq(merge_one(s, x), snoc.drop_first()));
        assert(merge_seq(merge_one(s, x), snoc.drop_first()) == merge_one(s, x));
        assert(merge_seq(s, page) == s);
    } else {
        assert(snoc[0] == page[0]);
        assert(snoc.drop_first() =~= page.drop_first().push(x));
        assert(merge_seq(s, snoc) == merge_seq(merge_one(s, page[0]), snoc.drop_first()));
        lemma_merge_seq_push(merge_one(s, page[0]), page.drop_first(), x);
        assert(merge_seq(merge_one(s, page[0]), page.drop_first().push(x)) == merge_one(
            merge_seq(merge_one(s, page[0]), page.drop_first()),
            x,
        ));
        assert(merge_seq(s, page) == merge_seq(merge_one(s, page[0]), page.drop_first()));
    }
}

/// Merge a freshly fetched page of feed items, ordered oldest to newest,
/// into the cache.
pub fn update_feeds(feed: &Vec<FeedItem>, feed_map: &mut FeedCache)
    requires
        old(feed_map).wf(),
    ensures
        final(feed_map).wf(),
        final(feed_map)@ == merge_seq(old(feed_map)@, feed@),
{
    let ghost orig = old(feed_map)@;
    let mut i: usize = 0;
    while i < feed.len()
        invariant
            i <= feed.len(),
            feed_map.wf(),
            feed_map@ == merge_seq(orig, feed@.take(i as int)),
        decreases feed.len() - i,
    {
        let item = feed[i].clone();
        proof {
            lemma_merge_seq_push(orig, feed@.take(i as int), feed@[i as int]);
            assert(feed@.take(i as int).push(feed@[i as int]) =~= feed@.take(i + 1 as int));
        }
        merge_item(feed_map, item);
        i = i + 1;
    }
    proof {
        assert(feed@.take(feed.len() as int) =~= feed@);
    }
}

// ---------------------------------------------------------------------------
// Laws of the reconciliation algorithm.
// ---------------------------------------------------------------------------

/// A well-formed cache holds at most one entry per cid, so the laws below
/// apply to the view of any cache this module produces.
pub proof fn lemma_wf_distinct_cids(c: FeedCache)
    requires
        c.wf(),
    ensures
        distinct_cids(c@),
{
    let keys = map_keys(c.map);
    assert forall|j: int, k: int| 0 <= j < k < c@.len() implies c@[j].post.cid@
        != c@[k].post.cid@ by {
        assert(keys[j] == c@[j].post.cid@);
        assert(keys[k] == c@[k].post.cid@);
    }
}

/// Merging one already-cached, unchanged item changes nothing.
proof fn lemma_merge_one_unchanged(s: Seq<FeedItem>, incoming: FeedItem)
    requires
        distinct_cids(s),
        has_cid(s, incoming.post.cid@),
        s[cid_index(s, incoming.post.cid@)] == incoming,
    ensures
        merge_one(s, incoming) == s,
{
    let j = cid_index(s, incoming.post.cid@);
    assert(0 <= j < s.len() && s[j].post.cid@ == incoming.post.cid@);
    assert(!promotes(s[j], incoming));
    assert(payload_updated(s[j], incoming) == incoming);
    assert(s.update(j, incoming) =~= s);
}

/// Idempotence: merging a page that holds only already-cached, unchanged
/// items leaves the cache as it was — same size, same ordering, same
/// entries.
pub proof fn lemma_merge_idempotent(s: Seq<FeedItem>, page: Seq<FeedItem>)
    requires
        distinct_cids(s),
        forall|k: int|
            0 <= k < page.len() ==> has_cid(s, #[trigger] page[k].post.cid@) && s[cid_index(
                s,
                page[k].post.cid@,
            )] == page[k],
    ensures
        merge_seq(s, page) == s,
    decreases page.len(),
{
    if page.len() == 0 {
    } else {
        assert(has_cid(s, page[0].post.cid@) && s[cid_index(s, page[0].post.cid@)] == page[0]);
        lemma_merge_one_unchanged(s, page[0]);
        assert(merge_seq(s, page) == merge_seq(s, page.drop_first()));
        assert forall|k: int| 0 <= k < page.drop_first().len() implies has_cid(
            s,
            #[trigger] page.drop_first()[k].post.cid@,
        ) && s[cid_index(s, page.drop_first()[k].post.cid@)] == page.drop_first()[k] by {
            assert(page.drop_first()[k] == page[k + 1]);
        }
        lemma_merge_idempotent(s, page.drop_first());
    }
}

/// Merging a page of distinct, not-yet-cached items appends them, in the
/// page's order, after the existing entries.
pub proof fn lemma_merge_all_new(s: Seq<FeedItem>, page: Seq<FeedItem>)
    requires
        distinct_cids(page),
        forall|k: int| 0 <= k < page.len() ==> !has_cid(s, #[trigger] page[k].post.cid@),
    ensures
        merge_seq(s, page) == s + page,
    decreases page.len(),
{
    if page.len() == 0 {
        assert(s + page =~= s);
    } else {
        assert(!has_cid(s, page[0].post.cid@));
        assert(merge_one(s, page[0]) == s.push(page[0]));
        let s1 = s.push(page[0]);
        let rest = page.drop_first();
        assert forall|k: int| 0 <= k < rest.len() implies !has_cid(
            s1,
            #[trigger] rest[k].post.cid@,
        ) by {
            assert(rest[k] == page[k + 1]);
            let cid = page[k + 1].post.cid@;
            assert(!has_cid(s, cid));
            if has_cid(s1, cid) {
                let j = choose|j: int| 0 <= j < s1.len() && s1[j].post.cid@ == cid;
                if j < s.len() {
                    assert(s1[j] == s[j]);
                    assert(has_cid(s, cid));
                } else {
                    assert(s1[j] == page[0]);
                    assert(page[0].post.cid@ != page[k + 1].post.cid@);
                }
            }
        }
        assert(distinct_cids(rest)) by {
            assert forall|a: int, b: int| 0 <= a < b < rest.len() implies rest[a].post.cid@
                != rest[b].post.cid@ by {
                assert(rest[a] == page[a + 1]);
                assert(rest[b] == page[b + 1]);
            }
        }
        lemma_merge_all_new(s1, rest);
        assert(merge_seq(s, page) == merge_seq(s1, rest));
        assert(s1 + rest =~= s + page);
    }
}

/// Monotonic insertion: merging N distinct new items into an empty cache
/// yields a cache of size N holding exactly the page, in its order.
pub proof fn lemma_monotonic_insertion(page: Seq<FeedItem>)
    requires
        distinct_cids(page),
    ensures
        merge_seq(Seq::<FeedItem>::empty(), page) == page,
{
    assert forall|k: int| 0 <= k < page.len() implies !has_cid(
        Seq::<FeedItem>::empty(),
        #[trigger] page[k].post.cid@,
    ) by {}
    lemma_merge_all_new(Seq::<FeedItem>::empty(), page);
    assert(Seq::<FeedItem>::empty() + page =~= page);
}

/// Repost promotion: an incoming item that promotes its cached entry (a
/// first repost of a reason-less entry, or a strictly later repost) moves
/// that entry to the tail: the cache keeps its size, its last entry becomes
/// the incoming item, and the vacated place is filled by what was the last
/// entry.
pub proof fn lemma_promotion_moves_to_tail(s: Seq<FeedItem>, incoming: FeedItem)
    requires
        distinct_cids(s),
        has_cid(s, incoming.post.cid@),
        promotes(s[cid_index(s, incoming.post.cid@)], incoming),
    ensures
        merge_one(s, incoming).len() == s.len(),
        merge_one(s, incoming).last() == incoming,
        merge_one(s, incoming) == seq_swap_remove(s, cid_index(s, incoming.post.cid@)).push(
            incoming,
        ),
{
    let j = cid_index(s, incoming.post.cid@);
    assert(0 <= j < s.len() && s[j].post.cid@ == incoming.post.cid@);
}

/// Shared step for the laws about unpromoted re-merges: the matched entry
/// keeps its place, only its payload changes, and every other entry is
/// untouched.
proof fn lemma_no_promotion_keeps_positions(s: Seq<FeedItem>, incoming: FeedItem)
    requires
        distinct_cids(s),
        has_cid(s, incoming.post.cid@),
        !promotes(s[cid_index(s, incoming.post.cid@)], incoming),
    ensures
        merge_one(s, incoming).len() == s.len(),
        forall|k: int|
            0 <= k < s.len() ==> (#[trigger] merge_one(s, incoming)[k]).post.cid@
                == s[k].post.cid@,
        forall|k: int|
            0 <= k < s.len() ==> (#[trigger] merge_one(s, incoming)[k]).reason == s[k].reason,
        forall|k: int|
            0 <= k < s.len() && k != cid_index(s, incoming.post.cid@) ==> #[trigger] merge_one(
                s,
                incoming,
            )[k] == s[k],
        merge_one(s, incoming)[cid_index(s, incoming.post.cid@)].post == incoming.post,
        merge_one(s, incoming)[cid_index(s, incoming.post.cid@)].reply == s[cid_index(
            s,
            incoming.post.cid@,
        )].reply,
{
    let j = cid_index(s, incoming.post.cid@);
    assert(0 <= j < s.len() && s[j].post.cid@ == incoming.post.cid@);
    assert(merge_one(s, incoming) == s.update(j, payload_updated(s[j], incoming)));
}

/// Repost promotion, second half: a cached repost re-merged with no reason
/// or an older-or-equal repost does not move — every position keeps its cid
/// and reason, and only the matched entry's payload is refreshed.
pub proof fn lemma_stale_remerge_does_not_move(s: Seq<FeedItem>, incoming: FeedItem)
    requires
        distinct_cids(s),
        has_cid(s, incoming.post.cid@),
        s[cid_index(s, incoming.post.cid@)].reason is Some,
        (match (s[cid_index(s, incoming.post.cid@)].reason, incoming.reason) {
            (Some(_), None) => true,
            (Some(curr), Some(next)) => next.indexed_at <= curr.indexed_at,
            _ => false,
        }),
    ensures
        merge_one(s, incoming).len() == s.len(),
        forall|k: int|
            0 <= k < s.len() ==> (#[trigger] merge_one(s, incoming)[k]).post.cid@
                == s[k].post.cid@,
        forall|k: int|
            0 <= k < s.len() ==> (#[trigger] merge_one(s, incoming)[k]).reason == s[k].reason,
        merge_one(s, incoming)[cid_index(s, incoming.post.cid@)].post == incoming.post,
{
    lemma_no_promotion_keeps_positions(s, incoming);
}

/// Payload-only update preserves position: re-merging an item whose reason
/// is unchanged updates only its payload; its position, reason and reply
/// context are untouched, and no other entry changes at all.
pub proof fn lemma_payload_update_preserves_position(s: Seq<FeedItem>, incoming: FeedItem)
    requires
        distinct_cids(s),
        has_cid(s, incoming.post.cid@),
        s[cid_index(s, incoming.post.cid@)].reason == incoming.reason,
    ensures
        merge_one(s, incoming).len() == s.len(),
        forall|k: int|
            0 <= k < s.len() && k != cid_index(s, incoming.post.cid@) ==> #[trigger] merge_one(
                s,
                incoming,
            )[k] == s[k],
        merge_one(s, incoming)[cid_index(s, incoming.post.cid@)] == payload_updated(
            s[cid_index(s, incoming.post.cid@)],
            incoming,
        ),
{
    lemma_no_promotion_keeps_positions(s, incoming);
    let j = cid_index(s, incoming.post.cid@);
    assert(merge_one(s, incoming) == s.update(j, payload_updated(s[j], incoming)));
}

/// Merge the page into the cache, then copy the whole cache out newest
/// first, as the working snapshot for the filter pipeline.
pub fn merge_and_snapshot(feed_map: &mut FeedCache, feed: &Vec<FeedItem>) -> (r: Vec<FeedItem>)
    requires
        old(feed_map).wf(),
    ensures
        final(feed_map).wf(),
        final(feed_map)@ == merge_seq(old(feed_map)@, feed@),
        r@ == final(feed_map)@.reverse(),
{
    update_feeds(feed, feed_map);
    let mut values = feed_map.items();
    let ghost all = values@;
    let mut r: Vec<FeedItem> = Vec::new();
    proof {
        assert(values@ =~= all.take(values@.len() as int));
        assert(r@ =~= all.skip(values@.len() as int).reverse());
    }
    while values.len() > 0
        invariant
            values@.len() <= all.len(),
            values@ == all.take(values@.len() as int),
            r@ == all.skip(values@.len() as int).reverse(),
        decreases values.len(),
    {
        let ghost n = values@.len() as int;
        let item = values.pop().unwrap();
        r.push(item);
        proof {
            assert(values@ =~= all.take(n - 1));
            assert(r@ =~= all.skip(n - 1).reverse());
        }
    }
    proof {
        assert(all.take(0) =~= Seq::<FeedItem>::empty());
        assert(r@ =~= all.reverse());
    }
    r
}

} // verus!
