use feedwatch::cache::FeedCache;
use feedwatch::item::{FeedItem, Post, RepostReason};
use feedwatch::merge::update_feeds;

fn feed_view_post(cid: &str, reason_indexed_at: Option<u64>) -> FeedItem {
    FeedItem {
        post: Post {
            cid: cid.to_string(),
            author_did: "did:fake:post.test".to_string(),
            like_count: None,
            embed: None,
            text: "post".to_string(),
        },
        reason: reason_indexed_at.map(|indexed_at| RepostReason {
            by_did: "did:fake:post.test".to_string(),
            indexed_at,
        }),
        reply: None,
    }
}

#[test]
fn update_feed_views() {
    let cids = [
        "bafyreidfayvfuwqa7qlnopdjiqrxzs6blmoeu4rujcjtnci5beludirz2a",
        "bafyreidfayvfuwqa7qlnopdjiqrxzs6blmoeu4rujcjtnci5beludirz3a",
        "bafyreidfayvfuwqa7qlnopdjiqrxzs6blmoeu4rujcjtnci5beludirz4a",
    ];
    let mut feed_map = FeedCache::new();
    // Empty feeds
    update_feeds(&Vec::new(), &mut feed_map);
    assert_eq!(feed_map.len(), 0);
    // New feed
    update_feeds(&vec![feed_view_post(cids[0], None)], &mut feed_map);
    assert_eq!(feed_map.len(), 1);
    // Duplicate feed
    update_feeds(&vec![feed_view_post(cids[0], None)], &mut feed_map);
    assert_eq!(feed_map.len(), 1);
    // Duplicated and new feed
    update_feeds(
        &vec![feed_view_post(cids[0], None), feed_view_post(cids[1], None)],
        &mut feed_map,
    );
    let items = feed_map.items();
    assert_eq!(feed_map.len(), 2);
    assert_eq!(items[0].post.cid, cids[0]);
    assert_eq!(items[1].post.cid, cids[1]);
    // New and duplicated feed
    update_feeds(
        &vec![feed_view_post(cids[2], None), feed_view_post(cids[1], None)],
        &mut feed_map,
    );
    let items = feed_map.items();
    assert_eq!(feed_map.len(), 3);
    assert_eq!(items[0].post.cid, cids[0]);
    assert_eq!(items[1].post.cid, cids[1]);
    assert_eq!(items[2].post.cid, cids[2]);
    // Duplicated, but updated feed
    update_feeds(
        &vec![
            feed_view_post(cids[1], Some(1)),
            feed_view_post(cids[2], None),
        ],
        &mut feed_map,
    );
    let items = feed_map.items();
    assert_eq!(feed_map.len(), 3);
    println!(
        "{:?}",
        items.iter().map(|item| item.post.cid.clone()).collect::<Vec<_>>()
    );
    assert_eq!(items[0].post.cid, cids[0]);
    assert_eq!(items[1].post.cid, cids[2]);
    assert_eq!(items[2].post.cid, cids[1]);
    assert!(items[0].reason.is_none());
    assert!(items[1].reason.is_none());
    assert!(items[2].reason.is_some());
    // Duplicated, but updated feed
    update_feeds(
        &vec![
            feed_view_post(cids[0], Some(2)),
            feed_view_post(cids[1], Some(3)),
        ],
        &mut feed_map,
    );
    let items = feed_map.items();
    assert_eq!(feed_map.len(), 3);
    println!(
        "{:?}",
        items.iter().map(|item| item.post.cid.clone()).collect::<Vec<_>>()
    );
    assert_eq!(items[1].post.cid, cids[2]);
    assert_eq!(items[0].post.cid, cids[0]);
    assert_eq!(items[2].post.cid, cids[1]);
    assert!(items[0].reason.is_some());
    assert!(items[1].reason.is_none());
    assert!(items[2].reason.is_some());
}

#[test]
fn merge_unchanged_item_is_idempotent() {
    let mut cache = FeedCache::new();
    update_feeds(&vec![feed_view_post("c0", None)], &mut cache);
    update_feeds(&vec![feed_view_post("c1", Some(7))], &mut cache);
    let before = cache.items();
    // A page holding only already-cached, unchanged items changes nothing.
    update_feeds(
        &vec![feed_view_post("c0", None), feed_view_post("c1", Some(7))],
        &mut cache,
    );
    let after = cache.items();
    assert_eq!(before, after);
    assert_eq!(cache.len(), 2);
}

#[test]
fn merge_distinct_new_items_keeps_page_order() {
    let mut cache = FeedCache::new();
    let page = vec![
        feed_view_post("c0", None),
        feed_view_post("c1", None),
        feed_view_post("c2", Some(4)),
    ];
    update_feeds(&page, &mut cache);
    let items = cache.items();
    assert_eq!(cache.len(), 3);
    assert_eq!(items[0].post.cid, "c0");
    assert_eq!(items[1].post.cid, "c1");
    assert_eq!(items[2].post.cid, "c2");
}

#[test]
fn repost_promotion_moves_to_tail_and_stale_repost_does_not() {
    let mut cache = FeedCache::new();
    update_feeds(
        &vec![
            feed_view_post("c0", None),
            feed_view_post("c1", None),
            feed_view_post("c2", None),
        ],
        &mut cache,
    );
    // A first repost of a reason-less entry moves it to the tail; the last
    // entry is swapped into the vacated place.
    update_feeds(&vec![feed_view_post("c0", Some(5))], &mut cache);
    let items = cache.items();
    assert_eq!(cache.len(), 3);
    assert_eq!(items[0].post.cid, "c2");
    assert_eq!(items[1].post.cid, "c1");
    assert_eq!(items[2].post.cid, "c0");
    assert!(items[2].reason.is_some());
    // An older repost does not move it.
    update_feeds(&vec![feed_view_post("c0", Some(4))], &mut cache);
    let items = cache.items();
    assert_eq!(items[2].post.cid, "c0");
    assert_eq!(items[2].reason.as_ref().unwrap().indexed_at, 5);
    // An equal repost does not move it either.
    update_feeds(&vec![feed_view_post("c0", Some(5))], &mut cache);
    let items = cache.items();
    assert_eq!(items[0].post.cid, "c2");
    assert_eq!(items[1].post.cid, "c1");
    assert_eq!(items[2].post.cid, "c0");
    // A strictly later repost moves it again (already at the tail here, so
    // check via a middle entry instead).
    update_feeds(&vec![feed_view_post("c1", Some(9))], &mut cache);
    let items = cache.items();
    assert_eq!(items[0].post.cid, "c2");
    assert_eq!(items[1].post.cid, "c0");
    assert_eq!(items[2].post.cid, "c1");
}

#[test]
fn payload_only_update_preserves_position() {
    let mut cache = FeedCache::new();
    update_feeds(
        &vec![feed_view_post("c0", None), feed_view_post("c1", None)],
        &mut cache,
    );
    let mut refreshed = feed_view_post("c0", None);
    refreshed.post.text = "edited".to_string();
    refreshed.post.like_count = Some(11);
    update_feeds(&vec![refreshed], &mut cache);
    let items = cache.items();
    assert_eq!(cache.len(), 2);
    assert_eq!(items[0].post.cid, "c0");
    assert_eq!(items[0].post.text, "edited");
    assert_eq!(items[0].post.like_count, Some(11));
    assert!(items[0].reason.is_none());
    assert_eq!(items[1].post.cid, "c1");
}

#[test]
fn merge_page_with_duplicate_cid_keeps_one_entry() {
    let mut cache = FeedCache::new();
    update_feeds(
        &vec![feed_view_post("c0", None), feed_view_post("c0", None)],
        &mut cache,
    );
    assert_eq!(cache.len(), 1);
    // Within one page, a later repost of the same cid still promotes.
    update_feeds(
        &vec![feed_view_post("c1", None), feed_view_post("c0", Some(2))],
        &mut cache,
    );
    let items = cache.items();
    assert_eq!(cache.len(), 2);
    assert_eq!(items[0].post.cid, "c1");
    assert_eq!(items[1].post.cid, "c0");
    assert!(items[1].reason.is_some());
}
