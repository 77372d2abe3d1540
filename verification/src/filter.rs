use crate::item::{Embed, FeedDescriptor, FeedItem, ReplyParent};
use crate::prefs::{effective_home_pref, FeedViewPreference, PreferencesSnapshot};
use vstd::prelude::*;

verus! {

// ---------------------------------------------------------------------------
// The preference-based visibility rule, item by item.
// ---------------------------------------------------------------------------

/// Whether the item is a reply whose parent was authored by the reply's own
/// author.
pub open spec fn is_self_reply(item: FeedItem) -> bool {
    match item.reply {
        Some(reply) => match reply.parent {
            ReplyParent::Post { author_did, .. } => author_did@ == item.post.author_did@,
            ReplyParent::Unavailable => false,
        },
        None => false,
    }
}

/// Whether the viewer follows the author of the reply's parent.
pub open spec fn parent_followed(item: FeedItem) -> bool {
    match item.reply {
        Some(reply) => match reply.parent {
            ReplyParent::Post { followed_by_viewer, .. } => followed_by_viewer,
            ReplyParent::Unavailable => false,
        },
        None => false,
    }
}

/// The item's like count, zero when the source reported none.
pub open spec fn like_count_or_zero(item: FeedItem) -> i64 {
    match item.post.like_count {
        Some(n) => n,
        None => 0,
    }
}

/// Whether the item embeds a quoted record, with or without media.
pub open spec fn is_quote_post(item: FeedItem) -> bool {
    match item.post.embed {
        Some(Embed::Record) => true,
        Some(Embed::RecordWithMedia) => true,
        _ => false,
    }
}

/// Whether the display preference keeps the item. An item is classified as
/// at most one of repost, reply, quote or other, in that order, and the
/// checks short-circuit:
/// - a repost is kept unless reposts are hidden;
/// - a reply is kept if it is a self-reply when replies are hidden or its
///   like count is below the threshold; otherwise, when replies by
///   unfollowed authors are hidden, it is kept only if the viewer follows
///   the parent's author;
/// - a quote post is kept unless quote posts are hidden;
/// - anything else is kept.
pub open spec fn keep_by_pref(item: FeedItem, pref: FeedViewPreference) -> bool {
    if item.reason is Some {
        !pref.hide_reposts
    } else if item.reply is Some {
        if pref.hide_replies {
            is_self_reply(item)
        } else if like_count_or_zero(item) < pref.hide_replies_by_like_count {
            is_self_reply(item)
        } else if pref.hide_replies_by_unfollowed {
            parent_followed(item)
        } else {
            true
        }
    } else if is_quote_post(item) {
        !pref.hide_quote_posts
    } else {
        true
    }
}

/// Decide whether the display preference keeps one feed item.
pub fn filter_feed(feed_view_post: &FeedItem, pref: &FeedViewPreference) -> (r: bool)
    ensures
        r == keep_by_pref(*feed_view_post, *pref),
{
    if let Some(_) = &feed_view_post.reason {
        return !pref.hide_reposts;
    }
    if let Some(reply) = &feed_view_post.reply {
        let is_self = match &reply.parent {
            ReplyParent::Post { author_did, .. } => *author_did == feed_view_post.post.author_did,
            ReplyParent::Unavailable => false,
        };
        if pref.hide_replies {
            return is_self;
        }
        let likes = match feed_view_post.post.like_count {
            Some(n) => n,
            None => 0,
        };
        if likes < pref.hide_replies_by_like_count {
            return is_self;
        }
        if pref.hide_replies_by_unfollowed {
            return match &reply.parent {
                ReplyParent::Post { followed_by_viewer, .. } => *followed_by_viewer,
                ReplyParent::Unavailable => false,
            };
        }
        return true;
    }
    match feed_view_post.post.embed {
        Some(Embed::Record) => !pref.hide_quote_posts,
        Some(Embed::RecordWithMedia) => !pref.hide_quote_posts,
        _ => true,
    }
}

// ---------------------------------------------------------------------------
// The two-stage pipeline over a whole snapshot.
// ---------------------------------------------------------------------------

/// Whether one item survives the whole pipeline: the moderation verdict
/// does not filter it, and, on the primary timeline only, the display
/// preference keeps it.
pub open spec fn visible(
    item: FeedItem,
    filtered: bool,
    timeline: bool,
    pref: FeedViewPreference,
) -> bool {
    &&& !filtered
    &&& timeline ==> keep_by_pref(item, pref)
}

/// The subsequence of `items` that the pipeline keeps, in order.
/// `filtered[k]` is the moderation verdict for `items[k]`: true when the
/// moderation decision says the item should be dropped.
pub open spec fn visible_seq(
    items: Seq<FeedItem>,
    filtered: Seq<bool>,
    timeline: bool,
    pref: FeedViewPreference,
) -> Seq<FeedItem>
    recommends
        items.len() == filtered.len(),
    decreases items.len(),
{
    if items.len() == 0 {
        Seq::<FeedItem>::empty()
    } else {
        let front = visible_seq(items.drop_last(), filtered.drop_last(), timeline, pref);
        if visible(items.last(), filtered.last(), timeline, pref) {
            front.push(items.last())
        } else {
            front
        }
    }
}

/// The subsequence of `items` that the moderation stage alone keeps.
pub open spec fn moderation_visible_seq(items: Seq<FeedItem>, filtered: Seq<bool>) -> Seq<FeedItem>
    recommends
        items.len() == filtered.len(),
    decreases items.len(),
{
    if items.len() == 0 {
        Seq::<FeedItem>::empty()
    } else {
        let front = moderation_visible_seq(items.drop_last(), filtered.drop_last());
        if !filtered.last() {
            front.push(items.last())
        } else {
            front
        }
    }
}

/// Run the filter pipeline over a newest-first snapshot of the cache.
/// No fetch is involved: the result is a function of the snapshot, the
/// moderation verdicts, the feed's descriptor and the preferences alone.
pub fn apply_filters(
    snapshot: &Vec<FeedItem>,
    filtered: &Vec<bool>,
    descriptor: &FeedDescriptor,
    preferences: &PreferencesSnapshot,
) -> (r: Vec<FeedItem>)
    requires
        snapshot@.len() == filtered@.len(),
    ensures
        r@ == visible_seq(
            snapshot@,
            filtered@,
            descriptor.is_timeline(),
            effective_home_pref(*preferences),
        ),
{
    let timeline = match descriptor {
        FeedDescriptor::Timeline { .. } => true,
        _ => false,
    };
    let pref = match &preferences.home {
        Some(p) => *p,
        None => FeedViewPreference::default(),
    };
    let mut r: Vec<FeedItem> = Vec::new();
    let mut i: usize = 0;
    while i < snapshot.len()
        invariant
            i <= snapshot@.len(),
            snapshot@.len() == filtered@.len(),
            timeline == descriptor.is_timeline(),
            pref == effective_home_pref(*preferences),
            r@ == visible_seq(snapshot@.take(i as int), filtered@.take(i as int), timeline, pref),
        decreases snapshot@.len() - i,
    {
        let item = &snapshot[i];
        let keep = !filtered[i] && (!timeline || filter_feed(item, &pref));
        if keep {
            r.push(item.clone());
        }
        proof {
            let k = i as int;
            assert(snapshot@.take(k + 1).drop_last() =~= snapshot@.take(k));
            assert(filtered@.take(k + 1).drop_last() =~= filtered@.take(k));
            assert(snapshot@.take(k + 1).last() == snapshot@[k]);
            assert(filtered@.take(k + 1).last() == filtered@[k]);
        }
        i = i + 1;
    }
    proof {
        assert(snapshot@.take(snapshot@.len() as int) =~= snapshot@);
        assert(filtered@.take(filtered@.len() as int) =~= filtered@);
    }
    r
}

/// Off the primary timeline, the preference stage has no effect: for a
/// named-feed or list descriptor the pipeline's result is exactly the
/// moderation-filtered snapshot, whatever the display preference says.
pub proof fn lemma_feed_kind_scoping(
    items: Seq<FeedItem>,
    filtered: Seq<bool>,
    pref: FeedViewPreference,
)
    ensures
        visible_seq(items, filtered, false, pref) == moderation_visible_seq(items, filtered),
    decreases items.len(),
{
    if items.len() == 0 {
    } else {
        lemma_feed_kind_scoping(items.drop_last(), filtered.drop_last(), pref);
    }
}

} // verus!
