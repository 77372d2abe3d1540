use vstd::prelude::*;

verus! {

/// Display settings for one feed view: which replies, reposts and quote
/// posts the viewer wants hidden.
#[derive(Clone, Copy, Debug, PartialEq, Eq)]
pub struct FeedViewPreference {
    /// Hide every reply that is not a self-reply.
    pub hide_replies: bool,
    /// Hide replies whose parent's author the viewer does not follow.
    pub hide_replies_by_unfollowed: bool,
    /// Hide replies with fewer likes than this, unless they are self-replies.
    pub hide_replies_by_like_count: i64,
    /// Hide reshared items.
    pub hide_reposts: bool,
    /// Hide quote posts.
    pub hide_quote_posts: bool,
}

impl FeedViewPreference {
    /// The preference that applies when a snapshot carries none for the
    /// timeline: replies by unfollowed authors are hidden, everything else
    /// is shown.
    pub open spec fn default_spec() -> FeedViewPreference {
        FeedViewPreference {
            hide_replies: false,
            hide_replies_by_unfollowed: true,
            hide_replies_by_like_count: 0,
            hide_reposts: false,
            hide_quote_posts: false,
        }
    }
}

impl Default for FeedViewPreference {
    fn default() -> (r: Self)
        ensures
            r == FeedViewPreference::default_spec(),
    {
        FeedViewPreference {
            hide_replies: false,
            hide_replies_by_unfollowed: true,
            hide_replies_by_like_count: 0,
            hide_reposts: false,
            hide_quote_posts: false,
        }
    }
}

/// The slice of the user's settings that the feed pipeline reads: the
/// display preference for the timeline ("home") feed view, when the user has
/// set one. Moderation settings live in the moderation engine that the
/// surrounding program builds from the same snapshot; this core only
/// receives that engine's per-item verdicts.
#[derive(Clone, Copy, Debug, PartialEq, Eq)]
pub struct PreferencesSnapshot {
    /// The preference for the timeline feed view, when the user has set one.
    pub home: Option<FeedViewPreference>,
}

/// The display preference that a snapshot yields for the timeline: the one
/// the user set, or the default.
pub open spec fn effective_home_pref(p: PreferencesSnapshot) -> FeedViewPreference {
    match p.home {
        Some(pref) => pref,
        None => FeedViewPreference::default_spec(),
    }
}

} // verus!
