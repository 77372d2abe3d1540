use vstd::prelude::*;

verus! {

/// Kind of content embedded in a post, as far as the visibility rules read it.
#[derive(Clone, Copy, Debug, PartialEq, Eq)]
pub enum Embed {
    /// The post embeds another record: a quote post.
    Record,
    /// The post embeds another record together with media.
    RecordWithMedia,
    /// Any other embed (images, external links, ...).
    Other,
}

/// A post payload: the fields of a feed entry that the cache and the
/// visibility rules read. A payload is replaced wholesale on update, never
/// mutated field by field.
#[derive(Debug, PartialEq, Eq)]
pub struct Post {
    /// Content-addressed identifier of the post's current content; the cache key.
    pub cid: String,
    /// Identifier of the post's author.
    pub author_did: String,
    /// Number of likes, when the source reports one.
    pub like_count: Option<i64>,
    /// What the post embeds, when anything.
    pub embed: Option<Embed>,
    /// The post's text.
    pub text: String,
}

/// Why an item appears in the feed although its content was authored by
/// someone else: another account reshared it.
#[derive(Debug, PartialEq, Eq)]
pub struct RepostReason {
    /// Identifier of the account that reshared the post.
    pub by_did: String,
    /// When the reshare was indexed, as a monotonic timestamp.
    pub indexed_at: u64,
}

/// The parent of a reply, as far as the visibility rules read it.
#[derive(Debug, PartialEq, Eq)]
pub enum ReplyParent {
    /// The parent post is visible: its author, and whether the viewer
    /// follows that author.
    Post { author_did: String, followed_by_viewer: bool },
    /// The parent is not available (deleted or blocked).
    Unavailable,
}

/// Reply context of a feed item.
#[derive(Debug, PartialEq, Eq)]
pub struct ReplyRef {
    pub parent: ReplyParent,
}

/// One entry of a feed: a post, an optional reshare reason and an optional
/// reply context. An immutable value type.
#[derive(Debug, PartialEq, Eq)]
pub struct FeedItem {
    pub post: Post,
    pub reason: Option<RepostReason>,
    pub reply: Option<ReplyRef>,
}

/// Which remote feed source a watcher targets; immutable for the lifetime of
/// a watcher.
#[derive(Debug, PartialEq, Eq)]
pub enum FeedDescriptor {
    /// A named feed generator, by its uri.
    Feed { uri: String },
    /// A list feed.
    List,
    /// The viewer's primary timeline, with its displayed name.
    Timeline { name: String },
}

impl FeedDescriptor {
    /// Whether this descriptor names the viewer's primary timeline.
    pub open spec fn is_timeline(self) -> bool {
        self is Timeline
    }
}

impl Clone for Post {
    fn clone(&self) -> (r: Self)
        ensures
            r == *self,
    {
        Post {
            cid: self.cid.clone(),
            author_did: self.author_did.clone(),
            like_count: self.like_count,
            embed: self.embed,
            text: self.text.clone(),
        }
    }
}

impl Clone for RepostReason {
    fn clone(&self) -> (r: Self)
        ensures
            r == *self,
    {
        RepostReason { by_did: self.by_did.clone(), indexed_at: self.indexed_at }
    }
}

impl Clone for ReplyParent {
    fn clone(&self) -> (r: Self)
        ensures
            r == *self,
    {
        match self {
            ReplyParent::Post { author_did, followed_by_viewer } => ReplyParent::Post {
                author_did: author_did.clone(),
                followed_by_viewer: *followed_by_viewer,
            },
            ReplyParent::Unavailable => ReplyParent::Unavailable,
        }
    }
}

impl Clone for ReplyRef {
    fn clone(&self) -> (r: Self)
        ensures
            r == *self,
    {
        ReplyRef { parent: self.parent.clone() }
    }
}

impl Clone for FeedItem {
    fn clone(&self) -> (r: Self)
        ensures
            r == *self,
    {
        FeedItem {
            post: self.post.clone(),
            reason: match &self.reason {
                Some(reason) => Some(reason.clone()),
                None => None,
            },
            reply: match &self.reply {
                Some(reply) => Some(reply.clone()),
                None => None,
            },
        }
    }
}

impl Clone for FeedDescriptor {
    fn clone(&self) -> (r: Self)
        ensures
            r == *self,
    {
        match self {
            FeedDescriptor::Feed { uri } => FeedDescriptor::Feed { uri: uri.clone() },
            FeedDescriptor::List => FeedDescriptor::List,
            FeedDescriptor::Timeline { name } => FeedDescriptor::Timeline { name: name.clone() },
        }
    }
}

} // verus!
