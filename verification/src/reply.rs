use vstd::prelude::*;
use crate::cache::PostCache;
use crate::format::{artists_line, artists_text, format_tags_with_ansi, tags_text};
use crate::types::PostData;

verus! {

/// What the bot answers when a cache holds no post yet.
pub const CACHE_EMPTY: &'static str = "Cache empty, please wait a moment!";
/// What the bot answers to a ping.
pub const PONG: &'static str = "Pong!!!";

/// A reply of the bot to a command.
#[derive(Debug)]
pub enum Reply {
    /// A plain text message.
    Text { content: String, ephemeral: bool },
    /// An embed that shows an image with its author line and description.
    Embed { author: String, description: String, image: String, ephemeral: bool },
}

/// A reply as character sequences.
pub enum ReplyView {
    Text { content: Seq<char>, ephemeral: bool },
    Embed { author: Seq<char>, description: Seq<char>, image: Seq<char>, ephemeral: bool },
}

impl View for Reply {
    type V = ReplyView;

    open spec fn view(&self) -> ReplyView {
        match self {
            Reply::Text { content, ephemeral } => ReplyView::Text {
                content: content@,
                ephemeral: *ephemeral,
            },
            Reply::Embed { author, description, image, ephemeral } => ReplyView::Embed {
                author: author@,
                description: description@,
                image: image@,
                ephemeral: *ephemeral,
            },
        }
    }
}

/// The answer to a ping: "Pong!!!", seen only by the one who asked.
pub fn ping_reply() -> (r: Reply)
    ensures
        r@ == (ReplyView::Text { content: PONG@, ephemeral: true }),
{
    Reply::Text { content: String::from_str(PONG), ephemeral: true }
}

/// The reply that shows a post, or says privately that the cache is empty.
pub open spec fn spec_post_reply(post: Option<PostData>, private: bool) -> ReplyView {
    match post {
        None => ReplyView::Text { content: CACHE_EMPTY@, ephemeral: true },
        Some(p) => ReplyView::Embed {
            author: artists_text(p.artists@),
            description: tags_text(p.tag_info),
            image: p.file_url@,
            ephemeral: private,
        },
    }
}

/// The reply that shows `post` (its artists, its tags and its image),
/// privately or not; with no post, a private note that the cache is empty.
pub fn post_reply(post: Option<&PostData>, private: bool) -> (r: Reply)
    ensures
        r@ == spec_post_reply(
            match post {
                Some(p) => Some(*p),
                None => None,
            },
            private,
        ),
{
    match post {
        None => Reply::Text { content: String::from_str(CACHE_EMPTY), ephemeral: true },
        Some(p) => Reply::Embed {
            author: artists_line(&p.artists),
            description: format_tags_with_ansi(&p.tag_info),
            image: p.file_url.clone(),
            ephemeral: private,
        },
    }
}

/// The reply of an image command: a post of `cache` picked at random, or a
/// private note that the cache is empty.
pub fn cache_reply(cache: &PostCache, private: bool) -> (r: Reply)
    ensures
        cache.posts@.len() == 0 ==> r@ == spec_post_reply(None, private),
        cache.posts@.len() > 0 ==> exists|i: int|
            0 <= i < cache.posts@.len() && r@ == spec_post_reply(Some(cache.posts@[i]), private),
{
    let post = cache.pull_random();
    let r = post_reply(post, private);
    proof {
        if cache.posts@.len() > 0 {
            let p = *post.unwrap();
            let i = choose|i: int| 0 <= i < cache.posts@.len() && cache.posts@[i] == p;
            assert(r@ == spec_post_reply(Some(cache.posts@[i]), private));
        }
    }
    r
}

} // verus!
