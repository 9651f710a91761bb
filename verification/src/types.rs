use vstd::prelude::*;

verus! {

/// The content of a string vector, as character sequences.
pub open spec fn words(v: Seq<String>) -> Seq<Seq<char>> {
    v.map_values(|s: String| s@)
}

/// The tags of a post, grouped by kind.
#[derive(Debug, Clone)]
pub struct TagInfo {
    pub general: Vec<String>,
    pub meta: Vec<String>,
    pub artists: Vec<String>,
    pub characters: Vec<String>,
    pub copyrights: Vec<String>,
}

impl TagInfo {
    /// Holds no tag of any kind.
    pub open spec fn is_empty_spec(&self) -> bool {
        &&& self.general@.len() == 0
        &&& self.meta@.len() == 0
        &&& self.artists@.len() == 0
        &&& self.characters@.len() == 0
        &&& self.copyrights@.len() == 0
    }

    /// A tag set with no tags.
    pub fn empty() -> (t: TagInfo)
        ensures
            t.is_empty_spec(),
    {
        TagInfo {
            general: Vec::new(),
            meta: Vec::new(),
            artists: Vec::new(),
            characters: Vec::new(),
            copyrights: Vec::new(),
        }
    }
}

/// One post of an image board.
#[derive(Debug, Clone)]
pub struct PostData {
    pub file_url: String,
    pub artists: Vec<String>,
    pub post_id: u64,
    pub tag_info: TagInfo,
}

impl PostData {
    /// The post a fetch yields from its raw fields: with no tag data the post
    /// has no tags and no artists; otherwise its artists are those of its tags.
    pub fn from_parts(file_url: String, post_id: u64, tags: Option<TagInfo>) -> (p: PostData)
        ensures
            p.file_url@ == file_url@,
            p.post_id == post_id,
            p.artists@ == p.tag_info.artists@,
            match tags {
                Some(t) => p.tag_info == t,
                None => p.tag_info.is_empty_spec(),
            },
    {
        match tags {
            Some(tag_info) => {
                let artists = tag_info.artists.clone();
                assert(artists@ =~= tag_info.artists@);
                PostData { file_url, artists, post_id, tag_info }
            },
            None => PostData { file_url, artists: Vec::new(), post_id, tag_info: TagInfo::empty() },
        }
    }
}

/// The image board that a cache is filled from.
#[derive(Debug, Clone, Copy, PartialEq, Eq, Structural)]
pub enum PostProvider {
    Safebooru,
    Rule34,
}

/// The bot's configuration: who may use sensitive commands, and the
/// channels that count as bot channels (user and channel ids).
#[derive(Debug, Clone)]
pub struct Config {
    pub authorized_users: Vec<u64>,
    pub bot_channels: Vec<u64>,
}

impl Config {
    /// Whether `channel` is one of the configured bot channels.
    pub fn is_bot_channel(&self, channel: u64) -> (r: bool)
        ensures
            r == self.bot_channels@.contains(channel),
    {
        let mut i: usize = 0;
        while i < self.bot_channels.len()
            invariant
                i <= self.bot_channels@.len(),
                forall|j: int| 0 <= j < i ==> self.bot_channels@[j] != channel,
            decreases self.bot_channels@.len() - i,
        {
            if self.bot_channels[i] == channel {
                assert(self.bot_channels@[i as int] == channel);
                return true;
            }
            i = i + 1;
        }
        false
    }
}

} // verus!
