use vstd::prelude::*;
use rand::seq::IndexedRandom;
use crate::types::{PostData, PostProvider};

verus! {

/// Picks one item of `items` at random, with `rand`'s `IndexedRandom::choose`
/// on the thread-local generator `rand::rng()`.
/// Claimed of it: no item when `items` is empty, and otherwise a reference to
/// one of the items. Which one is left unsaid: it rests on chance.
#[verifier::external_body]
fn choose_random<T>(items: &[T]) -> (r: Option<&T>)
    ensures
        r is None <==> items@.len() == 0,
        r matches Some(x) ==> exists|i: int| 0 <= i < items@.len() && items@[i] == *x,
{
    items.choose(&mut rand::rng())
}

/// A cache of the posts that one query on one image board returned.
#[derive(Debug, Clone)]
pub struct PostCache {
    pub posts: Vec<PostData>,
    pub query: String,
    pub limit: usize,
    pub provider: PostProvider,
}

impl PostCache {
    /// A cache for `query` on `provider`, with at most `limit` posts asked
    /// for, that holds no post yet.
    pub fn empty(query: String, limit: usize, provider: PostProvider) -> (c: PostCache)
        ensures
            c.posts@.len() == 0,
            c.query@ == query@,
            c.limit == limit,
            c.provider == provider,
    {
        PostCache { posts: Vec::new(), query, limit, provider }
    }

    /// A cache made from what its first fetch returned: the fetched posts when
    /// the fetch succeeded, its error otherwise.
    pub fn new<E>(
        query: String,
        limit: usize,
        provider: PostProvider,
        fetched: Result<Vec<PostData>, E>,
    ) -> (r: Result<PostCache, E>)
        ensures
            r is Ok <==> fetched is Ok,
            r matches Ok(c) ==> {
                &&& c.posts@ == fetched->Ok_0@
                &&& c.query@ == query@
                &&& c.limit == limit
                &&& c.provider == provider
            },
            r matches Err(e) ==> fetched == Err::<Vec<PostData>, E>(e),
    {
        let mut new = PostCache::empty(query, limit, provider);
        match new.fill(fetched) {
            Ok(_) => Ok(new),
            Err(e) => Err(e),
        }
    }

    /// Takes in what a fetch of this cache's query returned: on success the
    /// fetched posts replace the cached ones; on failure the cache is left as
    /// it was and the error is handed back.
    pub fn fill<E>(&mut self, fetched: Result<Vec<PostData>, E>) -> (r: Result<(), E>)
        ensures
            r is Ok <==> fetched is Ok,
            r matches Err(e) ==> fetched == Err::<Vec<PostData>, E>(e),
            fetched matches Ok(v) ==> final(self).posts@ == v@,
            fetched is Err ==> final(self).posts@ == old(self).posts@,
            final(self).query == old(self).query,
            final(self).limit == old(self).limit,
            final(self).provider == old(self).provider,
    {
        match fetched {
            Ok(posts) => {
                self.posts = posts;
                Ok(())
            },
            Err(e) => Err(e),
        }
    }

    /// The cached posts.
    pub fn posts(&self) -> (r: &Vec<PostData>)
        ensures
            r@ == self.posts@,
    {
        &self.posts
    }

    /// One of the cached posts, picked at random; none when the cache is empty.
    pub fn pull_random(&self) -> (r: Option<&PostData>)
        ensures
            r is None <==> self.posts@.len() == 0,
            r matches Some(p) ==> self.posts@.contains(*p),
    {
        if self.posts.is_empty() {
            return None;
        }
        choose_random(self.posts.as_slice())
    }
}

} // verus!
