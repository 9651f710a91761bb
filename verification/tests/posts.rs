use nikos_discord_bot::cache::PostCache;
use nikos_discord_bot::types::{PostData, PostProvider, TagInfo};

fn tags(general: &[&str], artists: &[&str]) -> TagInfo {
    TagInfo {
        general: general.iter().map(|s| s.to_string()).collect(),
        meta: vec![],
        artists: artists.iter().map(|s| s.to_string()).collect(),
        characters: vec![],
        copyrights: vec![],
    }
}

fn post(id: u64) -> PostData {
    PostData::from_parts(format!("https://example.org/{}.png", id), id, Some(tags(&["smile"], &["someone"])))
}

#[test]
fn empty_cache_keeps_its_parameters() {
    let c = PostCache::empty("teto".to_string(), 10, PostProvider::Safebooru);
    assert!(c.posts.is_empty());
    assert_eq!(c.query, "teto");
    assert_eq!(c.limit, 10);
    assert_eq!(c.provider, PostProvider::Safebooru);
    assert!(c.posts().is_empty());
}

#[test]
fn pull_random_on_empty_cache_is_none() {
    let c = PostCache::empty("rei".to_string(), 10, PostProvider::Rule34);
    assert!(c.pull_random().is_none());
}

#[test]
fn pull_random_returns_a_cached_post() {
    let mut c = PostCache::empty("rei".to_string(), 10, PostProvider::Safebooru);
    let fetched: Result<Vec<PostData>, String> = Ok(vec![post(1), post(2), post(3)]);
    assert!(c.fill(fetched).is_ok());
    for _ in 0..50 {
        let p = c.pull_random().expect("a post");
        assert!([1, 2, 3].contains(&p.post_id));
    }
}

#[test]
fn pull_random_with_one_post_returns_it() {
    let mut c = PostCache::empty("rei".to_string(), 10, PostProvider::Safebooru);
    let fetched: Result<Vec<PostData>, String> = Ok(vec![post(7)]);
    c.fill(fetched).unwrap();
    assert_eq!(c.pull_random().unwrap().post_id, 7);
}

#[test]
fn fill_replaces_posts_on_success() {
    let mut c = PostCache::empty("q".to_string(), 5, PostProvider::Safebooru);
    c.fill::<String>(Ok(vec![post(1), post(2)])).unwrap();
    c.fill::<String>(Ok(vec![post(9)])).unwrap();
    assert_eq!(c.posts.len(), 1);
    assert_eq!(c.posts[0].post_id, 9);
    assert_eq!(c.query, "q");
    assert_eq!(c.limit, 5);
}

#[test]
fn failed_fill_keeps_old_posts() {
    let mut c = PostCache::empty("q".to_string(), 5, PostProvider::Rule34);
    c.fill::<String>(Ok(vec![post(1), post(2)])).unwrap();
    let r = c.fill::<String>(Err("network down".to_string()));
    assert_eq!(r, Err("network down".to_string()));
    assert_eq!(c.posts.len(), 2);
    assert_eq!(c.posts[1].post_id, 2);
}

#[test]
fn new_cache_from_successful_fetch() {
    let c = PostCache::new::<String>("teto".to_string(), 10, PostProvider::Safebooru, Ok(vec![post(4)])).unwrap();
    assert_eq!(c.posts.len(), 1);
    assert_eq!(c.query, "teto");
    assert_eq!(c.limit, 10);
    assert_eq!(c.provider, PostProvider::Safebooru);
}

#[test]
fn new_cache_from_failed_fetch_is_the_error() {
    let r = PostCache::new::<String>("teto".to_string(), 10, PostProvider::Rule34, Err("boom".to_string()));
    assert_eq!(r.err(), Some("boom".to_string()));
}

#[test]
fn post_without_tag_data_has_no_tags() {
    let p = PostData::from_parts("u".to_string(), 3, None);
    assert_eq!(p.file_url, "u");
    assert_eq!(p.post_id, 3);
    assert!(p.artists.is_empty());
    assert!(p.tag_info.general.is_empty());
    assert!(p.tag_info.meta.is_empty());
    assert!(p.tag_info.artists.is_empty());
    assert!(p.tag_info.characters.is_empty());
    assert!(p.tag_info.copyrights.is_empty());
}

#[test]
fn post_artists_come_from_its_tags() {
    let p = PostData::from_parts("u".to_string(), 3, Some(tags(&["a", "b"], &["x", "y"])));
    assert_eq!(p.artists, vec!["x".to_string(), "y".to_string()]);
    assert_eq!(p.tag_info.artists, p.artists);
    assert_eq!(p.tag_info.general, vec!["a".to_string(), "b".to_string()]);
}

#[test]
fn empty_tag_info_is_empty() {
    let t = TagInfo::empty();
    assert!(t.general.is_empty() && t.meta.is_empty() && t.artists.is_empty());
    assert!(t.characters.is_empty() && t.copyrights.is_empty());
}
