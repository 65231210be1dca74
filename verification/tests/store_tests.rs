//! Tests for the store contract: append-only insert, newest-first reads.

use blog_core::blogpost::Blogpost;
use blog_core::store::PostStore;

fn post(text: &str, author: &str, published: i64, image: Option<&str>, avatar: Option<&str>) -> Blogpost {
    Blogpost {
        text: text.to_string(),
        author_username: author.to_string(),
        published,
        image_base64: image.map(|s| s.to_string()),
        avatar_base64: avatar.map(|s| s.to_string()),
    }
}

#[test]
fn insert_then_read_roundtrips_payloads() {
    let mut store = PostStore::new();
    let p = post("body", "alice", 7, Some("aW1hZ2U="), Some("YXZhdGFy"));
    store.insert_blogpost(p.clone());
    let all = store.get_all_blogposts();
    assert_eq!(all.len(), 1);
    assert_eq!(all[0], p);
    assert_eq!(all[0].image_base64.as_deref(), Some("aW1hZ2U="));
    assert_eq!(all[0].avatar_base64.as_deref(), Some("YXZhdGFy"));
}

#[test]
fn reading_twice_without_insert_is_idempotent() {
    let mut store = PostStore::new();
    store.insert_blogpost(post("one", "alice", 1, None, None));
    store.insert_blogpost(post("two", "bob", 2, None, None));
    let first = store.get_all_blogposts();
    let second = store.get_all_blogposts();
    assert_eq!(first, second);
}

#[test]
fn three_inserts_read_newest_first() {
    let p1 = post("first", "alice", 1, None, None);
    let p2 = post("second", "bob", 2, None, None);
    let p3 = post("third", "carol", 3, None, None);
    let mut store = PostStore::new();
    store.insert_blogpost(p1.clone());
    store.insert_blogpost(p2.clone());
    store.insert_blogpost(p3.clone());
    let all = store.get_all_blogposts();
    assert_eq!(all, vec![p3, p2, p1]);
}

#[test]
fn blogpost_new_carries_fields() {
    let p = Blogpost::new(
        "the body".to_string(),
        "alice".to_string(),
        Some("aW1hZ2U=".to_string()),
        None,
    );
    assert_eq!(p.text, "the body");
    assert_eq!(p.author_username, "alice");
    assert_eq!(p.image_base64.as_deref(), Some("aW1hZ2U="));
    assert_eq!(p.avatar_base64, None);
}

#[test]
fn empty_store_reads_empty() {
    let store = PostStore::new();
    assert_eq!(store.get_all_blogposts(), Vec::new());
}
