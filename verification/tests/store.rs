use url_shortener::link::{Link, NewLink};
use url_shortener::store::LinkStore;

fn link(name: &str, short: &str, url: &str) -> Link {
    Link { name: name.to_string(), short_url: short.to_string(), url: url.to_string() }
}

#[test]
fn new_store_is_empty() {
    let store = LinkStore::new();
    assert_eq!(store.len(), 0);
    assert_eq!(store.find_by_code("abc"), None);
}

#[test]
fn insert_then_find() {
    let mut store = LinkStore::new();
    store.insert(link("blog", "abc", "https://example.com"));
    assert_eq!(store.len(), 1);
    assert_eq!(store.find_by_code("abc"), Some(&link("blog", "abc", "https://example.com")));
    assert_eq!(store.find_by_code("abd"), None);
    assert_eq!(store.find_by_code(""), None);
}

#[test]
fn find_is_exact_on_the_code() {
    let mut store = LinkStore::new();
    store.insert(link("n", "abc", "u"));
    assert_eq!(store.find_by_code("ab"), None);
    assert_eq!(store.find_by_code("abcd"), None);
    assert_eq!(store.find_by_code("ABC"), None);
}

#[test]
fn duplicate_codes_coexist_and_the_first_inserted_is_found() {
    let mut store = LinkStore::new();
    store.insert(link("x", "abc123", "https://a.com"));
    store.insert(link("y", "other", "https://o.com"));
    store.insert(link("x", "abc123", "https://b.com"));
    assert_eq!(store.len(), 3);
    assert_eq!(store.find_by_code("abc123").map(|l| l.url.as_str()), Some("https://a.com"));
}

#[test]
fn delete_removes_every_record_with_the_code() {
    let mut store = LinkStore::new();
    store.insert(link("x", "abc123", "https://a.com"));
    store.insert(link("y", "other", "https://o.com"));
    store.insert(link("x", "abc123", "https://b.com"));
    store.insert(link("z", "last", "https://z.com"));
    store.delete_by_code("abc123");
    assert_eq!(store.len(), 2);
    assert_eq!(store.find_by_code("abc123"), None);
    assert_eq!(store.find_by_code("other"), Some(&link("y", "other", "https://o.com")));
    assert_eq!(store.find_by_code("last"), Some(&link("z", "last", "https://z.com")));
}

#[test]
fn delete_of_an_unused_code_changes_nothing() {
    let mut store = LinkStore::new();
    store.insert(link("y", "other", "https://o.com"));
    store.delete_by_code("abc");
    assert_eq!(store.len(), 1);
    assert_eq!(store.find_by_code("other"), Some(&link("y", "other", "https://o.com")));
    let mut empty = LinkStore::new();
    empty.delete_by_code("abc");
    assert_eq!(empty.len(), 0);
}

#[test]
fn delete_twice_is_delete_once() {
    let mut store = LinkStore::new();
    store.insert(link("a", "k", "1"));
    store.insert(link("b", "m", "2"));
    store.delete_by_code("k");
    assert_eq!(store.len(), 1);
    store.delete_by_code("k");
    assert_eq!(store.len(), 1);
    assert_eq!(store.find_by_code("m").map(|l| l.url.as_str()), Some("2"));
}

#[test]
fn delete_keeps_the_order_of_the_rest() {
    let mut store = LinkStore::new();
    store.insert(link("first", "dup", "1"));
    store.insert(link("gone", "k", "x"));
    store.insert(link("second", "dup", "2"));
    store.delete_by_code("k");
    assert_eq!(store.find_by_code("dup").map(|l| l.name.as_str()), Some("first"));
}

#[test]
fn a_deleted_code_can_be_used_again() {
    let mut store = LinkStore::new();
    store.insert(link("old", "abc", "https://old.com"));
    store.delete_by_code("abc");
    store.insert(link("new", "abc", "https://new.com"));
    assert_eq!(store.find_by_code("abc").map(|l| l.url.as_str()), Some("https://new.com"));
}

#[test]
fn link_clone_keeps_the_fields() {
    let first = link("blog", "abc", "https://example.com");
    assert_eq!(first.clone(), first);
}

#[test]
fn complete_keeps_a_given_code() {
    let request = NewLink {
        name: "x".to_string(),
        short_url: Some("abc123".to_string()),
        url: "https://a.com".to_string(),
    };
    assert_eq!(request.complete("fallback".to_string()), link("x", "abc123", "https://a.com"));
}

#[test]
fn complete_fills_in_a_missing_code() {
    let request = NewLink { name: "x".to_string(), short_url: None, url: "https://a.com".to_string() };
    assert_eq!(request.complete("fallback".to_string()), link("x", "fallback", "https://a.com"));
}

#[test]
fn complete_keeps_a_given_empty_code() {
    let request =
        NewLink { name: "x".to_string(), short_url: Some(String::new()), url: "u".to_string() };
    assert_eq!(request.complete("fallback".to_string()), link("x", "", "u"));
}
