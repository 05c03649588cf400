use url_shortener::router::{chars_of, route, segment_between, text_between, trim_bounds, Method, Route};

#[test]
fn get_of_one_segment_resolves_it() {
    assert_eq!(route(Method::Get, "/abc123"), Route::Resolve("abc123".to_string()));
}

#[test]
fn post_of_add_creates() {
    assert_eq!(route(Method::Post, "/add"), Route::Create);
}

#[test]
fn delete_of_one_segment_deletes_it() {
    assert_eq!(route(Method::Delete, "/abc123"), Route::Delete("abc123".to_string()));
}

#[test]
fn other_methods_are_not_found() {
    assert_eq!(route(Method::Other, "/abc123"), Route::NotFound);
    assert_eq!(route(Method::Other, "/add"), Route::NotFound);
    assert_eq!(route(Method::Other, "/"), Route::NotFound);
}

#[test]
fn post_elsewhere_is_not_found() {
    assert_eq!(route(Method::Post, "/abc123"), Route::NotFound);
    assert_eq!(route(Method::Post, "/ad"), Route::NotFound);
    assert_eq!(route(Method::Post, "/addd"), Route::NotFound);
    assert_eq!(route(Method::Post, "/Add"), Route::NotFound);
    assert_eq!(route(Method::Post, "/add/x"), Route::NotFound);
    assert_eq!(route(Method::Post, "/"), Route::NotFound);
    assert_eq!(route(Method::Post, ""), Route::NotFound);
}

#[test]
fn add_is_a_code_like_any_other_for_get_and_delete() {
    assert_eq!(route(Method::Get, "/add"), Route::Resolve("add".to_string()));
    assert_eq!(route(Method::Delete, "/add"), Route::Delete("add".to_string()));
}

#[test]
fn the_root_path_is_not_found() {
    assert_eq!(route(Method::Get, "/"), Route::NotFound);
    assert_eq!(route(Method::Get, ""), Route::NotFound);
    assert_eq!(route(Method::Get, "///"), Route::NotFound);
    assert_eq!(route(Method::Delete, "/"), Route::NotFound);
}

#[test]
fn two_segments_are_not_found() {
    assert_eq!(route(Method::Get, "/a/b"), Route::NotFound);
    assert_eq!(route(Method::Delete, "/a/b"), Route::NotFound);
    assert_eq!(route(Method::Get, "/a//b"), Route::NotFound);
}

#[test]
fn slashes_at_either_end_do_not_count() {
    assert_eq!(route(Method::Get, "/abc/"), Route::Resolve("abc".to_string()));
    assert_eq!(route(Method::Get, "//abc//"), Route::Resolve("abc".to_string()));
    assert_eq!(route(Method::Get, "abc"), Route::Resolve("abc".to_string()));
    assert_eq!(route(Method::Post, "/add/"), Route::Create);
    assert_eq!(route(Method::Post, "add"), Route::Create);
    assert_eq!(route(Method::Delete, "//k/"), Route::Delete("k".to_string()));
}

#[test]
fn a_segment_may_hold_any_other_character() {
    assert_eq!(route(Method::Get, "/a.b-c_d%20"), Route::Resolve("a.b-c_d%20".to_string()));
    assert_eq!(route(Method::Get, "/h\u{e9}llo"), Route::Resolve("h\u{e9}llo".to_string()));
}

#[test]
fn chars_of_gives_the_characters() {
    assert_eq!(chars_of("/a\u{e9}"), vec!['/', 'a', '\u{e9}']);
    assert_eq!(chars_of(""), Vec::<char>::new());
}

#[test]
fn trim_bounds_leaves_the_slashes_out() {
    assert_eq!(trim_bounds(&chars_of("//abc/")), (2, 5));
    assert_eq!(trim_bounds(&chars_of("abc")), (0, 3));
    assert_eq!(trim_bounds(&chars_of("/a/b/")), (1, 4));
    assert_eq!(trim_bounds(&chars_of("")), (0, 0));
    assert_eq!(trim_bounds(&chars_of("///")), (3, 3));
}

#[test]
fn segment_between_wants_characters_and_no_slash() {
    let chars = chars_of("/a/bc");
    assert!(segment_between(&chars, 1, 2));
    assert!(segment_between(&chars, 3, 5));
    assert!(!segment_between(&chars, 1, 5));
    assert!(!segment_between(&chars, 0, 1));
    assert!(!segment_between(&chars, 2, 2));
}

#[test]
fn text_between_copies_the_range() {
    let chars = chars_of("/h\u{e9}llo/");
    assert_eq!(text_between(&chars, 1, 6), "h\u{e9}llo");
    assert_eq!(text_between(&chars, 0, 0), "");
    assert_eq!(text_between(&chars, 6, 7), "/");
}
