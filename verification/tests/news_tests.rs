use wynncraft_api::{news_from_response, ApiError, JsonKind};

#[test]
fn news_items_map_with_empty_defaults() {
    let text = "[{\"title\":\"Update\",\"date\":\"2024-01-01\",\"forumThread\":\"https://example.invalid/t/1\",\"author\":\"team\",\"content\":\"Notes.\",\"comments\":\"3\"},{\"title\":\"Short\"}]";
    let ns = news_from_response(text).unwrap();
    assert_eq!(ns.len(), 2);
    assert_eq!(ns[0].title, "Update");
    assert_eq!(ns[0].date, "2024-01-01");
    assert_eq!(ns[0].forum_thread, "https://example.invalid/t/1");
    assert_eq!(ns[0].author, "team");
    assert_eq!(ns[0].content, "Notes.");
    assert_eq!(ns[0].comments, "3");
    assert_eq!(ns[1].title, "Short");
    assert_eq!(ns[1].date, "");
    assert_eq!(ns[1].author, "");
}

#[test]
fn news_fails_fast_on_non_object_element() {
    let r = news_from_response("[{\"title\":\"a\"}, \"b\"]");
    assert_eq!(
        r,
        Err(ApiError::Schema { field: "".to_string(), expected: JsonKind::Obj })
    );
}

#[test]
fn news_root_must_be_an_array() {
    let r = news_from_response("{}");
    assert_eq!(r, Err(ApiError::MissingNested { field: "".to_string() }));
}
