use wynncraft_api::{leaderboard_types_from_response, ApiError, JsonKind};

#[test]
fn leaderboard_types_map_to_strings() {
    let text = "[\"guildLevel\",\"warsCompletion\",\"totalSoloLevel\"]";
    let ts = leaderboard_types_from_response(text).unwrap();
    assert_eq!(
        ts,
        vec![
            "guildLevel".to_string(),
            "warsCompletion".to_string(),
            "totalSoloLevel".to_string(),
        ]
    );
}

#[test]
fn leaderboard_types_fail_fast_on_non_string() {
    let r = leaderboard_types_from_response("[\"guildLevel\", 3]");
    assert_eq!(
        r,
        Err(ApiError::Schema { field: "".to_string(), expected: JsonKind::Str })
    );
}

#[test]
fn leaderboard_types_root_must_be_an_array() {
    let r = leaderboard_types_from_response("{\"a\":1}");
    assert_eq!(r, Err(ApiError::MissingNested { field: "".to_string() }));
}
