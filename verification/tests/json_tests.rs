use wynncraft_api::{
    json_to_location, markers_from_response, parse_text, quest_count_from_response, ApiError,
    Json, JsonKind, Location,
};

#[test]
fn parse_text_rejects_malformed_bodies() {
    assert_eq!(parse_text("{"), Err(ApiError::Format));
    assert_eq!(parse_text(""), Err(ApiError::Format));
    assert_eq!(parse_text("not json"), Err(ApiError::Format));
}

#[test]
fn parse_text_builds_the_document_tree() {
    let j = parse_text("{\"a\":[1,true,null,\"s\"],\"b\":2.5}").unwrap();
    assert_eq!(
        j,
        Json::Obj(vec![
            (
                "a".to_string(),
                Json::Arr(vec![
                    Json::Int(1),
                    Json::Bool(true),
                    Json::Null,
                    Json::Str("s".to_string()),
                ]),
            ),
            ("b".to_string(), Json::Num("2.5".to_string())),
        ])
    );
}

#[test]
fn parse_text_keeps_huge_numbers_as_text() {
    let j = parse_text("[18446744073709551615]").unwrap();
    assert_eq!(j, Json::Arr(vec![Json::Num("18446744073709551615".to_string())]));
}

#[test]
fn location_of_two_components_has_no_vertical() {
    let j = Json::Arr(vec![Json::Int(100), Json::Int(50)]);
    let l = json_to_location(&j, "start").unwrap();
    assert_eq!(l, Location { x: 100, y: None, z: 50 });
}

#[test]
fn location_of_three_components_has_all_axes() {
    let j = Json::Arr(vec![Json::Int(100), Json::Int(64), Json::Int(50)]);
    let l = json_to_location(&j, "start").unwrap();
    assert_eq!(l, Location { x: 100, y: Some(64), z: 50 });
}

#[test]
fn location_of_other_lengths_is_an_error() {
    let j = Json::Arr(vec![Json::Int(1)]);
    assert_eq!(
        json_to_location(&j, "start"),
        Err(ApiError::Schema { field: "start".to_string(), expected: JsonKind::Arr })
    );
    let j4 = Json::Arr(vec![Json::Int(1), Json::Int(2), Json::Int(3), Json::Int(4)]);
    assert!(json_to_location(&j4, "start").is_err());
}

#[test]
fn location_component_must_be_an_integer() {
    let j = Json::Arr(vec![Json::Str("x".to_string()), Json::Int(2)]);
    assert_eq!(
        json_to_location(&j, "end"),
        Err(ApiError::Schema { field: "end".to_string(), expected: JsonKind::Int })
    );
}

#[test]
fn identical_bodies_map_to_equal_records() {
    let text = "[{\"name\":\"s\",\"icon\":\"i\",\"x\":\"1\",\"y\":\"2\",\"z\":\"3\"}]";
    let first = markers_from_response(text).unwrap();
    let second = markers_from_response(text).unwrap();
    assert_eq!(first, second);
    assert_eq!(
        quest_count_from_response("{\"quests\": 262}"),
        quest_count_from_response("{\"quests\": 262}")
    );
}

#[test]
fn transport_errors_carry_their_message() {
    let e = ApiError::Transport("connection refused".to_string());
    assert_eq!(e.describe(), "connection refused");
}
