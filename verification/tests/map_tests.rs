use wynncraft_api::{
    quest_count_from_json, quest_count_from_response, markers_from_response, ApiError, Json,
    JsonKind,
};

#[test]
fn quest_count_from_documented_response() {
    let r = quest_count_from_response("{\"quests\": 262}");
    assert_eq!(r, Ok(262));
}

#[test]
fn quest_count_from_constructed_document() {
    let doc = Json::Obj(vec![("quests".to_string(), Json::Int(262))]);
    assert_eq!(quest_count_from_json(&doc), Ok(262));
}

#[test]
fn quest_count_wrong_kind_is_schema_error() {
    let r = quest_count_from_response("{\"quests\": \"many\"}");
    assert_eq!(
        r,
        Err(ApiError::Schema { field: "quests".to_string(), expected: JsonKind::Int })
    );
}

#[test]
fn quest_count_missing_is_schema_error() {
    let r = quest_count_from_response("{}");
    assert_eq!(
        r,
        Err(ApiError::Schema { field: "quests".to_string(), expected: JsonKind::Int })
    );
}

#[test]
fn quest_count_of_oversized_integer_truncates() {
    let r = quest_count_from_response("{\"quests\": 2147483648}");
    assert_eq!(r, Ok(-2147483648));
}

#[test]
fn markers_map_string_coordinates() {
    let text = "[{\"name\":\"shop\",\"icon\":\"i.png\",\"x\":\"100\",\"y\":\"64\",\"z\":\"50\"}]";
    let ms = markers_from_response(text).unwrap();
    assert_eq!(ms.len(), 1);
    assert_eq!(ms[0].name, "shop");
    assert_eq!(ms[0].icon, "i.png");
    assert_eq!(ms[0].location.x, 100);
    assert_eq!(ms[0].location.y, Some(64));
    assert_eq!(ms[0].location.z, 50);
}

#[test]
fn marker_absent_coordinate_parses_as_zero() {
    let text = "[{\"name\":\"shop\",\"icon\":\"i.png\",\"x\":\"100\",\"z\":\"50\"}]";
    let ms = markers_from_response(text).unwrap();
    assert_eq!(ms[0].location.y, Some(0));
}

#[test]
fn marker_non_numeric_coordinate_is_hard_error() {
    let text = "[{\"name\":\"shop\",\"icon\":\"i\",\"x\":\"abc\",\"y\":\"1\",\"z\":\"2\"}]";
    let r = markers_from_response(text);
    assert_eq!(
        r,
        Err(ApiError::Schema { field: "x".to_string(), expected: JsonKind::Int })
    );
}

#[test]
fn marker_numeric_coordinate_of_wrong_shape_defaults_to_zero() {
    let text = "[{\"name\":\"shop\",\"icon\":\"i\",\"x\":7,\"y\":\"1\",\"z\":\"2\"}]";
    let ms = markers_from_response(text).unwrap();
    assert_eq!(ms[0].location.x, 0);
}

#[test]
fn marker_coordinate_out_of_range_is_hard_error() {
    let text = "[{\"name\":\"s\",\"icon\":\"i\",\"x\":\"2147483648\",\"y\":\"1\",\"z\":\"2\"}]";
    assert!(markers_from_response(text).is_err());
}

#[test]
fn marker_coordinate_signs_parse_like_std() {
    let text =
        "[{\"name\":\"s\",\"icon\":\"i\",\"x\":\"+5\",\"y\":\"-2147483648\",\"z\":\"-0\"}]";
    let ms = markers_from_response(text).unwrap();
    assert_eq!(ms[0].location.x, 5);
    assert_eq!(ms[0].location.y, Some(-2147483648));
    assert_eq!(ms[0].location.z, 0);
}

#[test]
fn markers_fail_fast_on_non_object_element() {
    let text = "[{\"name\":\"s\",\"icon\":\"i\",\"x\":\"1\",\"y\":\"1\",\"z\":\"1\"}, 4]";
    let r = markers_from_response(text);
    assert_eq!(
        r,
        Err(ApiError::Schema { field: "".to_string(), expected: JsonKind::Obj })
    );
}

#[test]
fn markers_root_must_be_an_array() {
    let r = markers_from_response("{\"a\": 1}");
    assert_eq!(r, Err(ApiError::MissingNested { field: "".to_string() }));
}
