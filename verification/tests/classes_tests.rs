use wynncraft_api::{
    class_from_response, classes_from_response, ApiError, JsonKind,
};

fn class_text() -> String {
    "{\"id\":\"archer\",\"name\":\"Archer\",\"lore\":\"Ranged.\",\"overallDifficulty\":2,\"archetypes\":{\"boltslinger\":{\"name\":\"Boltslinger\",\"difficulty\":3,\"damage\":4,\"defence\":1,\"range\":3,\"speed\":4},\"trapper\":{}}}"
    .to_string()
}

#[test]
fn class_detail_maps_exactly() {
    let c = class_from_response(&class_text()).unwrap();
    assert_eq!(c.id, "archer");
    assert_eq!(c.name, "Archer");
    assert_eq!(c.lore, "Ranged.");
    assert_eq!(c.overall_difficulty, 2);
    assert_eq!(c.archetypes.len(), 2);
    assert_eq!(c.archetypes[0].id, "boltslinger");
    assert_eq!(c.archetypes[0].name, "Boltslinger");
    assert_eq!(c.archetypes[0].difficulty, 3);
    assert_eq!(c.archetypes[0].damage, 4);
    assert_eq!(c.archetypes[0].defence, 1);
    assert_eq!(c.archetypes[0].range, 3);
    assert_eq!(c.archetypes[0].speed, 4);
}

#[test]
fn class_archetype_fields_default_to_zero_and_empty() {
    let c = class_from_response(&class_text()).unwrap();
    assert_eq!(c.archetypes[1].id, "trapper");
    assert_eq!(c.archetypes[1].name, "");
    assert_eq!(c.archetypes[1].difficulty, 0);
    assert_eq!(c.archetypes[1].damage, 0);
}

#[test]
fn class_missing_lore_fails_naming_lore() {
    let text = class_text().replace("\"lore\":\"Ranged.\",", "");
    let r = class_from_response(&text);
    assert_eq!(
        r,
        Err(ApiError::Schema { field: "lore".to_string(), expected: JsonKind::Str })
    );
}

#[test]
fn class_without_archetypes_is_missing_nested() {
    let text = class_text().replace("\"archetypes\"", "\"archetype\"");
    let r = class_from_response(&text);
    assert_eq!(r, Err(ApiError::MissingNested { field: "archetypes".to_string() }));
}

#[test]
fn class_archetype_of_wrong_shape_fails_under_its_key() {
    let text = class_text().replace("\"trapper\":{}", "\"trapper\":7");
    let r = class_from_response(&text);
    assert_eq!(
        r,
        Err(ApiError::Schema { field: "trapper".to_string(), expected: JsonKind::Obj })
    );
}

#[test]
fn classes_list_maps_rows() {
    let text = "{\"archer\":{\"name\":\"Archer\",\"overallDifficulty\":2},\"mage\":{\"name\":\"Mage\"}}";
    let cs = classes_from_response(text).unwrap();
    assert_eq!(cs.len(), 2);
    assert_eq!(cs[0].id, "archer");
    assert_eq!(cs[0].name, "Archer");
    assert_eq!(cs[0].overall_difficulty, 2);
    assert_eq!(cs[1].id, "mage");
    assert_eq!(cs[1].overall_difficulty, 0);
}

#[test]
fn classes_root_must_be_an_object() {
    let r = classes_from_response("[1,2]");
    assert_eq!(r, Err(ApiError::MissingNested { field: "".to_string() }));
}
