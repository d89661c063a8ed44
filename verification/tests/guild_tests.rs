use wynncraft_api::{
    guild_from_response, guild_names_from_response, guilds_data_from_response,
    territories_from_response, ApiError, JsonKind,
};

fn guild_text() -> String {
    "{\"uuid\":\"g-1\",\"name\":\"Chiefs\",\"prefix\":\"HOC\",\"level\":80,\"xpPercent\":45,\"territories\":3,\"wars\":120,\"created\":\"2015-01-01\",\"online\":2,\"members\":{\"total\":2,\"owner\":{\"Alice\":{\"online\":true,\"server\":\"WC1\",\"contributed\":1000,\"contributionRank\":1,\"joined\":\"2015\",\"uuid\":\"u-alice\"}},\"chief\":{\"Bob\":{\"uuid\":\"u-bob\"}}},\"banner\":{\"base\":\"WHITE\",\"tier\":3,\"structure\":\"tier3\",\"layers\":[{\"colour\":\"RED\",\"pattern\":\"CREEPER\"}]},\"seasonRanks\":{\"1\":{\"rating\":100,\"finalTerritories\":2}}}"
    .to_string()
}

#[test]
fn guild_total_entry_is_excluded_from_members() {
    let g = guild_from_response(&guild_text(), false).unwrap();
    assert_eq!(g.members.len(), 2);
    assert!(g.members.iter().all(|m| m.rank != "total"));
}

#[test]
fn guild_members_carry_rank_and_identifiers() {
    // Object keys arrive sorted, so the `chief` group precedes `owner`.
    let g = guild_from_response(&guild_text(), false).unwrap();
    assert_eq!(g.members[0].username, "Bob");
    assert_eq!(g.members[0].uuid, "u-bob");
    assert_eq!(g.members[0].rank, "chief");
    assert_eq!(g.members[0].online, false);
    assert_eq!(g.members[0].server, "");
    assert_eq!(g.members[0].contributed, 0);
    assert_eq!(g.members[0].contribution_rank, 0);
    assert_eq!(g.members[0].joined, "");
    assert_eq!(g.members[1].username, "Alice");
    assert_eq!(g.members[1].uuid, "u-alice");
    assert_eq!(g.members[1].online, true);
    assert_eq!(g.members[1].server, "WC1");
    assert_eq!(g.members[1].contributed, 1000);
    assert_eq!(g.members[1].contribution_rank, 1);
    assert_eq!(g.members[1].joined, "2015");
}

#[test]
fn guild_member_keys_are_uuids_when_asked() {
    let g = guild_from_response(&guild_text(), true).unwrap();
    assert_eq!(g.members[0].uuid, "Bob");
    assert_eq!(g.members[0].username, "");
    assert_eq!(g.members[1].uuid, "Alice");
    assert_eq!(g.members[1].username, "");
}

#[test]
fn guild_scalar_fields_map_exactly() {
    let g = guild_from_response(&guild_text(), false).unwrap();
    assert_eq!(g.uuid, "g-1");
    assert_eq!(g.name, "Chiefs");
    assert_eq!(g.prefix, "HOC");
    assert_eq!(g.level, 80);
    assert_eq!(g.xp_percent, 45);
    assert_eq!(g.territories, 3);
    assert_eq!(g.wars, 120);
    assert_eq!(g.created, "2015-01-01");
    assert_eq!(g.online, 2);
}

#[test]
fn guild_banner_and_seasons_map_exactly() {
    let g = guild_from_response(&guild_text(), false).unwrap();
    assert_eq!(g.banner.base, "WHITE");
    assert_eq!(g.banner.tier, 3);
    assert_eq!(g.banner.structure, "tier3");
    assert_eq!(g.banner.layers.len(), 1);
    assert_eq!(g.banner.layers[0].colour, "RED");
    assert_eq!(g.banner.layers[0].pattern, "CREEPER");
    assert_eq!(g.season_ranks.len(), 1);
    assert_eq!(g.season_ranks[0].season, 1);
    assert_eq!(g.season_ranks[0].rating, 100);
    assert_eq!(g.season_ranks[0].final_territories, 2);
}

#[test]
fn guild_level_of_wrong_kind_fails_naming_level() {
    let text = guild_text().replace("\"level\":80", "\"level\":\"five\"");
    let r = guild_from_response(&text, false);
    assert_eq!(
        r,
        Err(ApiError::Schema { field: "level".to_string(), expected: JsonKind::Int })
    );
}

#[test]
fn guild_without_members_is_missing_nested() {
    let text = guild_text().replace("\"total\":2,", "").replace(
        "\"members\":{",
        "\"memberz\":{",
    );
    let r = guild_from_response(&text, false);
    assert_eq!(r, Err(ApiError::MissingNested { field: "members".to_string() }));
}

#[test]
fn guild_season_key_must_be_numeric() {
    let text = guild_text().replace("\"seasonRanks\":{\"1\"", "\"seasonRanks\":{\"one\"");
    let r = guild_from_response(&text, false);
    assert_eq!(
        r,
        Err(ApiError::Schema { field: "one".to_string(), expected: JsonKind::Int })
    );
}

#[test]
fn guild_names_are_the_object_keys() {
    let text = "{\"Aster\":{},\"Chiefs\":{}}";
    let names = guild_names_from_response(text).unwrap();
    assert_eq!(names, vec!["Aster".to_string(), "Chiefs".to_string()]);
}

#[test]
fn guilds_data_maps_rows_with_defaults() {
    let text = "{\"g-1\":{\"name\":\"Chiefs\",\"prefix\":\"HOC\"},\"g-2\":{}}";
    let gs = guilds_data_from_response(text).unwrap();
    assert_eq!(gs.len(), 2);
    assert_eq!(gs[0].uuid, "g-1");
    assert_eq!(gs[0].name, "Chiefs");
    assert_eq!(gs[0].prefix, "HOC");
    assert_eq!(gs[1].uuid, "g-2");
    assert_eq!(gs[1].name, "");
    assert_eq!(gs[1].prefix, "");
}

#[test]
fn territory_locations_follow_the_two_or_three_rule() {
    let text = "{\"Detlas\":{\"guild\":{\"uuid\":\"g\",\"name\":\"G\",\"prefix\":\"P\"},\"acquired\":\"2020\",\"location\":{\"start\":[100,50],\"end\":[100,64,50]}}}";
    let ts = territories_from_response(text).unwrap();
    assert_eq!(ts.len(), 1);
    assert_eq!(ts[0].territory_name, "Detlas");
    assert_eq!(ts[0].owner.name, "G");
    assert_eq!(ts[0].acquired, "2020");
    assert_eq!(ts[0].start_location.x, 100);
    assert_eq!(ts[0].start_location.y, None);
    assert_eq!(ts[0].start_location.z, 50);
    assert_eq!(ts[0].end_location.x, 100);
    assert_eq!(ts[0].end_location.y, Some(64));
    assert_eq!(ts[0].end_location.z, 50);
}

#[test]
fn territory_without_start_is_missing_nested() {
    let text = "{\"Detlas\":{\"guild\":{},\"location\":{\"end\":[1,2]}}}";
    let r = territories_from_response(text);
    assert_eq!(r, Err(ApiError::MissingNested { field: "start".to_string() }));
}
