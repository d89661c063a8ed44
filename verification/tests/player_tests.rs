use wynncraft_api::{
    full_player_from_response, main_player_from_response, online_data_from_response,
    online_players_from_response, player_count_from_response, ApiError, JsonKind, JsonNum,
};

fn main_player_text() -> String {
    "{\"username\":\"ShadowCat\",\"online\":false,\"activeCharacter\":\"c-1\",\"uuid\":\"u-1\",\"firstJoin\":\"2015-03-01\",\"lastJoin\":\"2024-01-01\",\"playtime\":1524.5,\"globalData\":{\"wars\":10,\"totalLevel\":500,\"killedMobs\":100000,\"chestsFound\":2000,\"dungeons\":{\"total\":50,\"list\":{\"Decrepit Sewers\":30,\"Ice Barrows\":20}},\"raids\":{\"total\":5,\"list\":{\"Nest of the Grootslangs\":5}},\"completedQuests\":200,\"pvp\":{\"kills\":12,\"deaths\":7}},\"ranking\":{\"guildLevel\":3,\"warsCompletion\":9},\"previousRanking\":{\"guildLevel\":4},\"publicProfile\":true}"
    .to_string()
}

#[test]
fn main_player_required_fields_map_exactly() {
    let p = main_player_from_response(&main_player_text()).unwrap();
    assert_eq!(p.username, "ShadowCat");
    assert_eq!(p.online, false);
    assert_eq!(p.active_character, "c-1");
    assert_eq!(p.uuid, "u-1");
    assert_eq!(p.first_join, "2015-03-01");
    assert_eq!(p.last_join, "2024-01-01");
    assert_eq!(p.playtime, JsonNum::Dec("1524.5".to_string()));
    assert_eq!(p.global_data.wars, 10);
    assert_eq!(p.global_data.total_level, 500);
    assert_eq!(p.global_data.killed_mobs, 100000);
    assert_eq!(p.global_data.chests_found, 2000);
    assert_eq!(p.global_data.dungeons.total, 50);
    assert_eq!(p.global_data.raids.total, 5);
    assert_eq!(p.global_data.completed_quests, 200);
    assert_eq!(p.global_data.pvp.kills, 12);
    assert_eq!(p.global_data.pvp.deaths, 7);
    assert_eq!(p.public_profile, true);
}

#[test]
fn main_player_absent_optionals_stay_absent() {
    let p = main_player_from_response(&main_player_text()).unwrap();
    assert_eq!(p.server, None);
    assert_eq!(p.rank, None);
    assert_eq!(p.rank_badge, None);
    assert!(p.legacy_rank_colour.is_none());
    assert_eq!(p.shortened_rank, None);
    assert_eq!(p.support_rank, None);
    assert!(p.guild.is_none());
    assert_eq!(p.forum_link, None);
    assert_eq!(p.veteran, false);
}

#[test]
fn main_player_dictionary_keys_are_preserved() {
    let p = main_player_from_response(&main_player_text()).unwrap();
    assert_eq!(
        p.ranking,
        vec![("guildLevel".to_string(), 3), ("warsCompletion".to_string(), 9)]
    );
    assert_eq!(p.previous_ranking, vec![("guildLevel".to_string(), 4)]);
    assert_eq!(
        p.global_data.dungeons.dungeon_list,
        vec![("Decrepit Sewers".to_string(), 30), ("Ice Barrows".to_string(), 20)]
    );
    assert_eq!(p.global_data.raids.raid_list.len(), 1);
}

#[test]
fn main_player_present_optionals_carry_values() {
    let text = main_player_text().replace(
        "\"username\":\"ShadowCat\",",
        "\"username\":\"ShadowCat\",\"server\":\"WC3\",\"rank\":\"Player\",\"supportRank\":\"vip\",\"veteran\":true,\"forumLink\":123,\"guild\":{\"uuid\":\"g\",\"name\":\"Chiefs\",\"prefix\":\"HOC\",\"rank\":\"OWNER\",\"rankStars\":\"*****\"},\"legacyRankColour\":{\"main\":\"#aaa\",\"sub\":\"#bbb\"},",
    );
    let p = main_player_from_response(&text).unwrap();
    assert_eq!(p.server, Some("WC3".to_string()));
    assert_eq!(p.rank, Some("Player".to_string()));
    assert_eq!(p.support_rank, Some("vip".to_string()));
    assert_eq!(p.veteran, true);
    assert_eq!(p.forum_link, Some(123));
    let g = p.guild.unwrap();
    assert_eq!(g.name, "Chiefs");
    assert_eq!(g.rank_stars, "*****");
    let c = p.legacy_rank_colour.unwrap();
    assert_eq!(c.main, "#aaa");
    assert_eq!(c.sub, "#bbb");
}

#[test]
fn main_player_wrong_kind_fails_whole_operation() {
    let text = main_player_text().replace("\"online\":false", "\"online\":\"yes\"");
    let r = main_player_from_response(&text);
    assert_eq!(
        r,
        Err(ApiError::Schema { field: "online".to_string(), expected: JsonKind::Bool })
    );
}

#[test]
fn full_player_maps_characters_too() {
    let text = main_player_text().replace(
        "\"publicProfile\":true}",
        "\"publicProfile\":true,\"characters\":{\"c-1\":{\"type\":\"ARCHER\",\"level\":106,\"xp\":12345678,\"xpPercent\":40,\"totalLevel\":300,\"wars\":2,\"playtime\":100.25,\"mobsKilled\":5000,\"chestsFound\":100,\"itemsIdentified\":3,\"blocksWalked\":123456789012,\"logins\":50,\"deaths\":9,\"discoveries\":40,\"preEconomy\":false,\"pvp\":{\"kills\":1,\"deaths\":2},\"gamemode\":[\"ironman\"],\"skillPoints\":{\"strength\":40,\"dexterity\":60},\"professions\":{\"mining\":{\"level\":90,\"xpPercent\":10},\"fishing\":{}},\"dungeons\":{\"total\":3,\"list\":{\"DS\":3}},\"quests\":[\"A Grave Mistake\",\"Craftsman Path\"]}}}",
    );
    let fp = full_player_from_response(&text).unwrap();
    assert_eq!(fp.main_data.username, "ShadowCat");
    assert_eq!(fp.characters.len(), 1);
    let (key, c) = &fp.characters[0];
    assert_eq!(key, "c-1");
    assert_eq!(c.class, "ARCHER");
    assert_eq!(c.nickname, None);
    assert_eq!(c.level, 106);
    assert_eq!(c.xp, 12345678);
    assert_eq!(c.blocks_walked, 123456789012);
    assert_eq!(c.playtime, JsonNum::Dec("100.25".to_string()));
    assert_eq!(c.gamemodes, vec!["ironman".to_string()]);
    let sp = c.skill_points.unwrap();
    assert_eq!(sp.strength, 40);
    assert_eq!(sp.dexterity, 60);
    assert_eq!(sp.intelligence, 0);
    // Profession keys arrive sorted.
    assert_eq!(c.professions.len(), 2);
    assert_eq!(c.professions[0].0, "fishing");
    assert_eq!(c.professions[0].1.level, 1);
    assert_eq!(c.professions[0].1.xp_percent, 0);
    assert_eq!(c.professions[1].0, "mining");
    assert_eq!(c.professions[1].1.level, 90);
    let d = c.dungeons.clone().unwrap();
    assert_eq!(d.total, 3);
    assert_eq!(d.dungeon_list, vec![("DS".to_string(), 3)]);
    assert!(c.raids.is_none());
    assert_eq!(
        c.quests,
        vec!["A Grave Mistake".to_string(), "Craftsman Path".to_string()]
    );
}

#[test]
fn character_empty_skill_points_are_absent() {
    let text = main_player_text().replace(
        "\"publicProfile\":true}",
        "\"publicProfile\":true,\"characters\":{\"c-1\":{\"type\":\"MAGE\",\"level\":1,\"xp\":0,\"xpPercent\":0,\"totalLevel\":1,\"wars\":0,\"playtime\":0,\"mobsKilled\":0,\"chestsFound\":0,\"itemsIdentified\":0,\"blocksWalked\":0,\"logins\":1,\"deaths\":0,\"discoveries\":0,\"preEconomy\":false,\"pvp\":{\"kills\":0,\"deaths\":0},\"gamemode\":[],\"skillPoints\":{},\"professions\":{},\"quests\":[]}}}",
    );
    let fp = full_player_from_response(&text).unwrap();
    let c = &fp.characters[0].1;
    assert!(c.skill_points.is_none());
    assert_eq!(c.playtime, JsonNum::Int(0));
    assert!(c.dungeons.is_none());
    assert!(c.raids.is_none());
}

#[test]
fn character_quest_list_fails_fast_on_non_string() {
    let text = main_player_text().replace(
        "\"publicProfile\":true}",
        "\"publicProfile\":true,\"characters\":{\"c-1\":{\"type\":\"MAGE\",\"level\":1,\"xp\":0,\"xpPercent\":0,\"totalLevel\":1,\"wars\":0,\"playtime\":0,\"mobsKilled\":0,\"chestsFound\":0,\"itemsIdentified\":0,\"blocksWalked\":0,\"logins\":1,\"deaths\":0,\"discoveries\":0,\"preEconomy\":false,\"pvp\":{\"kills\":0,\"deaths\":0},\"gamemode\":[],\"professions\":{},\"quests\":[\"ok\", 5]}}}",
    );
    let r = full_player_from_response(&text);
    assert_eq!(
        r,
        Err(ApiError::Schema { field: "quests".to_string(), expected: JsonKind::Str })
    );
}

#[test]
fn online_players_are_the_player_keys() {
    let text = "{\"total\":3,\"players\":{\"Alice\":\"WC1\",\"Bob\":\"WC2\",\"Carol\":\"WC1\"}}";
    let ps = online_players_from_response(text).unwrap();
    assert_eq!(
        ps,
        vec!["Alice".to_string(), "Bob".to_string(), "Carol".to_string()]
    );
}

#[test]
fn online_count_reads_total() {
    assert_eq!(player_count_from_response("{\"total\": 4321}"), Ok(4321));
}

#[test]
fn online_data_groups_players_by_world() {
    let text = "{\"total\":3,\"players\":{\"Alice\":\"WC1\",\"Bob\":\"WC2\",\"Carol\":\"WC1\"}}";
    let d = online_data_from_response(text).unwrap();
    assert_eq!(d.total_online, 3);
    assert_eq!(
        d.players_by_world,
        vec![
            ("WC1".to_string(), vec!["Alice".to_string(), "Carol".to_string()]),
            ("WC2".to_string(), vec!["Bob".to_string()]),
        ]
    );
}

#[test]
fn online_data_non_string_world_groups_under_empty_name() {
    let text = "{\"total\":1,\"players\":{\"Alice\":7}}";
    let d = online_data_from_response(text).unwrap();
    assert_eq!(
        d.players_by_world,
        vec![("".to_string(), vec!["Alice".to_string()])]
    );
}

#[test]
fn online_players_without_players_object_is_missing_nested() {
    let r = online_players_from_response("{\"total\": 2}");
    assert_eq!(r, Err(ApiError::MissingNested { field: "players".to_string() }));
}
