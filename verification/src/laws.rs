//! Laws of the mapping policy, stated and proved once over the spec
//! functions that the mappers' contracts use.

use vstd::prelude::*;

use crate::error::{ApiErrorV, JsonKind};
use crate::fields::{
    v_coord, v_int_dict, v_int_dict_from, v_parse_i32, v_req_arr, v_req_bool, v_req_i32,
    v_req_num, v_req_obj, v_req_str, v_str_list, v_str_or_zero,
};
use crate::guild::{v_guild, v_members_from};
use crate::json::{json_of_text, lookup, Json};
use crate::location::{v_axis, v_location_items};
use crate::markers::{v_markers_response, v_quest_count_response};
use crate::player::{
    v_char_head, v_character, v_characters_from, v_full_player_response, v_global, v_main_player,
    v_main_player_response, v_online_data_response, v_online_names_response,
    v_player_total_response, v_professions_from, v_pvp,
};

verus! {

/// A main-profile document whose required fields are all present in
/// valid shape and whose optional fields are all absent maps to a
/// record whose required fields equal the input values and whose
/// optional fields are the absent sentinel, never a default.
pub proof fn lemma_main_player_required_only(j: Json, o: Seq<(String, Json)>)
    requires
        j matches Json::Obj(entries) && entries@ == o,
        v_req_str(o, "username"@) is Ok,
        v_req_bool(o, "online"@) is Ok,
        v_req_str(o, "activeCharacter"@) is Ok,
        v_req_str(o, "uuid"@) is Ok,
        v_req_str(o, "firstJoin"@) is Ok,
        v_req_str(o, "lastJoin"@) is Ok,
        v_req_num(o, "playtime"@) is Ok,
        v_req_obj(o, "globalData"@) matches Ok(go) && v_global(go) is Ok,
        v_req_obj(o, "ranking"@) matches Ok(ro) && v_int_dict(ro) is Ok,
        v_req_obj(o, "previousRanking"@) matches Ok(po) && v_int_dict(po) is Ok,
        v_req_bool(o, "publicProfile"@) is Ok,
        lookup(o, "server"@) is None,
        lookup(o, "rank"@) is None,
        lookup(o, "rankBadge"@) is None,
        lookup(o, "legacyRankColour"@) is None,
        lookup(o, "shortenedRank"@) is None,
        lookup(o, "supportRank"@) is None,
        lookup(o, "veteran"@) is None,
        lookup(o, "guild"@) is None,
        lookup(o, "forumLink"@) is None,
    ensures
        v_main_player(j) matches Ok(m) && {
            &&& Ok::<_, ApiErrorV>(m.username) == v_req_str(o, "username"@)
            &&& Ok::<_, ApiErrorV>(m.online) == v_req_bool(o, "online"@)
            &&& Ok::<_, ApiErrorV>(m.active_character) == v_req_str(o, "activeCharacter"@)
            &&& Ok::<_, ApiErrorV>(m.uuid) == v_req_str(o, "uuid"@)
            &&& Ok::<_, ApiErrorV>(m.first_join) == v_req_str(o, "firstJoin"@)
            &&& Ok::<_, ApiErrorV>(m.last_join) == v_req_str(o, "lastJoin"@)
            &&& Ok::<_, ApiErrorV>(m.playtime) == v_req_num(o, "playtime"@)
            &&& Ok::<_, ApiErrorV>(m.public_profile) == v_req_bool(o, "publicProfile"@)
            &&& m.server is None
            &&& m.rank is None
            &&& m.rank_badge is None
            &&& m.legacy_rank_colour is None
            &&& m.shortened_rank is None
            &&& m.support_rank is None
            &&& m.guild is None
            &&& m.forum_link is None
            &&& m.veteran == false
        },
{
}

/// A character document whose required fields are all present in
/// valid shape and whose optional fields are all absent maps to a
/// record whose optional parts are the absent sentinel, never a
/// zero-valued record.
pub proof fn lemma_character_required_only(o: Seq<(String, Json)>)
    requires
        v_char_head(o) is Ok,
        v_req_obj(o, "pvp"@) matches Ok(po) && v_pvp(po) is Ok,
        v_req_arr(o, "gamemode"@) matches Ok(ga) && v_str_list(ga, "gamemode"@) is Ok,
        v_req_obj(o, "professions"@) matches Ok(pro) && v_professions_from(pro, 0) is Ok,
        v_req_arr(o, "quests"@) matches Ok(qa) && v_str_list(qa, "quests"@) is Ok,
        lookup(o, "nickname"@) is None,
        lookup(o, "skillPoints"@) is None,
        lookup(o, "dungeons"@) is None,
        lookup(o, "raids"@) is None,
    ensures
        v_character(o) matches Ok(c) && {
            &&& c.nickname is None
            &&& c.skill_points is None
            &&& c.dungeons is None
            &&& c.raids is None
        },
{
}

/// For every dictionary-typed field mapped through the integer-count
/// policy, the produced mapping's keys are exactly the input object's
/// keys, in order and without coercion.
pub proof fn lemma_int_dict_keys(entries: Seq<(String, Json)>)
    ensures
        v_int_dict(entries) matches Ok(d) && {
            &&& d.len() == entries.len()
            &&& forall|k: int| 0 <= k < d.len() ==> (#[trigger] d[k]).0 == entries[k].0@
        } || v_int_dict(entries) is Err,
{
    lemma_int_dict_keys_from(entries, 0);
}

proof fn lemma_int_dict_keys_from(entries: Seq<(String, Json)>, i: int)
    requires
        0 <= i <= entries.len(),
    ensures
        v_int_dict_from(entries, i) matches Ok(d) && {
            &&& d.len() == entries.len() - i
            &&& forall|k: int| 0 <= k < d.len() ==> (#[trigger] d[k]).0 == entries[i + k].0@
        } || v_int_dict_from(entries, i) is Err,
    decreases entries.len() - i,
{
    if i < entries.len() {
        lemma_int_dict_keys_from(entries, i + 1);
    }
}

/// The same key preservation for the profession dictionary.
pub proof fn lemma_profession_keys(entries: Seq<(String, Json)>)
    ensures
        v_professions_from(entries, 0) matches Ok(d) && {
            &&& d.len() == entries.len()
            &&& forall|k: int| 0 <= k < d.len() ==> (#[trigger] d[k]).0 == entries[k].0@
        } || v_professions_from(entries, 0) is Err,
{
    lemma_profession_keys_from(entries, 0);
}

proof fn lemma_profession_keys_from(entries: Seq<(String, Json)>, i: int)
    requires
        0 <= i <= entries.len(),
    ensures
        v_professions_from(entries, i) matches Ok(d) && {
            &&& d.len() == entries.len() - i
            &&& forall|k: int| 0 <= k < d.len() ==> (#[trigger] d[k]).0 == entries[i + k].0@
        } || v_professions_from(entries, i) is Err,
    decreases entries.len() - i,
{
    if i < entries.len() {
        lemma_profession_keys_from(entries, i + 1);
    }
}

/// The same key preservation for the character dictionary.
pub proof fn lemma_character_keys(entries: Seq<(String, Json)>)
    ensures
        v_characters_from(entries, 0) matches Ok(d) && {
            &&& d.len() == entries.len()
            &&& forall|k: int| 0 <= k < d.len() ==> (#[trigger] d[k]).0 == entries[k].0@
        } || v_characters_from(entries, 0) is Err,
{
    lemma_character_keys_from(entries, 0);
}

proof fn lemma_character_keys_from(entries: Seq<(String, Json)>, i: int)
    requires
        0 <= i <= entries.len(),
    ensures
        v_characters_from(entries, i) matches Ok(d) && {
            &&& d.len() == entries.len() - i
            &&& forall|k: int| 0 <= k < d.len() ==> (#[trigger] d[k]).0 == entries[i + k].0@
        } || v_characters_from(entries, i) is Err,
    decreases entries.len() - i,
{
    if i < entries.len() {
        lemma_character_keys_from(entries, i + 1);
    }
}

/// A numeric-as-string field that is absent parses as `0`; one whose
/// text is non-numeric fails with a hard error, not a default.
pub proof fn lemma_coord_policy(o: Seq<(String, Json)>, name: Seq<char>)
    ensures
        lookup(o, name) is None ==> v_coord(o, name) == Ok::<i32, ApiErrorV>(0),
        (lookup(o, name) matches Some(Json::Str(s)) && v_parse_i32(s@) is None) ==> v_coord(
            o,
            name,
        ) == Err::<i32, ApiErrorV>(ApiErrorV::Schema { field: name, expected: JsonKind::Int }),
{
    if lookup(o, name) is None {
        reveal_strlit("0");
        let z = "0"@;
        assert(v_str_or_zero(o, name) == z);
        assert(z.len() == 1 && z[0] == '0');
        assert(z[0] != '-' && z[0] != '+');
        assert(crate::fields::all_digits(z)) by {
            assert(crate::fields::is_digit(z[0]));
        }
        assert(z.drop_last().len() == 0);
        assert(crate::fields::digits_val(z.drop_last()) == 0);
        assert(z.last() == z[0]);
        assert(crate::fields::digits_val(z) == crate::fields::digit_val(z[0]));
        assert(crate::fields::int_of_text(z) == Some(0int));
        assert(v_parse_i32(z) == Some(0i32));
    }
}

/// A required field of the wrong runtime kind fails the whole guild
/// operation with a schema error naming that field; no partial record
/// is returned.
pub proof fn lemma_guild_level_wrong_kind(j: Json, o: Seq<(String, Json)>, uuid: bool)
    requires
        j matches Json::Obj(entries) && entries@ == o,
        v_req_str(o, "uuid"@) is Ok,
        v_req_str(o, "name"@) is Ok,
        v_req_str(o, "prefix"@) is Ok,
        !(lookup(o, "level"@) matches Some(Json::Int(_))),
    ensures
        v_guild(j, uuid) == Err::<crate::guild::GuildDataV, ApiErrorV>(
            ApiErrorV::Schema { field: "level"@, expected: JsonKind::Int },
        ),
{
}

/// Whatever kind a required field has, a guild record is only returned
/// when every required field was well shaped.
pub proof fn lemma_guild_no_partial_record(j: Json, o: Seq<(String, Json)>, uuid: bool)
    requires
        j matches Json::Obj(entries) && entries@ == o,
    ensures
        v_guild(j, uuid) is Ok ==> {
            &&& v_req_str(o, "uuid"@) is Ok
            &&& v_req_str(o, "name"@) is Ok
            &&& v_req_str(o, "prefix"@) is Ok
            &&& v_req_i32(o, "level"@) is Ok
            &&& v_req_i32(o, "xpPercent"@) is Ok
            &&& v_req_i32(o, "territories"@) is Ok
            &&& v_req_i32(o, "wars"@) is Ok
            &&& v_req_str(o, "created"@) is Ok
            &&& v_req_i32(o, "online"@) is Ok
            &&& v_req_obj(o, "members"@) is Ok
            &&& v_req_obj(o, "banner"@) is Ok
            &&& v_req_obj(o, "seasonRanks"@) is Ok
        },
{
}

/// A `total` entry among the member rank groups contributes nothing to
/// the member list.
pub proof fn lemma_members_skip_total(groups: Seq<(String, Json)>, uuid: bool, i: int)
    requires
        0 <= i < groups.len(),
        groups[i].0@ == "total"@,
    ensures
        v_members_from(groups, uuid, i) == v_members_from(groups, uuid, i + 1),
{
}

/// A location array of length two yields a record without a vertical
/// component; one of length three yields all three components.
pub proof fn lemma_location_shapes(items: Seq<Json>, name: Seq<char>)
    ensures
        (items.len() == 2 && v_axis(items[0], name) is Ok && v_axis(items[1], name) is Ok)
            ==> (v_location_items(items, name) matches Ok(l) && l.y is None),
        (items.len() == 3 && v_axis(items[0], name) is Ok && v_axis(items[1], name) is Ok
            && v_axis(items[2], name) is Ok) ==> (v_location_items(items, name) matches Ok(l)
            && l.y is Some),
{
}

/// Byte-identical response bodies map to equal outcomes for every
/// operation: each response mapping is a function of the text alone,
/// with no iteration-order or other incidental nondeterminism.
pub proof fn lemma_fetch_idempotent(s1: Seq<char>, s2: Seq<char>)
    requires
        s1 == s2,
    ensures
        json_of_text(s1) == json_of_text(s2),
        v_quest_count_response(s1) == v_quest_count_response(s2),
        v_markers_response(s1) == v_markers_response(s2),
        crate::classes::v_class_response(s1) == crate::classes::v_class_response(s2),
        crate::classes::v_classes_response(s1) == crate::classes::v_classes_response(s2),
        crate::guild::v_guild_response(s1, true) == crate::guild::v_guild_response(s2, true),
        crate::guild::v_guild_response(s1, false) == crate::guild::v_guild_response(s2, false),
        crate::guild::v_guild_names_response(s1) == crate::guild::v_guild_names_response(s2),
        crate::guild::v_guilds_data_response(s1) == crate::guild::v_guilds_data_response(s2),
        crate::guild::v_territories_response(s1) == crate::guild::v_territories_response(s2),
        crate::leaderboard::v_leaderboard_types_response(s1)
            == crate::leaderboard::v_leaderboard_types_response(s2),
        crate::news::v_news_response(s1) == crate::news::v_news_response(s2),
        v_main_player_response(s1) == v_main_player_response(s2),
        v_full_player_response(s1) == v_full_player_response(s2),
        v_online_names_response(s1) == v_online_names_response(s2),
        v_player_total_response(s1) == v_player_total_response(s2),
        v_online_data_response(s1) == v_online_data_response(s2),
{
}

} // verus!
