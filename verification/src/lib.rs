//! Client-side mapping layer for a game-statistics REST API.
//!
//! Every endpoint returns a JSON document; this crate models such a
//! document as the [`Json`] tree and maps it into strongly-shaped records
//! under a uniform per-field policy (required / optional / defaulted).
//! The network call itself is left to the embedding application.

mod classes;
mod error;
mod fields;
mod guild;
mod json;
mod laws;
mod leaderboard;
mod location;
mod markers;
mod news;
mod player;

pub use classes::{
    class_from_json, class_from_response, classes_from_json, classes_from_response, Archetype,
    ArchetypeV, ClassData, ClassDataV, SimpleClass, SimpleClassV,
};
pub use error::{res_view, ApiError, ApiErrorV, JsonKind};
pub use guild::{
    guild_from_json, guild_from_response, guild_names_from_json, guild_names_from_response,
    guilds_data_from_json, guilds_data_from_response, members_from_json, territories_from_json,
    territories_from_response, BannerLayer, BannerLayerV, GuildBanner, GuildBannerV, GuildData,
    GuildDataV, GuildMember, GuildMemberV, SeasonRank, SimpleGuildData, SimpleGuildDataV,
    TerritoryData, TerritoryDataV,
};
pub use json::{parse_text, Json, JsonNum, JsonNumV};
pub use laws::{
    lemma_character_keys, lemma_character_required_only, lemma_coord_policy, lemma_fetch_idempotent,
    lemma_guild_level_wrong_kind, lemma_guild_no_partial_record, lemma_int_dict_keys,
    lemma_location_shapes, lemma_main_player_required_only, lemma_members_skip_total,
    lemma_profession_keys,
};
pub use leaderboard::{leaderboard_types_from_json, leaderboard_types_from_response, Leaderboard};
pub use location::{json_to_location, req_loc, Location};
pub use markers::{
    marker_from_json, markers_from_json, markers_from_response, quest_count_from_json,
    quest_count_from_response, Marker, MarkerV,
};
pub use news::{news_from_json, news_from_response, NewsData, NewsDataV};
pub use player::{
    character_from_obj, characters_from_json, dungeons_from_obj, full_player_from_json,
    full_player_from_response, global_from_obj, group_players, main_player_from_json,
    main_player_from_response, online_data_from_json, online_data_from_response,
    online_players_from_json, online_players_from_response, player_count_from_json,
    player_count_from_response, pvp_from_obj, raids_from_obj, CharacterData, CharacterDataV,
    DungeonData, DungeonDataV, FullPlayerData, FullPlayerDataV, GlobalData, GlobalDataV,
    LegacyRankColour, LegacyRankColourV, MainPlayerData, MainPlayerDataV, OnlinePlayerData,
    OnlinePlayerDataV, PlayerGuild, PlayerGuildV, ProfessionData, PvpData, RaidData, RaidDataV,
    SkillPointData,
};
