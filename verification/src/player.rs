//! The player endpoints: a player's main profile, the full profile
//! with per-character detail, and the online-player queries.

use vstd::prelude::*;

use crate::error::{res_view, ApiError, ApiErrorV, JsonKind};
use crate::fields::{
    combine, def_bool, def_i32, int_dict, keys_view, lemma_combine_empty, lemma_strs_view_push,
    str_eq,
    lemma_combine_fin, lemma_combine_step, opt_i32, opt_obj, opt_str, opt_view, pairs_view,
    req_arr, req_bool, req_i32, req_i64, req_num, req_obj, req_str, root_obj, str_list, strs_view,
    v_def_bool, v_def_i32, v_int_dict, v_opt_i32, v_opt_obj, v_opt_str, v_req_arr,
    v_req_bool, v_req_i32, v_req_i64, v_req_num, v_req_obj, v_req_str, v_root_obj, v_str_list,
};
use crate::json::{json_of_text, parse_text, Json, JsonNum, JsonNumV};

verus! {

/// Kill and death counters.
#[derive(Debug, PartialEq, Eq, Clone, Copy)]
pub struct PvpData {
    pub kills: i32,
    pub deaths: i32,
}

impl View for PvpData {
    type V = PvpData;

    open spec fn view(&self) -> PvpData {
        *self
    }
}

/// A character's skill-point breakdown.
#[derive(Debug, PartialEq, Eq, Clone, Copy)]
pub struct SkillPointData {
    pub strength: i32,
    pub dexterity: i32,
    pub intelligence: i32,
    pub defense: i32,
    pub agility: i32,
}

impl View for SkillPointData {
    type V = SkillPointData;

    open spec fn view(&self) -> SkillPointData {
        *self
    }
}

/// One profession's level and progress.
#[derive(Debug, PartialEq, Eq, Clone, Copy)]
pub struct ProfessionData {
    pub level: i32,
    pub xp_percent: i32,
}

impl View for ProfessionData {
    type V = ProfessionData;

    open spec fn view(&self) -> ProfessionData {
        *self
    }
}

/// Dungeon clears: a total and a per-dungeon count mapping.
#[derive(Debug, PartialEq, Eq, Clone)]
pub struct DungeonData {
    pub total: i32,
    pub dungeon_list: Vec<(String, i32)>,
}

/// Mathematical image of a [`DungeonData`].
pub struct DungeonDataV {
    pub total: i32,
    pub dungeon_list: Seq<(Seq<char>, i32)>,
}

impl View for DungeonData {
    type V = DungeonDataV;

    open spec fn view(&self) -> DungeonDataV {
        DungeonDataV { total: self.total, dungeon_list: pairs_view(self.dungeon_list@) }
    }
}

/// Raid clears: a total and a per-raid count mapping.
#[derive(Debug, PartialEq, Eq, Clone)]
pub struct RaidData {
    pub total: i32,
    pub raid_list: Vec<(String, i32)>,
}

/// Mathematical image of a [`RaidData`].
pub struct RaidDataV {
    pub total: i32,
    pub raid_list: Seq<(Seq<char>, i32)>,
}

impl View for RaidData {
    type V = RaidDataV;

    open spec fn view(&self) -> RaidDataV {
        RaidDataV { total: self.total, raid_list: pairs_view(self.raid_list@) }
    }
}

/// The legacy two-part rank colour.
#[derive(Debug, PartialEq, Eq, Clone)]
pub struct LegacyRankColour {
    pub main: String,
    pub sub: String,
}

/// Mathematical image of a [`LegacyRankColour`].
pub struct LegacyRankColourV {
    pub main: Seq<char>,
    pub sub: Seq<char>,
}

impl View for LegacyRankColour {
    type V = LegacyRankColourV;

    open spec fn view(&self) -> LegacyRankColourV {
        LegacyRankColourV { main: self.main@, sub: self.sub@ }
    }
}

/// The guild a player belongs to.
#[derive(Debug, PartialEq, Eq, Clone)]
pub struct PlayerGuild {
    pub uuid: String,
    pub name: String,
    pub prefix: String,
    pub rank: String,
    pub rank_stars: String,
}

/// Mathematical image of a [`PlayerGuild`].
pub struct PlayerGuildV {
    pub uuid: Seq<char>,
    pub name: Seq<char>,
    pub prefix: Seq<char>,
    pub rank: Seq<char>,
    pub rank_stars: Seq<char>,
}

impl View for PlayerGuild {
    type V = PlayerGuildV;

    open spec fn view(&self) -> PlayerGuildV {
        PlayerGuildV {
            uuid: self.uuid@,
            name: self.name@,
            prefix: self.prefix@,
            rank: self.rank@,
            rank_stars: self.rank_stars@,
        }
    }
}

/// A player's lifetime counters.
#[derive(Debug, PartialEq, Eq, Clone)]
pub struct GlobalData {
    pub wars: i32,
    pub total_level: i32,
    pub killed_mobs: i32,
    pub chests_found: i32,
    pub dungeons: DungeonData,
    pub raids: RaidData,
    pub completed_quests: i32,
    pub pvp: PvpData,
}

/// Mathematical image of a [`GlobalData`].
pub struct GlobalDataV {
    pub wars: i32,
    pub total_level: i32,
    pub killed_mobs: i32,
    pub chests_found: i32,
    pub dungeons: DungeonDataV,
    pub raids: RaidDataV,
    pub completed_quests: i32,
    pub pvp: PvpData,
}

impl View for GlobalData {
    type V = GlobalDataV;

    open spec fn view(&self) -> GlobalDataV {
        GlobalDataV {
            wars: self.wars,
            total_level: self.total_level,
            killed_mobs: self.killed_mobs,
            chests_found: self.chests_found,
            dungeons: self.dungeons@,
            raids: self.raids@,
            completed_quests: self.completed_quests,
            pvp: self.pvp,
        }
    }
}

/// Kill and death counters read from a required container.
pub open spec fn v_pvp(o: Seq<(String, Json)>) -> Result<PvpData, ApiErrorV> {
    match v_req_i32(o, "kills"@) {
        Err(e) => Err(e),
        Ok(kills) => match v_req_i32(o, "deaths"@) {
            Err(e) => Err(e),
            Ok(deaths) => Ok(PvpData { kills, deaths }),
        },
    }
}

pub fn pvp_from_obj(o: &Vec<(String, Json)>) -> (r: Result<PvpData, ApiError>)
    ensures
        res_view(r) == v_pvp(o@),
{
    let kills = match req_i32(o, "kills") {
        Ok(v) => v,
        Err(e) => {
            return Err(e);
        },
    };
    let deaths = match req_i32(o, "deaths") {
        Ok(v) => v,
        Err(e) => {
            return Err(e);
        },
    };
    Ok(PvpData { kills, deaths })
}

/// Dungeon or raid clears read from their container: a required total
/// and a required count dictionary under `list`.
pub open spec fn v_clears(o: Seq<(String, Json)>) -> Result<
    (i32, Seq<(Seq<char>, i32)>),
    ApiErrorV,
> {
    match v_req_i32(o, "total"@) {
        Err(e) => Err(e),
        Ok(total) => match v_req_obj(o, "list"@) {
            Err(e) => Err(e),
            Ok(list_o) => match v_int_dict(list_o) {
                Err(e) => Err(e),
                Ok(counts) => Ok((total, counts)),
            },
        },
    }
}

fn clears_from_obj(o: &Vec<(String, Json)>) -> (r: Result<(i32, Vec<(String, i32)>), ApiError>)
    ensures
        match r {
            Ok(c) => v_clears(o@) == Ok::<_, ApiErrorV>((c.0, pairs_view(c.1@))),
            Err(e) => v_clears(o@) == Err::<(i32, Seq<(Seq<char>, i32)>), _>(e@),
        },
{
    let total = match req_i32(o, "total") {
        Ok(v) => v,
        Err(e) => {
            return Err(e);
        },
    };
    let list_o = match req_obj(o, "list") {
        Ok(v) => v,
        Err(e) => {
            return Err(e);
        },
    };
    match int_dict(list_o) {
        Ok(counts) => Ok((total, counts)),
        Err(e) => Err(e),
    }
}

/// The dungeon container mapped to a [`DungeonData`].
pub open spec fn v_dungeons(o: Seq<(String, Json)>) -> Result<DungeonDataV, ApiErrorV> {
    match v_clears(o) {
        Err(e) => Err(e),
        Ok(c) => Ok(DungeonDataV { total: c.0, dungeon_list: c.1 }),
    }
}

pub fn dungeons_from_obj(o: &Vec<(String, Json)>) -> (r: Result<DungeonData, ApiError>)
    ensures
        res_view(r) == v_dungeons(o@),
{
    match clears_from_obj(o) {
        Ok(c) => Ok(DungeonData { total: c.0, dungeon_list: c.1 }),
        Err(e) => Err(e),
    }
}

/// The raid container mapped to a [`RaidData`].
pub open spec fn v_raids(o: Seq<(String, Json)>) -> Result<RaidDataV, ApiErrorV> {
    match v_clears(o) {
        Err(e) => Err(e),
        Ok(c) => Ok(RaidDataV { total: c.0, raid_list: c.1 }),
    }
}

pub fn raids_from_obj(o: &Vec<(String, Json)>) -> (r: Result<RaidData, ApiError>)
    ensures
        res_view(r) == v_raids(o@),
{
    match clears_from_obj(o) {
        Ok(c) => Ok(RaidData { total: c.0, raid_list: c.1 }),
        Err(e) => Err(e),
    }
}

/// The main profile of a player.
#[derive(Debug, PartialEq, Eq, Clone)]
pub struct MainPlayerData {
    pub username: String,
    pub online: bool,
    pub server: Option<String>,
    pub active_character: String,
    pub uuid: String,
    pub rank: Option<String>,
    pub rank_badge: Option<String>,
    pub legacy_rank_colour: Option<LegacyRankColour>,
    pub shortened_rank: Option<String>,
    pub support_rank: Option<String>,
    pub veteran: bool,
    pub first_join: String,
    pub last_join: String,
    pub playtime: JsonNum,
    pub guild: Option<PlayerGuild>,
    pub global_data: GlobalData,
    pub forum_link: Option<i32>,
    pub ranking: Vec<(String, i32)>,
    pub previous_ranking: Vec<(String, i32)>,
    pub public_profile: bool,
}

/// Mathematical image of a [`MainPlayerData`].
pub struct MainPlayerDataV {
    pub username: Seq<char>,
    pub online: bool,
    pub server: Option<Seq<char>>,
    pub active_character: Seq<char>,
    pub uuid: Seq<char>,
    pub rank: Option<Seq<char>>,
    pub rank_badge: Option<Seq<char>>,
    pub legacy_rank_colour: Option<LegacyRankColourV>,
    pub shortened_rank: Option<Seq<char>>,
    pub support_rank: Option<Seq<char>>,
    pub veteran: bool,
    pub first_join: Seq<char>,
    pub last_join: Seq<char>,
    pub playtime: JsonNumV,
    pub guild: Option<PlayerGuildV>,
    pub global_data: GlobalDataV,
    pub forum_link: Option<i32>,
    pub ranking: Seq<(Seq<char>, i32)>,
    pub previous_ranking: Seq<(Seq<char>, i32)>,
    pub public_profile: bool,
}

impl View for MainPlayerData {
    type V = MainPlayerDataV;

    open spec fn view(&self) -> MainPlayerDataV {
        MainPlayerDataV {
            username: self.username@,
            online: self.online,
            server: opt_view(self.server),
            active_character: self.active_character@,
            uuid: self.uuid@,
            rank: opt_view(self.rank),
            rank_badge: opt_view(self.rank_badge),
            legacy_rank_colour: opt_view(self.legacy_rank_colour),
            shortened_rank: opt_view(self.shortened_rank),
            support_rank: opt_view(self.support_rank),
            veteran: self.veteran,
            first_join: self.first_join@,
            last_join: self.last_join@,
            playtime: self.playtime@,
            guild: opt_view(self.guild),
            global_data: self.global_data@,
            forum_link: self.forum_link,
            ranking: pairs_view(self.ranking@),
            previous_ranking: pairs_view(self.previous_ranking@),
            public_profile: self.public_profile,
        }
    }
}

/// The optional legacy rank colour: absent where the field is not an
/// object; where present, both parts are required.
pub open spec fn v_legacy_colour(o: Seq<(String, Json)>) -> Result<
    Option<LegacyRankColourV>,
    ApiErrorV,
> {
    match v_opt_obj(o, "legacyRankColour"@) {
        None => Ok(None),
        Some(co) => match v_req_str(co, "main"@) {
            Err(e) => Err(e),
            Ok(main) => match v_req_str(co, "sub"@) {
                Err(e) => Err(e),
                Ok(sub) => Ok(Some(LegacyRankColourV { main, sub })),
            },
        },
    }
}

fn legacy_colour_from_obj(o: &Vec<(String, Json)>) -> (r: Result<
    Option<LegacyRankColour>,
    ApiError,
>)
    ensures
        match r {
            Ok(c) => v_legacy_colour(o@) == Ok::<_, ApiErrorV>(opt_view(c)),
            Err(e) => v_legacy_colour(o@) == Err::<Option<LegacyRankColourV>, _>(e@),
        },
{
    let co = match opt_obj(o, "legacyRankColour") {
        Some(co) => co,
        None => {
            return Ok(None);
        },
    };
    let main = match req_str(co, "main") {
        Ok(v) => v,
        Err(e) => {
            return Err(e);
        },
    };
    let sub = match req_str(co, "sub") {
        Ok(v) => v,
        Err(e) => {
            return Err(e);
        },
    };
    Ok(Some(LegacyRankColour { main, sub }))
}

/// The optional guild membership: absent where the field is not an
/// object; where present, every identity field is required.
pub open spec fn v_player_guild(o: Seq<(String, Json)>) -> Result<
    Option<PlayerGuildV>,
    ApiErrorV,
> {
    match v_opt_obj(o, "guild"@) {
        None => Ok(None),
        Some(go) => match v_req_str(go, "uuid"@) {
            Err(e) => Err(e),
            Ok(uuid) => match v_req_str(go, "name"@) {
                Err(e) => Err(e),
                Ok(name) => match v_req_str(go, "prefix"@) {
                    Err(e) => Err(e),
                    Ok(prefix) => match v_req_str(go, "rank"@) {
                        Err(e) => Err(e),
                        Ok(rank) => match v_req_str(go, "rankStars"@) {
                            Err(e) => Err(e),
                            Ok(rank_stars) => Ok(
                                Some(PlayerGuildV { uuid, name, prefix, rank, rank_stars }),
                            ),
                        },
                    },
                },
            },
        },
    }
}

fn player_guild_from_obj(o: &Vec<(String, Json)>) -> (r: Result<Option<PlayerGuild>, ApiError>)
    ensures
        match r {
            Ok(g) => v_player_guild(o@) == Ok::<_, ApiErrorV>(opt_view(g)),
            Err(e) => v_player_guild(o@) == Err::<Option<PlayerGuildV>, _>(e@),
        },
{
    let go = match opt_obj(o, "guild") {
        Some(go) => go,
        None => {
            return Ok(None);
        },
    };
    let uuid = match req_str(go, "uuid") {
        Ok(v) => v,
        Err(e) => {
            return Err(e);
        },
    };
    let name = match req_str(go, "name") {
        Ok(v) => v,
        Err(e) => {
            return Err(e);
        },
    };
    let prefix = match req_str(go, "prefix") {
        Ok(v) => v,
        Err(e) => {
            return Err(e);
        },
    };
    let rank = match req_str(go, "rank") {
        Ok(v) => v,
        Err(e) => {
            return Err(e);
        },
    };
    let rank_stars = match req_str(go, "rankStars") {
        Ok(v) => v,
        Err(e) => {
            return Err(e);
        },
    };
    Ok(Some(PlayerGuild { uuid, name, prefix, rank, rank_stars }))
}

/// The lifetime counters under `globalData`: every field is required.
pub open spec fn v_global(o: Seq<(String, Json)>) -> Result<GlobalDataV, ApiErrorV> {
    match v_req_i32(o, "wars"@) {
        Err(e) => Err(e),
        Ok(wars) => match v_req_i32(o, "totalLevel"@) {
            Err(e) => Err(e),
            Ok(total_level) => match v_req_i32(o, "killedMobs"@) {
                Err(e) => Err(e),
                Ok(killed_mobs) => match v_req_i32(o, "chestsFound"@) {
                    Err(e) => Err(e),
                    Ok(chests_found) => match v_req_obj(o, "dungeons"@) {
                        Err(e) => Err(e),
                        Ok(do_) => match v_dungeons(do_) {
                            Err(e) => Err(e),
                            Ok(dungeons) => match v_req_obj(o, "raids"@) {
                                Err(e) => Err(e),
                                Ok(ro) => match v_raids(ro) {
                                    Err(e) => Err(e),
                                    Ok(raids) => match v_req_i32(o, "completedQuests"@) {
                                        Err(e) => Err(e),
                                        Ok(completed_quests) => match v_req_obj(o, "pvp"@) {
                                            Err(e) => Err(e),
                                            Ok(po) => match v_pvp(po) {
                                                Err(e) => Err(e),
                                                Ok(pvp) => Ok(
                                                    GlobalDataV {
                                                        wars,
                                                        total_level,
                                                        killed_mobs,
                                                        chests_found,
                                                        dungeons,
                                                        raids,
                                                        completed_quests,
                                                        pvp,
                                                    },
                                                ),
                                            },
                                        },
                                    },
                                },
                            },
                        },
                    },
                },
            },
        },
    }
}

pub fn global_from_obj(o: &Vec<(String, Json)>) -> (r: Result<GlobalData, ApiError>)
    ensures
        res_view(r) == v_global(o@),
{
    let wars = match req_i32(o, "wars") {
        Ok(v) => v,
        Err(e) => {
            return Err(e);
        },
    };
    let total_level = match req_i32(o, "totalLevel") {
        Ok(v) => v,
        Err(e) => {
            return Err(e);
        },
    };
    let killed_mobs = match req_i32(o, "killedMobs") {
        Ok(v) => v,
        Err(e) => {
            return Err(e);
        },
    };
    let chests_found = match req_i32(o, "chestsFound") {
        Ok(v) => v,
        Err(e) => {
            return Err(e);
        },
    };
    let do_ = match req_obj(o, "dungeons") {
        Ok(v) => v,
        Err(e) => {
            return Err(e);
        },
    };
    let dungeons = match dungeons_from_obj(do_) {
        Ok(v) => v,
        Err(e) => {
            return Err(e);
        },
    };
    let ro = match req_obj(o, "raids") {
        Ok(v) => v,
        Err(e) => {
            return Err(e);
        },
    };
    let raids = match raids_from_obj(ro) {
        Ok(v) => v,
        Err(e) => {
            return Err(e);
        },
    };
    let completed_quests = match req_i32(o, "completedQuests") {
        Ok(v) => v,
        Err(e) => {
            return Err(e);
        },
    };
    let po = match req_obj(o, "pvp") {
        Ok(v) => v,
        Err(e) => {
            return Err(e);
        },
    };
    let pvp = match pvp_from_obj(po) {
        Ok(v) => v,
        Err(e) => {
            return Err(e);
        },
    };
    Ok(
        GlobalData {
            wars,
            total_level,
            killed_mobs,
            chests_found,
            dungeons,
            raids,
            completed_quests,
            pvp,
        },
    )
}

/// The main-profile document.  Identity, join dates, playtime, the
/// lifetime counters, both ranking dictionaries and the profile flag
/// are required; the rank decorations, the current server and the
/// guild membership are optional; `veteran` defaults to `false`.
pub open spec fn v_main_player(j: Json) -> Result<MainPlayerDataV, ApiErrorV> {
    match v_root_obj(j) {
        Err(e) => Err(e),
        Ok(o) => match v_req_str(o, "username"@) {
            Err(e) => Err(e),
            Ok(username) => match v_req_bool(o, "online"@) {
                Err(e) => Err(e),
                Ok(online) => match v_req_str(o, "activeCharacter"@) {
                    Err(e) => Err(e),
                    Ok(active_character) => match v_req_str(o, "uuid"@) {
                        Err(e) => Err(e),
                        Ok(uuid) => match v_legacy_colour(o) {
                            Err(e) => Err(e),
                            Ok(legacy_rank_colour) => match v_req_str(o, "firstJoin"@) {
                                Err(e) => Err(e),
                                Ok(first_join) => match v_req_str(o, "lastJoin"@) {
                                    Err(e) => Err(e),
                                    Ok(last_join) => match v_req_num(o, "playtime"@) {
                                        Err(e) => Err(e),
                                        Ok(playtime) => match v_player_guild(o) {
                                            Err(e) => Err(e),
                                            Ok(guild) => match v_req_obj(o, "globalData"@) {
                                                Err(e) => Err(e),
                                                Ok(go) => match v_global(go) {
                                                    Err(e) => Err(e),
                                                    Ok(global_data) => v_main_player_rest(
                                                        o,
                                                        MainHead {
                                                            username,
                                                            online,
                                                            active_character,
                                                            uuid,
                                                            legacy_rank_colour,
                                                            first_join,
                                                            last_join,
                                                            playtime,
                                                            guild,
                                                            global_data,
                                                        },
                                                    ),
                                                },
                                            },
                                        },
                                    },
                                },
                            },
                        },
                    },
                },
            },
        },
    }
}

/// The required fields of a main profile gathered before the ranking
/// dictionaries are mapped.
pub struct MainHead {
    pub username: Seq<char>,
    pub online: bool,
    pub active_character: Seq<char>,
    pub uuid: Seq<char>,
    pub legacy_rank_colour: Option<LegacyRankColourV>,
    pub first_join: Seq<char>,
    pub last_join: Seq<char>,
    pub playtime: JsonNumV,
    pub guild: Option<PlayerGuildV>,
    pub global_data: GlobalDataV,
}

pub open spec fn v_main_player_rest(o: Seq<(String, Json)>, head: MainHead) -> Result<
    MainPlayerDataV,
    ApiErrorV,
> {
    match v_req_obj(o, "ranking"@) {
        Err(e) => Err(e),
        Ok(ro) => match v_int_dict(ro) {
            Err(e) => Err(e),
            Ok(ranking) => match v_req_obj(o, "previousRanking"@) {
                Err(e) => Err(e),
                Ok(po) => match v_int_dict(po) {
                    Err(e) => Err(e),
                    Ok(previous_ranking) => match v_req_bool(o, "publicProfile"@) {
                        Err(e) => Err(e),
                        Ok(public_profile) => Ok(
                            MainPlayerDataV {
                                username: head.username,
                                online: head.online,
                                server: v_opt_str(o, "server"@),
                                active_character: head.active_character,
                                uuid: head.uuid,
                                rank: v_opt_str(o, "rank"@),
                                rank_badge: v_opt_str(o, "rankBadge"@),
                                legacy_rank_colour: head.legacy_rank_colour,
                                shortened_rank: v_opt_str(o, "shortenedRank"@),
                                support_rank: v_opt_str(o, "supportRank"@),
                                veteran: v_def_bool(o, "veteran"@),
                                first_join: head.first_join,
                                last_join: head.last_join,
                                playtime: head.playtime,
                                guild: head.guild,
                                global_data: head.global_data,
                                forum_link: v_opt_i32(o, "forumLink"@),
                                ranking,
                                previous_ranking,
                                public_profile,
                            },
                        ),
                    },
                },
            },
        },
    }
}

/// Map one main-profile document.
pub fn main_player_from_json(j: &Json) -> (r: Result<MainPlayerData, ApiError>)
    ensures
        res_view(r) == v_main_player(*j),
{
    let o = match root_obj(j) {
        Ok(o) => o,
        Err(e) => {
            return Err(e);
        },
    };
    let username = match req_str(o, "username") {
        Ok(v) => v,
        Err(e) => {
            return Err(e);
        },
    };
    let online = match req_bool(o, "online") {
        Ok(v) => v,
        Err(e) => {
            return Err(e);
        },
    };
    let server = opt_str(o, "server");
    let active_character = match req_str(o, "activeCharacter") {
        Ok(v) => v,
        Err(e) => {
            return Err(e);
        },
    };
    let uuid = match req_str(o, "uuid") {
        Ok(v) => v,
        Err(e) => {
            return Err(e);
        },
    };
    let rank = opt_str(o, "rank");
    let rank_badge = opt_str(o, "rankBadge");
    let legacy_rank_colour = match legacy_colour_from_obj(o) {
        Ok(v) => v,
        Err(e) => {
            return Err(e);
        },
    };
    let shortened_rank = opt_str(o, "shortenedRank");
    let support_rank = opt_str(o, "supportRank");
    let veteran = def_bool(o, "veteran");
    let first_join = match req_str(o, "firstJoin") {
        Ok(v) => v,
        Err(e) => {
            return Err(e);
        },
    };
    let last_join = match req_str(o, "lastJoin") {
        Ok(v) => v,
        Err(e) => {
            return Err(e);
        },
    };
    let playtime = match req_num(o, "playtime") {
        Ok(v) => v,
        Err(e) => {
            return Err(e);
        },
    };
    let guild = match player_guild_from_obj(o) {
        Ok(v) => v,
        Err(e) => {
            return Err(e);
        },
    };
    let go = match req_obj(o, "globalData") {
        Ok(v) => v,
        Err(e) => {
            return Err(e);
        },
    };
    let global_data = match global_from_obj(go) {
        Ok(v) => v,
        Err(e) => {
            return Err(e);
        },
    };
    let forum_link = opt_i32(o, "forumLink");
    let ro = match req_obj(o, "ranking") {
        Ok(v) => v,
        Err(e) => {
            return Err(e);
        },
    };
    let ranking = match int_dict(ro) {
        Ok(v) => v,
        Err(e) => {
            return Err(e);
        },
    };
    let po = match req_obj(o, "previousRanking") {
        Ok(v) => v,
        Err(e) => {
            return Err(e);
        },
    };
    let previous_ranking = match int_dict(po) {
        Ok(v) => v,
        Err(e) => {
            return Err(e);
        },
    };
    let public_profile = match req_bool(o, "publicProfile") {
        Ok(v) => v,
        Err(e) => {
            return Err(e);
        },
    };
    Ok(
        MainPlayerData {
            username,
            online,
            server,
            active_character,
            uuid,
            rank,
            rank_badge,
            legacy_rank_colour,
            shortened_rank,
            support_rank,
            veteran,
            first_join,
            last_join,
            playtime,
            guild,
            global_data,
            forum_link,
            ranking,
            previous_ranking,
            public_profile,
        },
    )
}

pub open spec fn v_main_player_response(s: Seq<char>) -> Result<MainPlayerDataV, ApiErrorV> {
    match json_of_text(s) {
        None => Err(ApiErrorV::Format),
        Some(j) => v_main_player(j),
    }
}

/// Map a whole main-profile response body.
pub fn main_player_from_response(text: &str) -> (r: Result<MainPlayerData, ApiError>)
    ensures
        res_view(r) == v_main_player_response(text@),
{
    match parse_text(text) {
        Ok(j) => main_player_from_json(&j),
        Err(e) => Err(e),
    }
}

/// One character of a player.
#[derive(Debug, PartialEq, Eq, Clone)]
pub struct CharacterData {
    pub class: String,
    pub nickname: Option<String>,
    pub level: i32,
    pub xp: i64,
    pub xp_percent: i32,
    pub total_level: i32,
    pub wars: i32,
    pub playtime: JsonNum,
    pub mobs_killed: i32,
    pub chests_found: i32,
    pub items_identified: i32,
    pub blocks_walked: i64,
    pub logins: i32,
    pub deaths: i32,
    pub discoveries: i32,
    pub pre_economy: bool,
    pub pvp: PvpData,
    pub gamemodes: Vec<String>,
    pub skill_points: Option<SkillPointData>,
    pub professions: Vec<(String, ProfessionData)>,
    pub dungeons: Option<DungeonData>,
    pub raids: Option<RaidData>,
    pub quests: Vec<String>,
}

/// Mathematical image of a [`CharacterData`].
pub struct CharacterDataV {
    pub class: Seq<char>,
    pub nickname: Option<Seq<char>>,
    pub level: i32,
    pub xp: i64,
    pub xp_percent: i32,
    pub total_level: i32,
    pub wars: i32,
    pub playtime: JsonNumV,
    pub mobs_killed: i32,
    pub chests_found: i32,
    pub items_identified: i32,
    pub blocks_walked: i64,
    pub logins: i32,
    pub deaths: i32,
    pub discoveries: i32,
    pub pre_economy: bool,
    pub pvp: PvpData,
    pub gamemodes: Seq<Seq<char>>,
    pub skill_points: Option<SkillPointData>,
    pub professions: Seq<(Seq<char>, ProfessionData)>,
    pub dungeons: Option<DungeonDataV>,
    pub raids: Option<RaidDataV>,
    pub quests: Seq<Seq<char>>,
}

impl View for CharacterData {
    type V = CharacterDataV;

    open spec fn view(&self) -> CharacterDataV {
        CharacterDataV {
            class: self.class@,
            nickname: opt_view(self.nickname),
            level: self.level,
            xp: self.xp,
            xp_percent: self.xp_percent,
            total_level: self.total_level,
            wars: self.wars,
            playtime: self.playtime@,
            mobs_killed: self.mobs_killed,
            chests_found: self.chests_found,
            items_identified: self.items_identified,
            blocks_walked: self.blocks_walked,
            logins: self.logins,
            deaths: self.deaths,
            discoveries: self.discoveries,
            pre_economy: self.pre_economy,
            pvp: self.pvp,
            gamemodes: strs_view(self.gamemodes@),
            skill_points: self.skill_points,
            professions: pairs_view(self.professions@),
            dungeons: opt_view(self.dungeons),
            raids: opt_view(self.raids),
            quests: strs_view(self.quests@),
        }
    }
}

/// The optional skill-point breakdown: absent where the field is not
/// an object or the object is empty; each point count defaults to
/// zero.
pub open spec fn v_skill_points(o: Seq<(String, Json)>) -> Option<SkillPointData> {
    match v_opt_obj(o, "skillPoints"@) {
        None => None,
        Some(so) => if so.len() == 0 {
            None
        } else {
            Some(
                SkillPointData {
                    strength: v_def_i32(so, "strength"@, 0),
                    dexterity: v_def_i32(so, "dexterity"@, 0),
                    intelligence: v_def_i32(so, "intelligence"@, 0),
                    defense: v_def_i32(so, "defense"@, 0),
                    agility: v_def_i32(so, "agility"@, 0),
                },
            )
        },
    }
}

fn skill_points_from_obj(o: &Vec<(String, Json)>) -> (r: Option<SkillPointData>)
    ensures
        r == v_skill_points(o@),
{
    let so = match opt_obj(o, "skillPoints") {
        Some(so) => so,
        None => {
            return None;
        },
    };
    if so.len() == 0 {
        return None;
    }
    Some(
        SkillPointData {
            strength: def_i32(so, "strength", 0),
            dexterity: def_i32(so, "dexterity", 0),
            intelligence: def_i32(so, "intelligence", 0),
            defense: def_i32(so, "defense", 0),
            agility: def_i32(so, "agility", 0),
        },
    )
}

/// One entry of the profession dictionary: the value must be an
/// object; the level defaults to `1`, the progress to `0`.
pub open spec fn v_profession_entry(p: (String, Json)) -> Result<
    (Seq<char>, ProfessionData),
    ApiErrorV,
> {
    match p.1 {
        Json::Obj(o) => Ok(
            (
                p.0@,
                ProfessionData {
                    level: v_def_i32(o@, "level"@, 1),
                    xp_percent: v_def_i32(o@, "xpPercent"@, 0),
                },
            ),
        ),
        _ => Err(ApiErrorV::Schema { field: p.0@, expected: JsonKind::Obj }),
    }
}

pub open spec fn v_professions_from(entries: Seq<(String, Json)>, i: int) -> Result<
    Seq<(Seq<char>, ProfessionData)>,
    ApiErrorV,
>
    decreases entries.len() - i,
{
    if i < 0 || i >= entries.len() {
        Ok(Seq::empty())
    } else {
        match v_profession_entry(entries[i]) {
            Err(e) => Err(e),
            Ok(p) => combine(seq![p], v_professions_from(entries, i + 1)),
        }
    }
}

fn professions_from_obj(entries: &Vec<(String, Json)>) -> (r: Result<
    Vec<(String, ProfessionData)>,
    ApiError,
>)
    ensures
        match r {
            Ok(ps) => v_professions_from(entries@, 0) == Ok::<_, ApiErrorV>(pairs_view(ps@)),
            Err(e) => v_professions_from(entries@, 0) == Err::<Seq<(Seq<char>, ProfessionData)>, _>(
                e@,
            ),
        },
{
    let mut acc: Vec<(String, ProfessionData)> = Vec::new();
    let n = entries.len();
    proof {
        lemma_combine_empty(v_professions_from(entries@, 0));
        assert(pairs_view(acc@) =~= Seq::<(Seq<char>, ProfessionData)>::empty());
    }
    for i in 0..n
        invariant
            n == entries@.len(),
            v_professions_from(entries@, 0) == combine(
                pairs_view(acc@),
                v_professions_from(entries@, i as int),
            ),
    {
        let key = &entries[i].0;
        let o = match &entries[i].1 {
            Json::Obj(o) => o,
            _ => {
                return Err(ApiError::Schema { field: key.clone(), expected: JsonKind::Obj });
            },
        };
        let p = (
            key.clone(),
            ProfessionData { level: def_i32(o, "level", 1), xp_percent: def_i32(o, "xpPercent", 0) },
        );
        proof {
            lemma_combine_step(pairs_view(acc@), (p.0@, p.1), v_professions_from(entries@, i + 1));
            assert(pairs_view(acc@.push(p)) =~= pairs_view(acc@).push((p.0@, p.1)));
        }
        acc.push(p);
    }
    proof {
        lemma_combine_fin(pairs_view(acc@));
    }
    Ok(acc)
}

/// Optional dungeon clears: absent where the field is not an object;
/// where present, mapped as the required container is.
pub open spec fn v_opt_dungeons(o: Seq<(String, Json)>, name: Seq<char>) -> Result<
    Option<DungeonDataV>,
    ApiErrorV,
> {
    match v_opt_obj(o, name) {
        None => Ok(None),
        Some(co) => match v_dungeons(co) {
            Err(e) => Err(e),
            Ok(d) => Ok(Some(d)),
        },
    }
}

fn opt_dungeons(o: &Vec<(String, Json)>, name: &str) -> (r: Result<Option<DungeonData>, ApiError>)
    ensures
        match r {
            Ok(d) => v_opt_dungeons(o@, name@) == Ok::<_, ApiErrorV>(opt_view(d)),
            Err(e) => v_opt_dungeons(o@, name@) == Err::<Option<DungeonDataV>, _>(e@),
        },
{
    let co = match opt_obj(o, name) {
        Some(co) => co,
        None => {
            return Ok(None);
        },
    };
    match dungeons_from_obj(co) {
        Ok(d) => Ok(Some(d)),
        Err(e) => Err(e),
    }
}

/// Optional raid clears, as [`v_opt_dungeons`].
pub open spec fn v_opt_raids(o: Seq<(String, Json)>, name: Seq<char>) -> Result<
    Option<RaidDataV>,
    ApiErrorV,
> {
    match v_opt_obj(o, name) {
        None => Ok(None),
        Some(co) => match v_raids(co) {
            Err(e) => Err(e),
            Ok(d) => Ok(Some(d)),
        },
    }
}

fn opt_raids(o: &Vec<(String, Json)>, name: &str) -> (r: Result<Option<RaidData>, ApiError>)
    ensures
        match r {
            Ok(d) => v_opt_raids(o@, name@) == Ok::<_, ApiErrorV>(opt_view(d)),
            Err(e) => v_opt_raids(o@, name@) == Err::<Option<RaidDataV>, _>(e@),
        },
{
    let co = match opt_obj(o, name) {
        Some(co) => co,
        None => {
            return Ok(None);
        },
    };
    match raids_from_obj(co) {
        Ok(d) => Ok(Some(d)),
        Err(e) => Err(e),
    }
}

/// The required scalar fields of a character, gathered before its
/// containers are mapped.
pub struct CharHead {
    pub class: Seq<char>,
    pub level: i32,
    pub xp: i64,
    pub xp_percent: i32,
    pub total_level: i32,
    pub wars: i32,
    pub playtime: JsonNumV,
    pub mobs_killed: i32,
    pub chests_found: i32,
    pub items_identified: i32,
    pub blocks_walked: i64,
    pub logins: i32,
    pub deaths: i32,
    pub discoveries: i32,
    pub pre_economy: bool,
}

pub open spec fn v_char_head(o: Seq<(String, Json)>) -> Result<CharHead, ApiErrorV> {
    match v_req_str(o, "type"@) {
        Err(e) => Err(e),
        Ok(class) => match v_req_i32(o, "level"@) {
            Err(e) => Err(e),
            Ok(level) => match v_req_i64(o, "xp"@) {
                Err(e) => Err(e),
                Ok(xp) => match v_req_i32(o, "xpPercent"@) {
                    Err(e) => Err(e),
                    Ok(xp_percent) => match v_req_i32(o, "totalLevel"@) {
                        Err(e) => Err(e),
                        Ok(total_level) => match v_req_i32(o, "wars"@) {
                            Err(e) => Err(e),
                            Ok(wars) => match v_req_num(o, "playtime"@) {
                                Err(e) => Err(e),
                                Ok(playtime) => match v_req_i32(o, "mobsKilled"@) {
                                    Err(e) => Err(e),
                                    Ok(mobs_killed) => match v_req_i32(o, "chestsFound"@) {
                                        Err(e) => Err(e),
                                        Ok(chests_found) => match v_req_i32(o, "itemsIdentified"@) {
                                            Err(e) => Err(e),
                                            Ok(items_identified) => match v_req_i64(
                                                o,
                                                "blocksWalked"@,
                                            ) {
                                                Err(e) => Err(e),
                                                Ok(blocks_walked) => match v_req_i32(o, "logins"@) {
                                                    Err(e) => Err(e),
                                                    Ok(logins) => match v_req_i32(o, "deaths"@) {
                                                        Err(e) => Err(e),
                                                        Ok(deaths) => match v_req_i32(
                                                            o,
                                                            "discoveries"@,
                                                        ) {
                                                            Err(e) => Err(e),
                                                            Ok(discoveries) => match v_req_bool(
                                                                o,
                                                                "preEconomy"@,
                                                            ) {
                                                                Err(e) => Err(e),
                                                                Ok(pre_economy) => Ok(
                                                                    CharHead {
                                                                        class,
                                                                        level,
                                                                        xp,
                                                                        xp_percent,
                                                                        total_level,
                                                                        wars,
                                                                        playtime,
                                                                        mobs_killed,
                                                                        chests_found,
                                                                        items_identified,
                                                                        blocks_walked,
                                                                        logins,
                                                                        deaths,
                                                                        discoveries,
                                                                        pre_economy,
                                                                    },
                                                                ),
                                                            },
                                                        },
                                                    },
                                                },
                                            },
                                        },
                                    },
                                },
                            },
                        },
                    },
                },
            },
        },
    }
}

fn char_head_from_obj(o: &Vec<(String, Json)>) -> (r: Result<
    (String, JsonNum, CharHeadNums),
    ApiError,
>)
    ensures
        match r {
            Ok(h) => v_char_head(o@) == Ok::<_, ApiErrorV>(
                CharHead {
                    class: h.0@,
                    level: h.2.level,
                    xp: h.2.xp,
                    xp_percent: h.2.xp_percent,
                    total_level: h.2.total_level,
                    wars: h.2.wars,
                    playtime: h.1@,
                    mobs_killed: h.2.mobs_killed,
                    chests_found: h.2.chests_found,
                    items_identified: h.2.items_identified,
                    blocks_walked: h.2.blocks_walked,
                    logins: h.2.logins,
                    deaths: h.2.deaths,
                    discoveries: h.2.discoveries,
                    pre_economy: h.2.pre_economy,
                },
            ),
            Err(e) => v_char_head(o@) == Err::<CharHead, _>(e@),
        },
{
    let class = match req_str(o, "type") {
        Ok(v) => v,
        Err(e) => {
            return Err(e);
        },
    };
    let level = match req_i32(o, "level") {
        Ok(v) => v,
        Err(e) => {
            return Err(e);
        },
    };
    let xp = match req_i64(o, "xp") {
        Ok(v) => v,
        Err(e) => {
            return Err(e);
        },
    };
    let xp_percent = match req_i32(o, "xpPercent") {
        Ok(v) => v,
        Err(e) => {
            return Err(e);
        },
    };
    let total_level = match req_i32(o, "totalLevel") {
        Ok(v) => v,
        Err(e) => {
            return Err(e);
        },
    };
    let wars = match req_i32(o, "wars") {
        Ok(v) => v,
        Err(e) => {
            return Err(e);
        },
    };
    let playtime = match req_num(o, "playtime") {
        Ok(v) => v,
        Err(e) => {
            return Err(e);
        },
    };
    let mobs_killed = match req_i32(o, "mobsKilled") {
        Ok(v) => v,
        Err(e) => {
            return Err(e);
        },
    };
    let chests_found = match req_i32(o, "chestsFound") {
        Ok(v) => v,
        Err(e) => {
            return Err(e);
        },
    };
    let items_identified = match req_i32(o, "itemsIdentified") {
        Ok(v) => v,
        Err(e) => {
            return Err(e);
        },
    };
    let blocks_walked = match req_i64(o, "blocksWalked") {
        Ok(v) => v,
        Err(e) => {
            return Err(e);
        },
    };
    let logins = match req_i32(o, "logins") {
        Ok(v) => v,
        Err(e) => {
            return Err(e);
        },
    };
    let deaths = match req_i32(o, "deaths") {
        Ok(v) => v,
        Err(e) => {
            return Err(e);
        },
    };
    let discoveries = match req_i32(o, "discoveries") {
        Ok(v) => v,
        Err(e) => {
            return Err(e);
        },
    };
    let pre_economy = match req_bool(o, "preEconomy") {
        Ok(v) => v,
        Err(e) => {
            return Err(e);
        },
    };
    Ok(
        (
            class,
            playtime,
            CharHeadNums {
                level,
                xp,
                xp_percent,
                total_level,
                wars,
                mobs_killed,
                chests_found,
                items_identified,
                blocks_walked,
                logins,
                deaths,
                discoveries,
                pre_economy,
            },
        ),
    )
}

/// The plain-number scalar fields of a character.
#[derive(Debug, PartialEq, Eq, Clone, Copy)]
pub struct CharHeadNums {
    pub level: i32,
    pub xp: i64,
    pub xp_percent: i32,
    pub total_level: i32,
    pub wars: i32,
    pub mobs_killed: i32,
    pub chests_found: i32,
    pub items_identified: i32,
    pub blocks_walked: i64,
    pub logins: i32,
    pub deaths: i32,
    pub discoveries: i32,
    pub pre_economy: bool,
}

/// One character document read from an object's entries.
pub open spec fn v_character(o: Seq<(String, Json)>) -> Result<CharacterDataV, ApiErrorV> {
    match v_char_head(o) {
        Err(e) => Err(e),
        Ok(head) => match v_req_obj(o, "pvp"@) {
            Err(e) => Err(e),
            Ok(po) => match v_pvp(po) {
                Err(e) => Err(e),
                Ok(pvp) => match v_req_arr(o, "gamemode"@) {
                    Err(e) => Err(e),
                    Ok(ga) => match v_str_list(ga, "gamemode"@) {
                        Err(e) => Err(e),
                        Ok(gamemodes) => match v_req_obj(o, "professions"@) {
                            Err(e) => Err(e),
                            Ok(pro) => match v_professions_from(pro, 0) {
                                Err(e) => Err(e),
                                Ok(professions) => match v_opt_dungeons(o, "dungeons"@) {
                                    Err(e) => Err(e),
                                    Ok(dungeons) => match v_opt_raids(o, "raids"@) {
                                        Err(e) => Err(e),
                                        Ok(raids) => match v_req_arr(o, "quests"@) {
                                            Err(e) => Err(e),
                                            Ok(qa) => match v_str_list(qa, "quests"@) {
                                                Err(e) => Err(e),
                                                Ok(quests) => Ok(
                                                    CharacterDataV {
                                                        class: head.class,
                                                        nickname: v_opt_str(o, "nickname"@),
                                                        level: head.level,
                                                        xp: head.xp,
                                                        xp_percent: head.xp_percent,
                                                        total_level: head.total_level,
                                                        wars: head.wars,
                                                        playtime: head.playtime,
                                                        mobs_killed: head.mobs_killed,
                                                        chests_found: head.chests_found,
                                                        items_identified: head.items_identified,
                                                        blocks_walked: head.blocks_walked,
                                                        logins: head.logins,
                                                        deaths: head.deaths,
                                                        discoveries: head.discoveries,
                                                        pre_economy: head.pre_economy,
                                                        pvp,
                                                        gamemodes,
                                                        skill_points: v_skill_points(o),
                                                        professions,
                                                        dungeons,
                                                        raids,
                                                        quests,
                                                    },
                                                ),
                                            },
                                        },
                                    },
                                },
                            },
                        },
                    },
                },
            },
        },
    }
}

/// Map one character document.
pub fn character_from_obj(o: &Vec<(String, Json)>) -> (r: Result<CharacterData, ApiError>)
    ensures
        res_view(r) == v_character(o@),
{
    let head = match char_head_from_obj(o) {
        Ok(v) => v,
        Err(e) => {
            return Err(e);
        },
    };
    let nickname = opt_str(o, "nickname");
    let po = match req_obj(o, "pvp") {
        Ok(v) => v,
        Err(e) => {
            return Err(e);
        },
    };
    let pvp = match pvp_from_obj(po) {
        Ok(v) => v,
        Err(e) => {
            return Err(e);
        },
    };
    let ga = match req_arr(o, "gamemode") {
        Ok(v) => v,
        Err(e) => {
            return Err(e);
        },
    };
    let gamemodes = match str_list(ga, "gamemode") {
        Ok(v) => v,
        Err(e) => {
            return Err(e);
        },
    };
    let skill_points = skill_points_from_obj(o);
    let pro = match req_obj(o, "professions") {
        Ok(v) => v,
        Err(e) => {
            return Err(e);
        },
    };
    let professions = match professions_from_obj(pro) {
        Ok(v) => v,
        Err(e) => {
            return Err(e);
        },
    };
    let dungeons = match opt_dungeons(o, "dungeons") {
        Ok(v) => v,
        Err(e) => {
            return Err(e);
        },
    };
    let raids = match opt_raids(o, "raids") {
        Ok(v) => v,
        Err(e) => {
            return Err(e);
        },
    };
    let qa = match req_arr(o, "quests") {
        Ok(v) => v,
        Err(e) => {
            return Err(e);
        },
    };
    let quests = match str_list(qa, "quests") {
        Ok(v) => v,
        Err(e) => {
            return Err(e);
        },
    };
    Ok(
        CharacterData {
            class: head.0,
            nickname,
            level: head.2.level,
            xp: head.2.xp,
            xp_percent: head.2.xp_percent,
            total_level: head.2.total_level,
            wars: head.2.wars,
            playtime: head.1,
            mobs_killed: head.2.mobs_killed,
            chests_found: head.2.chests_found,
            items_identified: head.2.items_identified,
            blocks_walked: head.2.blocks_walked,
            logins: head.2.logins,
            deaths: head.2.deaths,
            discoveries: head.2.discoveries,
            pre_economy: head.2.pre_economy,
            pvp,
            gamemodes,
            skill_points,
            professions,
            dungeons,
            raids,
            quests,
        },
    )
}

/// Character dictionary entries with the keys abstracted and the
/// characters taken to their views.
pub open spec fn chars_view(s: Seq<(String, CharacterData)>) -> Seq<(Seq<char>, CharacterDataV)> {
    s.map_values(|p: (String, CharacterData)| (p.0@, p.1@))
}

/// One entry of the character dictionary: the key is the character's
/// uuid; the value must be a character object.
pub open spec fn v_character_entry(p: (String, Json)) -> Result<
    (Seq<char>, CharacterDataV),
    ApiErrorV,
> {
    match p.1 {
        Json::Obj(o) => match v_character(o@) {
            Err(e) => Err(e),
            Ok(c) => Ok((p.0@, c)),
        },
        _ => Err(ApiErrorV::Schema { field: p.0@, expected: JsonKind::Obj }),
    }
}

pub open spec fn v_characters_from(entries: Seq<(String, Json)>, i: int) -> Result<
    Seq<(Seq<char>, CharacterDataV)>,
    ApiErrorV,
>
    decreases entries.len() - i,
{
    if i < 0 || i >= entries.len() {
        Ok(Seq::empty())
    } else {
        match v_character_entry(entries[i]) {
            Err(e) => Err(e),
            Ok(c) => combine(seq![c], v_characters_from(entries, i + 1)),
        }
    }
}

/// The character dictionary of a full-profile document, under the
/// required `characters` container.
pub open spec fn v_characters(j: Json) -> Result<Seq<(Seq<char>, CharacterDataV)>, ApiErrorV> {
    match v_root_obj(j) {
        Err(e) => Err(e),
        Ok(o) => match v_req_obj(o, "characters"@) {
            Err(e) => Err(e),
            Ok(co) => v_characters_from(co, 0),
        },
    }
}

/// Map the character dictionary of a full-profile document.
pub fn characters_from_json(j: &Json) -> (r: Result<Vec<(String, CharacterData)>, ApiError>)
    ensures
        match r {
            Ok(cs) => v_characters(*j) == Ok::<_, ApiErrorV>(chars_view(cs@)),
            Err(e) => v_characters(*j) == Err::<Seq<(Seq<char>, CharacterDataV)>, _>(e@),
        },
{
    let o = match root_obj(j) {
        Ok(o) => o,
        Err(e) => {
            return Err(e);
        },
    };
    let co = match req_obj(o, "characters") {
        Ok(v) => v,
        Err(e) => {
            return Err(e);
        },
    };
    let mut acc: Vec<(String, CharacterData)> = Vec::new();
    let n = co.len();
    proof {
        lemma_combine_empty(v_characters_from(co@, 0));
        assert(chars_view(acc@) =~= Seq::<(Seq<char>, CharacterDataV)>::empty());
    }
    for i in 0..n
        invariant
            n == co@.len(),
            v_characters(*j) == combine(chars_view(acc@), v_characters_from(co@, i as int)),
    {
        let key = &co[i].0;
        let details = match &co[i].1 {
            Json::Obj(entries) => entries,
            _ => {
                return Err(ApiError::Schema { field: key.clone(), expected: JsonKind::Obj });
            },
        };
        let c = match character_from_obj(details) {
            Ok(c) => c,
            Err(e) => {
                return Err(e);
            },
        };
        let p = (key.clone(), c);
        proof {
            lemma_combine_step(chars_view(acc@), (p.0@, p.1@), v_characters_from(co@, i + 1));
            assert(chars_view(acc@.push(p)) =~= chars_view(acc@).push((p.0@, p.1@)));
        }
        acc.push(p);
    }
    proof {
        lemma_combine_fin(chars_view(acc@));
    }
    Ok(acc)
}

/// The full profile: the main profile and the per-character detail,
/// both read from one document.
#[derive(Debug, PartialEq, Eq, Clone)]
pub struct FullPlayerData {
    pub main_data: MainPlayerData,
    pub characters: Vec<(String, CharacterData)>,
}

/// Mathematical image of a [`FullPlayerData`].
pub struct FullPlayerDataV {
    pub main_data: MainPlayerDataV,
    pub characters: Seq<(Seq<char>, CharacterDataV)>,
}

impl View for FullPlayerData {
    type V = FullPlayerDataV;

    open spec fn view(&self) -> FullPlayerDataV {
        FullPlayerDataV { main_data: self.main_data@, characters: chars_view(self.characters@) }
    }
}

/// The full-profile document: the main profile first, then the
/// character dictionary.
pub open spec fn v_full_player(j: Json) -> Result<FullPlayerDataV, ApiErrorV> {
    match v_main_player(j) {
        Err(e) => Err(e),
        Ok(main_data) => match v_characters(j) {
            Err(e) => Err(e),
            Ok(characters) => Ok(FullPlayerDataV { main_data, characters }),
        },
    }
}

/// Map one full-profile document.
pub fn full_player_from_json(j: &Json) -> (r: Result<FullPlayerData, ApiError>)
    ensures
        res_view(r) == v_full_player(*j),
{
    let main_data = match main_player_from_json(j) {
        Ok(v) => v,
        Err(e) => {
            return Err(e);
        },
    };
    let characters = match characters_from_json(j) {
        Ok(v) => v,
        Err(e) => {
            return Err(e);
        },
    };
    Ok(FullPlayerData { main_data, characters })
}

pub open spec fn v_full_player_response(s: Seq<char>) -> Result<FullPlayerDataV, ApiErrorV> {
    match json_of_text(s) {
        None => Err(ApiErrorV::Format),
        Some(j) => v_full_player(j),
    }
}

/// Map a whole full-profile response body.
pub fn full_player_from_response(text: &str) -> (r: Result<FullPlayerData, ApiError>)
    ensures
        res_view(r) == v_full_player_response(text@),
{
    match parse_text(text) {
        Ok(j) => full_player_from_json(&j),
        Err(e) => Err(e),
    }
}

/// The online players grouped by the world they are on.
#[derive(Debug, PartialEq, Eq, Clone)]
pub struct OnlinePlayerData {
    pub total_online: i32,
    pub players_by_world: Vec<(String, Vec<String>)>,
}

/// Mathematical image of an [`OnlinePlayerData`].
pub struct OnlinePlayerDataV {
    pub total_online: i32,
    pub players_by_world: Seq<(Seq<char>, Seq<Seq<char>>)>,
}

impl View for OnlinePlayerData {
    type V = OnlinePlayerDataV;

    open spec fn view(&self) -> OnlinePlayerDataV {
        OnlinePlayerDataV {
            total_online: self.total_online,
            players_by_world: groups_view(self.players_by_world@),
        }
    }
}

pub open spec fn groups_view(s: Seq<(String, Vec<String>)>) -> Seq<(Seq<char>, Seq<Seq<char>>)> {
    s.map_values(|p: (String, Vec<String>)| (p.0@, strs_view(p.1@)))
}

/// The world a player entry names: its string value, or the empty
/// string where the value is not a string.
pub open spec fn world_key(p: (String, Json)) -> Seq<char> {
    match p.1 {
        Json::Str(s) => s@,
        _ => Seq::empty(),
    }
}

/// First group keyed `k`, searching from index `i`; `-1` where none
/// is.
pub open spec fn group_index(acc: Seq<(Seq<char>, Seq<Seq<char>>)>, k: Seq<char>, i: int) -> int
    decreases acc.len() - i,
{
    if i < 0 || i >= acc.len() {
        -1
    } else if acc[i].0 == k {
        i
    } else {
        group_index(acc, k, i + 1)
    }
}

/// Add one player to the group keyed `k`, creating the group at the
/// end where none exists yet.
pub open spec fn group_put(
    acc: Seq<(Seq<char>, Seq<Seq<char>>)>,
    k: Seq<char>,
    player: Seq<char>,
) -> Seq<(Seq<char>, Seq<Seq<char>>)> {
    let idx = group_index(acc, k, 0);
    if idx >= 0 {
        acc.update(idx, (k, acc[idx].1.push(player)))
    } else {
        acc.push((k, seq![player]))
    }
}

/// The player entries folded into world groups, in order of first
/// appearance of each world, each group's players in source order.
pub open spec fn v_group_from(
    entries: Seq<(String, Json)>,
    i: int,
    acc: Seq<(Seq<char>, Seq<Seq<char>>)>,
) -> Seq<(Seq<char>, Seq<Seq<char>>)>
    decreases entries.len() - i,
{
    if i < 0 || i >= entries.len() {
        acc
    } else {
        v_group_from(entries, i + 1, group_put(acc, world_key(entries[i]), entries[i].0@))
    }
}

pub open spec fn v_players_by_world(entries: Seq<(String, Json)>) -> Seq<
    (Seq<char>, Seq<Seq<char>>),
> {
    v_group_from(entries, 0, Seq::empty())
}

fn find_group(acc: &Vec<(String, Vec<String>)>, k: &str) -> (r: Option<usize>)
    ensures
        match r {
            Some(idx) => idx < acc@.len() && group_index(groups_view(acc@), k@, 0) == idx,
            None => group_index(groups_view(acc@), k@, 0) == -1,
        },
{
    let n = acc.len();
    for i in 0..n
        invariant
            n == acc@.len(),
            group_index(groups_view(acc@), k@, 0) == group_index(groups_view(acc@), k@, i as int),
    {
        if str_eq(acc[i].0.as_str(), k) {
            return Some(i);
        }
    }
    None
}

proof fn lemma_group_index(acc: Seq<(Seq<char>, Seq<Seq<char>>)>, k: Seq<char>, i: int)
    requires
        group_index(acc, k, i) >= 0,
    ensures
        i <= group_index(acc, k, i) < acc.len(),
        acc[group_index(acc, k, i)].0 == k,
    decreases acc.len() - i,
{
    if 0 <= i < acc.len() && acc[i].0 != k {
        lemma_group_index(acc, k, i + 1);
    }
}

/// Fold the player entries into world groups.
pub fn group_players(entries: &Vec<(String, Json)>) -> (r: Vec<(String, Vec<String>)>)
    ensures
        groups_view(r@) == v_players_by_world(entries@),
{
    let mut acc: Vec<(String, Vec<String>)> = Vec::new();
    let n = entries.len();
    proof {
        assert(groups_view(acc@) =~= Seq::<(Seq<char>, Seq<Seq<char>>)>::empty());
    }
    for i in 0..n
        invariant
            n == entries@.len(),
            v_players_by_world(entries@) == v_group_from(entries@, i as int, groups_view(acc@)),
    {
        let player = entries[i].0.clone();
        let ghost pview = player@;
        let wk: String = match &entries[i].1 {
            Json::Str(s) => s.clone(),
            _ => String::new(),
        };
        proof {
            assert(wk@ == world_key(entries@[i as int]));
        }
        let ghost pre = acc@;
        match find_group(&acc, wk.as_str()) {
            Some(idx) => {
                proof {
                    lemma_group_index(groups_view(pre), wk@, 0);
                }
                let moved = acc.remove(idx);
                let gkey = moved.0;
                let mut glist = moved.1;
                proof {
                    lemma_strs_view_push(glist@, player);
                }
                glist.push(player);
                let ghost newpair = (gkey, glist);
                acc.insert(idx, (gkey, glist));
                proof {
                    assert(acc@ =~= pre.update(idx as int, newpair));
                    assert(groups_view(acc@) =~~= group_put(groups_view(pre), wk@, pview));
                }
            },
            None => {
                let mut fresh: Vec<String> = Vec::new();
                fresh.push(player);
                let ghost freshv = fresh@;
                acc.push((wk, fresh));
                proof {
                    assert(strs_view(freshv) =~= seq![pview]);
                    assert(groups_view(acc@) =~~= group_put(groups_view(pre), wk@, pview));
                }
            },
        }
    }
    acc
}

/// The online-player document mapped to the player names: the keys of
/// the required `players` object.
pub open spec fn v_online_names(j: Json) -> Result<Seq<Seq<char>>, ApiErrorV> {
    match j {
        Json::Obj(o) => match v_req_obj(o@, "players"@) {
            Err(e) => Err(e),
            Ok(po) => Ok(keys_view(po)),
        },
        _ => Err(ApiErrorV::MissingNested { field: "players"@ }),
    }
}

pub open spec fn v_online_names_response(s: Seq<char>) -> Result<Seq<Seq<char>>, ApiErrorV> {
    match json_of_text(s) {
        None => Err(ApiErrorV::Format),
        Some(j) => v_online_names(j),
    }
}

/// Map the online-player document to the player names.
pub fn online_players_from_json(j: &Json) -> (r: Result<Vec<String>, ApiError>)
    ensures
        match r {
            Ok(ps) => v_online_names(*j) == Ok::<_, ApiErrorV>(strs_view(ps@)),
            Err(e) => v_online_names(*j) == Err::<Seq<Seq<char>>, _>(e@),
        },
{
    let o = match j {
        Json::Obj(o) => o,
        _ => {
            return Err(
                ApiError::MissingNested { field: String::from_str("players") },
            );
        },
    };
    let po = match req_obj(o, "players") {
        Ok(v) => v,
        Err(e) => {
            return Err(e);
        },
    };
    let mut acc: Vec<String> = Vec::new();
    let n = po.len();
    for i in 0..n
        invariant
            n == po@.len(),
            acc@.len() == i,
            forall|k: int| 0 <= k < i ==> (#[trigger] acc@[k])@ == po@[k].0@,
    {
        acc.push(po[i].0.clone());
    }
    proof {
        assert(strs_view(acc@) =~= keys_view(po@));
    }
    Ok(acc)
}

/// Map a whole online-player response body to the player names.
pub fn online_players_from_response(text: &str) -> (r: Result<Vec<String>, ApiError>)
    ensures
        match r {
            Ok(ps) => v_online_names_response(text@) == Ok::<_, ApiErrorV>(strs_view(ps@)),
            Err(e) => v_online_names_response(text@) == Err::<Seq<Seq<char>>, _>(e@),
        },
{
    match parse_text(text) {
        Ok(j) => online_players_from_json(&j),
        Err(e) => Err(e),
    }
}

/// The online-count document: an object whose `total` field is the
/// count.
pub open spec fn v_player_total(j: Json) -> Result<i32, ApiErrorV> {
    match j {
        Json::Obj(o) => v_req_i32(o@, "total"@),
        _ => Err(ApiErrorV::Schema { field: "total"@, expected: JsonKind::Int }),
    }
}

pub open spec fn v_player_total_response(s: Seq<char>) -> Result<i32, ApiErrorV> {
    match json_of_text(s) {
        None => Err(ApiErrorV::Format),
        Some(j) => v_player_total(j),
    }
}

pub fn player_count_from_json(j: &Json) -> (r: Result<i32, ApiError>)
    ensures
        res_view(r) == v_player_total(*j),
{
    match j {
        Json::Obj(o) => req_i32(o, "total"),
        _ => Err(ApiError::Schema { field: String::from_str("total"), expected: JsonKind::Int }),
    }
}

/// Map a whole online-count response body.
pub fn player_count_from_response(text: &str) -> (r: Result<i32, ApiError>)
    ensures
        res_view(r) == v_player_total_response(text@),
{
    match parse_text(text) {
        Ok(j) => player_count_from_json(&j),
        Err(e) => Err(e),
    }
}

/// The online-player document mapped to the total and the world
/// grouping.
pub open spec fn v_online_data(j: Json) -> Result<OnlinePlayerDataV, ApiErrorV> {
    match j {
        Json::Obj(o) => match v_req_i32(o@, "total"@) {
            Err(e) => Err(e),
            Ok(total_online) => match v_req_obj(o@, "players"@) {
                Err(e) => Err(e),
                Ok(po) => Ok(
                    OnlinePlayerDataV { total_online, players_by_world: v_players_by_world(po) },
                ),
            },
        },
        _ => Err(ApiErrorV::Schema { field: "total"@, expected: JsonKind::Int }),
    }
}

pub open spec fn v_online_data_response(s: Seq<char>) -> Result<OnlinePlayerDataV, ApiErrorV> {
    match json_of_text(s) {
        None => Err(ApiErrorV::Format),
        Some(j) => v_online_data(j),
    }
}

/// Map the online-player document to an [`OnlinePlayerData`].
pub fn online_data_from_json(j: &Json) -> (r: Result<OnlinePlayerData, ApiError>)
    ensures
        res_view(r) == v_online_data(*j),
{
    let o = match j {
        Json::Obj(o) => o,
        _ => {
            return Err(
                ApiError::Schema { field: String::from_str("total"), expected: JsonKind::Int },
            );
        },
    };
    let total_online = match req_i32(o, "total") {
        Ok(v) => v,
        Err(e) => {
            return Err(e);
        },
    };
    let po = match req_obj(o, "players") {
        Ok(v) => v,
        Err(e) => {
            return Err(e);
        },
    };
    let players_by_world = group_players(po);
    Ok(OnlinePlayerData { total_online, players_by_world })
}

/// Map a whole online-player response body to an [`OnlinePlayerData`].
pub fn online_data_from_response(text: &str) -> (r: Result<OnlinePlayerData, ApiError>)
    ensures
        res_view(r) == v_online_data_response(text@),
{
    match parse_text(text) {
        Ok(j) => online_data_from_json(&j),
        Err(e) => Err(e),
    }
}

} // verus!
