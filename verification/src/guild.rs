//! The guild endpoints: one guild in detail, the guild list, and the
//! territory list.

use vstd::prelude::*;

use crate::error::{res_view, ApiError, ApiErrorV, JsonKind};
use crate::fields::{
    combine, def_bool, def_i32, def_i64, def_str, lemma_combine_concat, lemma_combine_empty,
    lemma_combine_fin, lemma_combine_step, parse_i32, req_arr, req_i32, req_obj,
    keys_view, req_str, root_obj, str_eq, strs_view, v_def_bool, v_def_i32, v_def_i64, v_def_str,
    v_parse_i32, v_req_arr, v_req_i32, v_req_obj, v_req_str, v_root_obj,
};
use crate::json::{json_of_text, parse_text, Json};
use crate::location::{req_loc, v_req_loc, Location};

verus! {

/// One guild in detail.
#[derive(Debug, PartialEq, Eq, Clone)]
pub struct GuildData {
    pub uuid: String,
    pub name: String,
    pub prefix: String,
    pub level: i32,
    pub xp_percent: i32,
    pub territories: i32,
    pub wars: i32,
    pub created: String,
    pub members: Vec<GuildMember>,
    pub online: i32,
    pub banner: GuildBanner,
    pub season_ranks: Vec<SeasonRank>,
}

/// Mathematical image of a [`GuildData`].
pub struct GuildDataV {
    pub uuid: Seq<char>,
    pub name: Seq<char>,
    pub prefix: Seq<char>,
    pub level: i32,
    pub xp_percent: i32,
    pub territories: i32,
    pub wars: i32,
    pub created: Seq<char>,
    pub members: Seq<GuildMemberV>,
    pub online: i32,
    pub banner: GuildBannerV,
    pub season_ranks: Seq<SeasonRank>,
}

impl View for GuildData {
    type V = GuildDataV;

    open spec fn view(&self) -> GuildDataV {
        GuildDataV {
            uuid: self.uuid@,
            name: self.name@,
            prefix: self.prefix@,
            level: self.level,
            xp_percent: self.xp_percent,
            territories: self.territories,
            wars: self.wars,
            created: self.created@,
            members: members_view(self.members@),
            online: self.online,
            banner: self.banner@,
            season_ranks: self.season_ranks@,
        }
    }
}

/// One member of a guild, tagged with the rank group it was found
/// under.
#[derive(Debug, PartialEq, Eq, Clone)]
pub struct GuildMember {
    pub username: String,
    pub uuid: String,
    pub online: bool,
    pub server: String,
    pub rank: String,
    pub contributed: i64,
    pub contribution_rank: i32,
    pub joined: String,
}

/// Mathematical image of a [`GuildMember`].
pub struct GuildMemberV {
    pub username: Seq<char>,
    pub uuid: Seq<char>,
    pub online: bool,
    pub server: Seq<char>,
    pub rank: Seq<char>,
    pub contributed: i64,
    pub contribution_rank: i32,
    pub joined: Seq<char>,
}

impl View for GuildMember {
    type V = GuildMemberV;

    open spec fn view(&self) -> GuildMemberV {
        GuildMemberV {
            username: self.username@,
            uuid: self.uuid@,
            online: self.online,
            server: self.server@,
            rank: self.rank@,
            contributed: self.contributed,
            contribution_rank: self.contribution_rank,
            joined: self.joined@,
        }
    }
}

/// One season's rank of a guild.
#[derive(Debug, PartialEq, Eq, Clone, Copy)]
pub struct SeasonRank {
    pub season: i32,
    pub rating: i32,
    pub final_territories: i32,
}

impl View for SeasonRank {
    type V = SeasonRank;

    open spec fn view(&self) -> SeasonRank {
        *self
    }
}

/// A guild's banner: a base colour and a list of layered patterns.
#[derive(Debug, PartialEq, Eq, Clone)]
pub struct GuildBanner {
    pub base: String,
    pub tier: i32,
    pub structure: String,
    pub layers: Vec<BannerLayer>,
}

/// Mathematical image of a [`GuildBanner`].
pub struct GuildBannerV {
    pub base: Seq<char>,
    pub tier: i32,
    pub structure: Seq<char>,
    pub layers: Seq<BannerLayerV>,
}

impl View for GuildBanner {
    type V = GuildBannerV;

    open spec fn view(&self) -> GuildBannerV {
        GuildBannerV {
            base: self.base@,
            tier: self.tier,
            structure: self.structure@,
            layers: layers_view(self.layers@),
        }
    }
}

/// One layer of a banner.
#[derive(Debug, PartialEq, Eq, Clone)]
pub struct BannerLayer {
    pub colour: String,
    pub pattern: String,
}

/// Mathematical image of a [`BannerLayer`].
pub struct BannerLayerV {
    pub colour: Seq<char>,
    pub pattern: Seq<char>,
}

impl View for BannerLayer {
    type V = BannerLayerV;

    open spec fn view(&self) -> BannerLayerV {
        BannerLayerV { colour: self.colour@, pattern: self.pattern@ }
    }
}

/// One row of the guild list.
#[derive(Debug, PartialEq, Eq, Clone)]
pub struct SimpleGuildData {
    pub uuid: String,
    pub name: String,
    pub prefix: String,
}

/// Mathematical image of a [`SimpleGuildData`].
pub struct SimpleGuildDataV {
    pub uuid: Seq<char>,
    pub name: Seq<char>,
    pub prefix: Seq<char>,
}

impl View for SimpleGuildData {
    type V = SimpleGuildDataV;

    open spec fn view(&self) -> SimpleGuildDataV {
        SimpleGuildDataV { uuid: self.uuid@, name: self.name@, prefix: self.prefix@ }
    }
}

/// One territory and the guild holding it.
#[derive(Debug, PartialEq, Eq, Clone)]
pub struct TerritoryData {
    pub territory_name: String,
    pub owner: SimpleGuildData,
    pub acquired: String,
    pub start_location: Location,
    pub end_location: Location,
}

/// Mathematical image of a [`TerritoryData`].
pub struct TerritoryDataV {
    pub territory_name: Seq<char>,
    pub owner: SimpleGuildDataV,
    pub acquired: Seq<char>,
    pub start_location: Location,
    pub end_location: Location,
}

impl View for TerritoryData {
    type V = TerritoryDataV;

    open spec fn view(&self) -> TerritoryDataV {
        TerritoryDataV {
            territory_name: self.territory_name@,
            owner: self.owner@,
            acquired: self.acquired@,
            start_location: self.start_location,
            end_location: self.end_location,
        }
    }
}

pub open spec fn members_view(s: Seq<GuildMember>) -> Seq<GuildMemberV> {
    s.map_values(|m: GuildMember| m@)
}

pub open spec fn layers_view(s: Seq<BannerLayer>) -> Seq<BannerLayerV> {
    s.map_values(|l: BannerLayer| l@)
}

pub open spec fn simple_guilds_view(s: Seq<SimpleGuildData>) -> Seq<SimpleGuildDataV> {
    s.map_values(|g: SimpleGuildData| g@)
}

pub open spec fn territories_view(s: Seq<TerritoryData>) -> Seq<TerritoryDataV> {
    s.map_values(|t: TerritoryData| t@)
}

/// One member read from a rank group.  `key` is the member's own key:
/// their uuid where the caller asked for uuids, else their username;
/// the other identifier is read, defaulted, from the entry.
pub open spec fn v_member(rank: Seq<char>, key: Seq<char>, details: Json, uuid: bool) -> Result<
    GuildMemberV,
    ApiErrorV,
> {
    match details {
        Json::Obj(o) => Ok(
            GuildMemberV {
                username: if uuid {
                    v_def_str(o@, "username"@)
                } else {
                    key
                },
                uuid: if uuid {
                    key
                } else {
                    v_def_str(o@, "uuid"@)
                },
                online: v_def_bool(o@, "online"@),
                server: v_def_str(o@, "server"@),
                rank: rank,
                contributed: v_def_i64(o@, "contributed"@),
                contribution_rank: v_def_i32(o@, "contributionRank"@, 0),
                joined: v_def_str(o@, "joined"@),
            },
        ),
        _ => Err(ApiErrorV::Schema { field: key, expected: JsonKind::Obj }),
    }
}

pub open spec fn v_member_group_from(
    rank: Seq<char>,
    entries: Seq<(String, Json)>,
    uuid: bool,
    i: int,
) -> Result<Seq<GuildMemberV>, ApiErrorV>
    decreases entries.len() - i,
{
    if i < 0 || i >= entries.len() {
        Ok(Seq::empty())
    } else {
        match v_member(rank, entries[i].0@, entries[i].1, uuid) {
            Err(e) => Err(e),
            Ok(m) => combine(seq![m], v_member_group_from(rank, entries, uuid, i + 1)),
        }
    }
}

/// The flattened member list: rank groups in source order, each group's
/// members in source order, and the `total` entry excluded.
pub open spec fn v_members_from(groups: Seq<(String, Json)>, uuid: bool, i: int) -> Result<
    Seq<GuildMemberV>,
    ApiErrorV,
>
    decreases groups.len() - i,
{
    if i < 0 || i >= groups.len() {
        Ok(Seq::empty())
    } else if groups[i].0@ == "total"@ {
        v_members_from(groups, uuid, i + 1)
    } else {
        match groups[i].1 {
            Json::Obj(g) => match v_member_group_from(groups[i].0@, g@, uuid, 0) {
                Err(e) => Err(e),
                Ok(ms) => combine(ms, v_members_from(groups, uuid, i + 1)),
            },
            _ => Err(ApiErrorV::Schema { field: groups[i].0@, expected: JsonKind::Obj }),
        }
    }
}

pub open spec fn v_members(groups: Seq<(String, Json)>, uuid: bool) -> Result<
    Seq<GuildMemberV>,
    ApiErrorV,
> {
    v_members_from(groups, uuid, 0)
}

fn member_group(rank: &String, entries: &Vec<(String, Json)>, uuid: bool) -> (r: Result<
    Vec<GuildMember>,
    ApiError,
>)
    ensures
        match r {
            Ok(ms) => v_member_group_from(rank@, entries@, uuid, 0) == Ok::<_, ApiErrorV>(
                members_view(ms@),
            ),
            Err(e) => v_member_group_from(rank@, entries@, uuid, 0) == Err::<Seq<GuildMemberV>, _>(
                e@,
            ),
        },
{
    let mut acc: Vec<GuildMember> = Vec::new();
    let n = entries.len();
    proof {
        lemma_combine_empty(v_member_group_from(rank@, entries@, uuid, 0));
        assert(members_view(acc@) =~= Seq::<GuildMemberV>::empty());
    }
    for i in 0..n
        invariant
            n == entries@.len(),
            v_member_group_from(rank@, entries@, uuid, 0) == combine(
                members_view(acc@),
                v_member_group_from(rank@, entries@, uuid, i as int),
            ),
    {
        let key = &entries[i].0;
        let details = match &entries[i].1 {
            Json::Obj(o) => o,
            _ => {
                return Err(ApiError::Schema { field: key.clone(), expected: JsonKind::Obj });
            },
        };
        let username: String;
        let member_uuid: String;
        if uuid {
            member_uuid = key.clone();
            username = def_str(details, "username");
        } else {
            member_uuid = def_str(details, "uuid");
            username = key.clone();
        }
        let m = GuildMember {
            username,
            uuid: member_uuid,
            online: def_bool(details, "online"),
            server: def_str(details, "server"),
            rank: rank.clone(),
            contributed: def_i64(details, "contributed"),
            contribution_rank: def_i32(details, "contributionRank", 0),
            joined: def_str(details, "joined"),
        };
        proof {
            lemma_combine_step(
                members_view(acc@),
                m@,
                v_member_group_from(rank@, entries@, uuid, i + 1),
            );
            assert(members_view(acc@.push(m)) =~= members_view(acc@).push(m@));
        }
        acc.push(m);
    }
    proof {
        lemma_combine_fin(members_view(acc@));
    }
    Ok(acc)
}

/// Map the member container: every rank-keyed group contributes its
/// members; the `total` count entry is excluded from the list.
pub fn members_from_json(groups: &Vec<(String, Json)>, uuid: bool) -> (r: Result<
    Vec<GuildMember>,
    ApiError,
>)
    ensures
        match r {
            Ok(ms) => v_members(groups@, uuid) == Ok::<_, ApiErrorV>(members_view(ms@)),
            Err(e) => v_members(groups@, uuid) == Err::<Seq<GuildMemberV>, _>(e@),
        },
{
    let mut acc: Vec<GuildMember> = Vec::new();
    let n = groups.len();
    proof {
        lemma_combine_empty(v_members_from(groups@, uuid, 0));
        assert(members_view(acc@) =~= Seq::<GuildMemberV>::empty());
    }
    for i in 0..n
        invariant
            n == groups@.len(),
            v_members(groups@, uuid) == combine(
                members_view(acc@),
                v_members_from(groups@, uuid, i as int),
            ),
    {
        let rank = &groups[i].0;
        if !str_eq(rank.as_str(), "total") {
            let g = match &groups[i].1 {
                Json::Obj(g) => g,
                _ => {
                    return Err(ApiError::Schema { field: rank.clone(), expected: JsonKind::Obj });
                },
            };
            let mut ms = match member_group(rank, g, uuid) {
                Ok(ms) => ms,
                Err(e) => {
                    return Err(e);
                },
            };
            proof {
                lemma_combine_concat(
                    members_view(acc@),
                    members_view(ms@),
                    v_members_from(groups@, uuid, i + 1),
                );
                assert(members_view(acc@ + ms@) =~= members_view(acc@) + members_view(ms@));
            }
            acc.append(&mut ms);
        }
    }
    proof {
        lemma_combine_fin(members_view(acc@));
    }
    Ok(acc)
}

/// One banner layer, which must be an object; colour and pattern
/// default to the empty string.
pub open spec fn v_layer_item(j: Json) -> Result<BannerLayerV, ApiErrorV> {
    match j {
        Json::Obj(o) => Ok(
            BannerLayerV { colour: v_def_str(o@, "colour"@), pattern: v_def_str(o@, "pattern"@) },
        ),
        _ => Err(ApiErrorV::Schema { field: "layers"@, expected: JsonKind::Obj }),
    }
}

pub open spec fn v_layers_from(items: Seq<Json>, i: int) -> Result<Seq<BannerLayerV>, ApiErrorV>
    decreases items.len() - i,
{
    if i < 0 || i >= items.len() {
        Ok(Seq::empty())
    } else {
        match v_layer_item(items[i]) {
            Err(e) => Err(e),
            Ok(l) => combine(seq![l], v_layers_from(items, i + 1)),
        }
    }
}

/// The banner container: base, tier and structure are required; the
/// layer list is a required array mapped fail-fast.
pub open spec fn v_banner(o: Seq<(String, Json)>) -> Result<GuildBannerV, ApiErrorV> {
    match v_req_str(o, "base"@) {
        Err(e) => Err(e),
        Ok(base) => match v_req_i32(o, "tier"@) {
            Err(e) => Err(e),
            Ok(tier) => match v_req_str(o, "structure"@) {
                Err(e) => Err(e),
                Ok(structure) => match v_req_arr(o, "layers"@) {
                    Err(e) => Err(e),
                    Ok(items) => match v_layers_from(items, 0) {
                        Err(e) => Err(e),
                        Ok(layers) => Ok(GuildBannerV { base, tier, structure, layers }),
                    },
                },
            },
        },
    }
}

fn banner_from_obj(o: &Vec<(String, Json)>) -> (r: Result<GuildBanner, ApiError>)
    ensures
        res_view(r) == v_banner(o@),
{
    let base = match req_str(o, "base") {
        Ok(v) => v,
        Err(e) => {
            return Err(e);
        },
    };
    let tier = match req_i32(o, "tier") {
        Ok(v) => v,
        Err(e) => {
            return Err(e);
        },
    };
    let structure = match req_str(o, "structure") {
        Ok(v) => v,
        Err(e) => {
            return Err(e);
        },
    };
    let items = match req_arr(o, "layers") {
        Ok(v) => v,
        Err(e) => {
            return Err(e);
        },
    };
    let mut acc: Vec<BannerLayer> = Vec::new();
    let n = items.len();
    proof {
        lemma_combine_empty(v_layers_from(items@, 0));
        assert(layers_view(acc@) =~= Seq::<BannerLayerV>::empty());
    }
    for i in 0..n
        invariant
            n == items@.len(),
            v_banner(o@) == (match v_layers_from(items@, 0) {
                Err(e) => Err(e),
                Ok(layers) => Ok(
                    GuildBannerV { base: base@, tier, structure: structure@, layers },
                ),
            }),
            v_layers_from(items@, 0) == combine(
                layers_view(acc@),
                v_layers_from(items@, i as int),
            ),
    {
        let details = match &items[i] {
            Json::Obj(entries) => entries,
            _ => {
                return Err(
                    ApiError::Schema { field: String::from_str("layers"), expected: JsonKind::Obj },
                );
            },
        };
        let l = BannerLayer {
            colour: def_str(details, "colour"),
            pattern: def_str(details, "pattern"),
        };
        proof {
            lemma_combine_step(layers_view(acc@), l@, v_layers_from(items@, i + 1));
            assert(layers_view(acc@.push(l)) =~= layers_view(acc@).push(l@));
        }
        acc.push(l);
    }
    proof {
        lemma_combine_fin(layers_view(acc@));
    }
    Ok(GuildBanner { base, tier, structure, layers: acc })
}

/// One entry of the season-rank container: the key must denote a season
/// number in range; the value must be an object with required rating
/// and territory counts.
pub open spec fn v_season_entry(p: (String, Json)) -> Result<SeasonRank, ApiErrorV> {
    match v_parse_i32(p.0@) {
        None => Err(ApiErrorV::Schema { field: p.0@, expected: JsonKind::Int }),
        Some(season) => match p.1 {
            Json::Obj(o) => match v_req_i32(o@, "rating"@) {
                Err(e) => Err(e),
                Ok(rating) => match v_req_i32(o@, "finalTerritories"@) {
                    Err(e) => Err(e),
                    Ok(final_territories) => Ok(SeasonRank { season, rating, final_territories }),
                },
            },
            _ => Err(ApiErrorV::Schema { field: p.0@, expected: JsonKind::Obj }),
        },
    }
}

pub open spec fn v_seasons_from(entries: Seq<(String, Json)>, i: int) -> Result<
    Seq<SeasonRank>,
    ApiErrorV,
>
    decreases entries.len() - i,
{
    if i < 0 || i >= entries.len() {
        Ok(Seq::empty())
    } else {
        match v_season_entry(entries[i]) {
            Err(e) => Err(e),
            Ok(s) => combine(seq![s], v_seasons_from(entries, i + 1)),
        }
    }
}

fn season_ranks_from_obj(entries: &Vec<(String, Json)>) -> (r: Result<Vec<SeasonRank>, ApiError>)
    ensures
        match r {
            Ok(ss) => v_seasons_from(entries@, 0) == Ok::<_, ApiErrorV>(ss@),
            Err(e) => v_seasons_from(entries@, 0) == Err::<Seq<SeasonRank>, _>(e@),
        },
{
    let mut acc: Vec<SeasonRank> = Vec::new();
    let n = entries.len();
    proof {
        lemma_combine_empty(v_seasons_from(entries@, 0));
    }
    for i in 0..n
        invariant
            n == entries@.len(),
            v_seasons_from(entries@, 0) == combine(acc@, v_seasons_from(entries@, i as int)),
    {
        let key = &entries[i].0;
        let season = match parse_i32(key.as_str()) {
            Some(v) => v,
            None => {
                return Err(ApiError::Schema { field: key.clone(), expected: JsonKind::Int });
            },
        };
        let o = match &entries[i].1 {
            Json::Obj(o) => o,
            _ => {
                return Err(ApiError::Schema { field: key.clone(), expected: JsonKind::Obj });
            },
        };
        let rating = match req_i32(o, "rating") {
            Ok(v) => v,
            Err(e) => {
                return Err(e);
            },
        };
        let final_territories = match req_i32(o, "finalTerritories") {
            Ok(v) => v,
            Err(e) => {
                return Err(e);
            },
        };
        let s = SeasonRank { season, rating, final_territories };
        proof {
            lemma_combine_step(acc@, s, v_seasons_from(entries@, i + 1));
        }
        acc.push(s);
    }
    proof {
        lemma_combine_fin(acc@);
    }
    Ok(acc)
}

/// One guild document.  Identity and counter fields are required; the
/// member, banner and season-rank containers are required and mapped
/// fail-fast.
pub open spec fn v_guild(j: Json, uuid: bool) -> Result<GuildDataV, ApiErrorV> {
    match v_root_obj(j) {
        Err(e) => Err(e),
        Ok(o) => match v_req_str(o, "uuid"@) {
            Err(e) => Err(e),
            Ok(guild_uuid) => match v_req_str(o, "name"@) {
                Err(e) => Err(e),
                Ok(name) => match v_req_str(o, "prefix"@) {
                    Err(e) => Err(e),
                    Ok(prefix) => match v_req_i32(o, "level"@) {
                        Err(e) => Err(e),
                        Ok(level) => match v_req_i32(o, "xpPercent"@) {
                            Err(e) => Err(e),
                            Ok(xp_percent) => match v_req_i32(o, "territories"@) {
                                Err(e) => Err(e),
                                Ok(territories) => match v_req_i32(o, "wars"@) {
                                    Err(e) => Err(e),
                                    Ok(wars) => match v_req_str(o, "created"@) {
                                        Err(e) => Err(e),
                                        Ok(created) => match v_req_i32(o, "online"@) {
                                            Err(e) => Err(e),
                                            Ok(online) => v_guild_rest(
                                                o,
                                                uuid,
                                                GuildHead {
                                                    uuid: guild_uuid,
                                                    name,
                                                    prefix,
                                                    level,
                                                    xp_percent,
                                                    territories,
                                                    wars,
                                                    created,
                                                    online,
                                                },
                                            ),
                                        },
                                    },
                                },
                            },
                        },
                    },
                },
            },
        },
    }
}

/// The scalar fields of a guild document, gathered before its
/// containers are mapped.
pub struct GuildHead {
    pub uuid: Seq<char>,
    pub name: Seq<char>,
    pub prefix: Seq<char>,
    pub level: i32,
    pub xp_percent: i32,
    pub territories: i32,
    pub wars: i32,
    pub created: Seq<char>,
    pub online: i32,
}

pub open spec fn v_guild_rest(o: Seq<(String, Json)>, uuid: bool, head: GuildHead) -> Result<
    GuildDataV,
    ApiErrorV,
> {
    match v_req_obj(o, "members"@) {
        Err(e) => Err(e),
        Ok(groups) => match v_members(groups, uuid) {
            Err(e) => Err(e),
            Ok(members) => match v_req_obj(o, "banner"@) {
                Err(e) => Err(e),
                Ok(banner_obj) => match v_banner(banner_obj) {
                    Err(e) => Err(e),
                    Ok(banner) => match v_req_obj(o, "seasonRanks"@) {
                        Err(e) => Err(e),
                        Ok(seasons) => match v_seasons_from(seasons, 0) {
                            Err(e) => Err(e),
                            Ok(season_ranks) => Ok(
                                GuildDataV {
                                    uuid: head.uuid,
                                    name: head.name,
                                    prefix: head.prefix,
                                    level: head.level,
                                    xp_percent: head.xp_percent,
                                    territories: head.territories,
                                    wars: head.wars,
                                    created: head.created,
                                    members,
                                    online: head.online,
                                    banner,
                                    season_ranks,
                                },
                            ),
                        },
                    },
                },
            },
        },
    }
}

/// Map one guild document.  `uuid` says whether member keys are uuids
/// or usernames.
pub fn guild_from_json(j: &Json, uuid: bool) -> (r: Result<GuildData, ApiError>)
    ensures
        res_view(r) == v_guild(*j, uuid),
{
    let o = match root_obj(j) {
        Ok(o) => o,
        Err(e) => {
            return Err(e);
        },
    };
    let guild_uuid = match req_str(o, "uuid") {
        Ok(v) => v,
        Err(e) => {
            return Err(e);
        },
    };
    let name = match req_str(o, "name") {
        Ok(v) => v,
        Err(e) => {
            return Err(e);
        },
    };
    let prefix = match req_str(o, "prefix") {
        Ok(v) => v,
        Err(e) => {
            return Err(e);
        },
    };
    let level = match req_i32(o, "level") {
        Ok(v) => v,
        Err(e) => {
            return Err(e);
        },
    };
    let xp_percent = match req_i32(o, "xpPercent") {
        Ok(v) => v,
        Err(e) => {
            return Err(e);
        },
    };
    let territories = match req_i32(o, "territories") {
        Ok(v) => v,
        Err(e) => {
            return Err(e);
        },
    };
    let wars = match req_i32(o, "wars") {
        Ok(v) => v,
        Err(e) => {
            return Err(e);
        },
    };
    let created = match req_str(o, "created") {
        Ok(v) => v,
        Err(e) => {
            return Err(e);
        },
    };
    let online = match req_i32(o, "online") {
        Ok(v) => v,
        Err(e) => {
            return Err(e);
        },
    };
    let groups = match req_obj(o, "members") {
        Ok(v) => v,
        Err(e) => {
            return Err(e);
        },
    };
    let members = match members_from_json(groups, uuid) {
        Ok(v) => v,
        Err(e) => {
            return Err(e);
        },
    };
    let banner_obj = match req_obj(o, "banner") {
        Ok(v) => v,
        Err(e) => {
            return Err(e);
        },
    };
    let banner = match banner_from_obj(banner_obj) {
        Ok(v) => v,
        Err(e) => {
            return Err(e);
        },
    };
    let seasons = match req_obj(o, "seasonRanks") {
        Ok(v) => v,
        Err(e) => {
            return Err(e);
        },
    };
    let season_ranks = match season_ranks_from_obj(seasons) {
        Ok(v) => v,
        Err(e) => {
            return Err(e);
        },
    };
    Ok(
        GuildData {
            uuid: guild_uuid,
            name,
            prefix,
            level,
            xp_percent,
            territories,
            wars,
            created,
            members,
            online,
            banner,
            season_ranks,
        },
    )
}

pub open spec fn v_guild_response(s: Seq<char>, uuid: bool) -> Result<GuildDataV, ApiErrorV> {
    match json_of_text(s) {
        None => Err(ApiErrorV::Format),
        Some(j) => v_guild(j, uuid),
    }
}

/// Map a whole guild response body.
pub fn guild_from_response(text: &str, uuid: bool) -> (r: Result<GuildData, ApiError>)
    ensures
        res_view(r) == v_guild_response(text@, uuid),
{
    match parse_text(text) {
        Ok(j) => guild_from_json(&j, uuid),
        Err(e) => Err(e),
    }
}

/// The guild-list document: its keys are the guild identifiers.
pub open spec fn v_guild_names(j: Json) -> Result<Seq<Seq<char>>, ApiErrorV> {
    match v_root_obj(j) {
        Err(e) => Err(e),
        Ok(entries) => Ok(keys_view(entries)),
    }
}

pub open spec fn v_guild_names_response(s: Seq<char>) -> Result<Seq<Seq<char>>, ApiErrorV> {
    match json_of_text(s) {
        None => Err(ApiErrorV::Format),
        Some(j) => v_guild_names(j),
    }
}

/// Map the guild-list document to the list of its keys.
pub fn guild_names_from_json(j: &Json) -> (r: Result<Vec<String>, ApiError>)
    ensures
        match r {
            Ok(gs) => v_guild_names(*j) == Ok::<_, ApiErrorV>(strs_view(gs@)),
            Err(e) => v_guild_names(*j) == Err::<Seq<Seq<char>>, _>(e@),
        },
{
    let entries = match root_obj(j) {
        Ok(o) => o,
        Err(e) => {
            return Err(e);
        },
    };
    let mut acc: Vec<String> = Vec::new();
    let n = entries.len();
    for i in 0..n
        invariant
            n == entries@.len(),
            acc@.len() == i,
            forall|k: int| 0 <= k < i ==> (#[trigger] acc@[k])@ == entries@[k].0@,
    {
        acc.push(entries[i].0.clone());
    }
    proof {
        assert(strs_view(acc@) =~= keys_view(entries@));
    }
    Ok(acc)
}

/// One entry of the guild-list document: the key is the guild's uuid;
/// the value must be an object, whose name and prefix are defaulted.
pub open spec fn v_simple_guild_entry(p: (String, Json)) -> Result<SimpleGuildDataV, ApiErrorV> {
    match p.1 {
        Json::Obj(o) => Ok(
            SimpleGuildDataV {
                uuid: p.0@,
                name: v_def_str(o@, "name"@),
                prefix: v_def_str(o@, "prefix"@),
            },
        ),
        _ => Err(ApiErrorV::Schema { field: p.0@, expected: JsonKind::Obj }),
    }
}

pub open spec fn v_guilds_data_from(entries: Seq<(String, Json)>, i: int) -> Result<
    Seq<SimpleGuildDataV>,
    ApiErrorV,
>
    decreases entries.len() - i,
{
    if i < 0 || i >= entries.len() {
        Ok(Seq::empty())
    } else {
        match v_simple_guild_entry(entries[i]) {
            Err(e) => Err(e),
            Ok(g) => combine(seq![g], v_guilds_data_from(entries, i + 1)),
        }
    }
}

/// The guild-list document mapped to its rows, fail-fast.
pub open spec fn v_guilds_data(j: Json) -> Result<Seq<SimpleGuildDataV>, ApiErrorV> {
    match v_root_obj(j) {
        Err(e) => Err(e),
        Ok(entries) => v_guilds_data_from(entries, 0),
    }
}

pub open spec fn v_guilds_data_response(s: Seq<char>) -> Result<Seq<SimpleGuildDataV>, ApiErrorV> {
    match json_of_text(s) {
        None => Err(ApiErrorV::Format),
        Some(j) => v_guilds_data(j),
    }
}

/// Map the guild-list document to its rows.
pub fn guilds_data_from_json(j: &Json) -> (r: Result<Vec<SimpleGuildData>, ApiError>)
    ensures
        match r {
            Ok(gs) => v_guilds_data(*j) == Ok::<_, ApiErrorV>(simple_guilds_view(gs@)),
            Err(e) => v_guilds_data(*j) == Err::<Seq<SimpleGuildDataV>, _>(e@),
        },
{
    let entries = match root_obj(j) {
        Ok(o) => o,
        Err(e) => {
            return Err(e);
        },
    };
    let mut acc: Vec<SimpleGuildData> = Vec::new();
    let n = entries.len();
    proof {
        lemma_combine_empty(v_guilds_data_from(entries@, 0));
        assert(simple_guilds_view(acc@) =~= Seq::<SimpleGuildDataV>::empty());
    }
    for i in 0..n
        invariant
            n == entries@.len(),
            v_guilds_data(*j) == combine(
                simple_guilds_view(acc@),
                v_guilds_data_from(entries@, i as int),
            ),
    {
        let key = &entries[i].0;
        let details = match &entries[i].1 {
            Json::Obj(o) => o,
            _ => {
                return Err(ApiError::Schema { field: key.clone(), expected: JsonKind::Obj });
            },
        };
        let g = SimpleGuildData {
            uuid: key.clone(),
            name: def_str(details, "name"),
            prefix: def_str(details, "prefix"),
        };
        proof {
            lemma_combine_step(simple_guilds_view(acc@), g@, v_guilds_data_from(entries@, i + 1));
            assert(simple_guilds_view(acc@.push(g)) =~= simple_guilds_view(acc@).push(g@));
        }
        acc.push(g);
    }
    proof {
        lemma_combine_fin(simple_guilds_view(acc@));
    }
    Ok(acc)
}

/// Map a whole guild-list response body to its rows.
pub fn guilds_data_from_response(text: &str) -> (r: Result<Vec<SimpleGuildData>, ApiError>)
    ensures
        match r {
            Ok(gs) => v_guilds_data_response(text@) == Ok::<_, ApiErrorV>(simple_guilds_view(gs@)),
            Err(e) => v_guilds_data_response(text@) == Err::<Seq<SimpleGuildDataV>, _>(e@),
        },
{
    match parse_text(text) {
        Ok(j) => guilds_data_from_json(&j),
        Err(e) => Err(e),
    }
}

/// One entry of the territory document: the key is the territory's
/// name; the value must be an object holding the owning guild, the
/// acquisition date and the bounding locations.
pub open spec fn v_territory_entry(p: (String, Json)) -> Result<TerritoryDataV, ApiErrorV> {
    match p.1 {
        Json::Obj(o) => match v_req_obj(o@, "guild"@) {
            Err(e) => Err(e),
            Ok(owner_o) => match v_req_obj(o@, "location"@) {
                Err(e) => Err(e),
                Ok(loc_o) => match v_req_loc(loc_o, "start"@) {
                    Err(e) => Err(e),
                    Ok(start_location) => match v_req_loc(loc_o, "end"@) {
                        Err(e) => Err(e),
                        Ok(end_location) => Ok(
                            TerritoryDataV {
                                territory_name: p.0@,
                                owner: SimpleGuildDataV {
                                    uuid: v_def_str(owner_o, "uuid"@),
                                    name: v_def_str(owner_o, "name"@),
                                    prefix: v_def_str(owner_o, "prefix"@),
                                },
                                acquired: v_def_str(o@, "acquired"@),
                                start_location,
                                end_location,
                            },
                        ),
                    },
                },
            },
        },
        _ => Err(ApiErrorV::Schema { field: p.0@, expected: JsonKind::Obj }),
    }
}

pub open spec fn v_territories_from(entries: Seq<(String, Json)>, i: int) -> Result<
    Seq<TerritoryDataV>,
    ApiErrorV,
>
    decreases entries.len() - i,
{
    if i < 0 || i >= entries.len() {
        Ok(Seq::empty())
    } else {
        match v_territory_entry(entries[i]) {
            Err(e) => Err(e),
            Ok(t) => combine(seq![t], v_territories_from(entries, i + 1)),
        }
    }
}

/// The territory document mapped to its rows, fail-fast.
pub open spec fn v_territories(j: Json) -> Result<Seq<TerritoryDataV>, ApiErrorV> {
    match v_root_obj(j) {
        Err(e) => Err(e),
        Ok(entries) => v_territories_from(entries, 0),
    }
}

pub open spec fn v_territories_response(s: Seq<char>) -> Result<Seq<TerritoryDataV>, ApiErrorV> {
    match json_of_text(s) {
        None => Err(ApiErrorV::Format),
        Some(j) => v_territories(j),
    }
}

/// Map the territory document to its rows.
pub fn territories_from_json(j: &Json) -> (r: Result<Vec<TerritoryData>, ApiError>)
    ensures
        match r {
            Ok(ts) => v_territories(*j) == Ok::<_, ApiErrorV>(territories_view(ts@)),
            Err(e) => v_territories(*j) == Err::<Seq<TerritoryDataV>, _>(e@),
        },
{
    let entries = match root_obj(j) {
        Ok(o) => o,
        Err(e) => {
            return Err(e);
        },
    };
    let mut acc: Vec<TerritoryData> = Vec::new();
    let n = entries.len();
    proof {
        lemma_combine_empty(v_territories_from(entries@, 0));
        assert(territories_view(acc@) =~= Seq::<TerritoryDataV>::empty());
    }
    for i in 0..n
        invariant
            n == entries@.len(),
            v_territories(*j) == combine(
                territories_view(acc@),
                v_territories_from(entries@, i as int),
            ),
    {
        let key = &entries[i].0;
        let details = match &entries[i].1 {
            Json::Obj(o) => o,
            _ => {
                return Err(ApiError::Schema { field: key.clone(), expected: JsonKind::Obj });
            },
        };
        let owner_o = match req_obj(details, "guild") {
            Ok(v) => v,
            Err(e) => {
                return Err(e);
            },
        };
        let loc_o = match req_obj(details, "location") {
            Ok(v) => v,
            Err(e) => {
                return Err(e);
            },
        };
        let start_location = match req_loc(loc_o, "start") {
            Ok(v) => v,
            Err(e) => {
                return Err(e);
            },
        };
        let end_location = match req_loc(loc_o, "end") {
            Ok(v) => v,
            Err(e) => {
                return Err(e);
            },
        };
        let t = TerritoryData {
            territory_name: key.clone(),
            owner: SimpleGuildData {
                uuid: def_str(owner_o, "uuid"),
                name: def_str(owner_o, "name"),
                prefix: def_str(owner_o, "prefix"),
            },
            acquired: def_str(details, "acquired"),
            start_location,
            end_location,
        };
        proof {
            lemma_combine_step(territories_view(acc@), t@, v_territories_from(entries@, i + 1));
            assert(territories_view(acc@.push(t)) =~= territories_view(acc@).push(t@));
        }
        acc.push(t);
    }
    proof {
        lemma_combine_fin(territories_view(acc@));
    }
    Ok(acc)
}

/// Map a whole territory response body.
pub fn territories_from_response(text: &str) -> (r: Result<Vec<TerritoryData>, ApiError>)
    ensures
        match r {
            Ok(ts) => v_territories_response(text@) == Ok::<_, ApiErrorV>(territories_view(ts@)),
            Err(e) => v_territories_response(text@) == Err::<Seq<TerritoryDataV>, _>(e@),
        },
{
    match parse_text(text) {
        Ok(j) => territories_from_json(&j),
        Err(e) => Err(e),
    }
}

/// Map a whole guild-list response body to the guild names.
pub fn guild_names_from_response(text: &str) -> (r: Result<Vec<String>, ApiError>)
    ensures
        match r {
            Ok(gs) => v_guild_names_response(text@) == Ok::<_, ApiErrorV>(strs_view(gs@)),
            Err(e) => v_guild_names_response(text@) == Err::<Seq<Seq<char>>, _>(e@),
        },
{
    match parse_text(text) {
        Ok(j) => guild_names_from_json(&j),
        Err(e) => Err(e),
    }
}

} // verus!
