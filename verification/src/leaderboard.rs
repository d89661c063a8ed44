//! The leaderboard endpoints.
//!
//! Only the list of leaderboard types has a concrete wire contract; the
//! per-type entry schema varies per leaderboard and has no canonical
//! mapping, so [`Leaderboard`] stays a plain record shape without a
//! mapper.

use vstd::prelude::*;

use crate::error::{ApiError, ApiErrorV};
use crate::fields::{root_arr, str_list, strs_view, v_root_arr, v_str_list};
use crate::json::{json_of_text, parse_text, Json};

verus! {

/// One leaderboard entry.
#[derive(Debug, PartialEq, Eq, Clone)]
pub struct Leaderboard {
    pub position: i32,
    pub name: String,
    pub uuid: String,
    pub score: i32,
    pub previous_ranking: i32,
    pub nickname: String,
    pub character_uuid: String,
    pub character_type: String,
    pub rank: String,
    pub rank_badge: String,
    pub support_rank: String,
}

/// The leaderboard-types document: an array of strings.
pub open spec fn v_leaderboard_types(j: Json) -> Result<Seq<Seq<char>>, ApiErrorV> {
    match v_root_arr(j) {
        Err(e) => Err(e),
        Ok(items) => v_str_list(items, ""@),
    }
}

pub open spec fn v_leaderboard_types_response(s: Seq<char>) -> Result<Seq<Seq<char>>, ApiErrorV> {
    match json_of_text(s) {
        None => Err(ApiErrorV::Format),
        Some(j) => v_leaderboard_types(j),
    }
}

pub fn leaderboard_types_from_json(j: &Json) -> (r: Result<Vec<String>, ApiError>)
    ensures
        match r {
            Ok(ts) => v_leaderboard_types(*j) == Ok::<_, ApiErrorV>(strs_view(ts@)),
            Err(e) => v_leaderboard_types(*j) == Err::<Seq<Seq<char>>, _>(e@),
        },
{
    let items = match root_arr(j) {
        Ok(items) => items,
        Err(e) => {
            return Err(e);
        },
    };
    str_list(items, "")
}

/// Map a whole leaderboard-types response body.
pub fn leaderboard_types_from_response(text: &str) -> (r: Result<Vec<String>, ApiError>)
    ensures
        match r {
            Ok(ts) => v_leaderboard_types_response(text@) == Ok::<_, ApiErrorV>(strs_view(ts@)),
            Err(e) => v_leaderboard_types_response(text@) == Err::<Seq<Seq<char>>, _>(e@),
        },
{
    match parse_text(text) {
        Ok(j) => leaderboard_types_from_json(&j),
        Err(e) => Err(e),
    }
}

} // verus!
