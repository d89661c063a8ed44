//! The map endpoints: location markers and the quest count.

use vstd::prelude::*;

use crate::error::{res_view, ApiError, ApiErrorV, JsonKind};
use crate::fields::{
    combine, coord, def_str, lemma_combine_empty, lemma_combine_fin, lemma_combine_step, req_i32,
    root_arr, v_coord, v_def_str, v_req_i32, v_root_arr,
};
use crate::json::{json_of_text, parse_text, Json};
use crate::location::Location;

verus! {

/// One marker on the world map.  Its coordinates arrive as strings and
/// always carry a vertical component.
#[derive(Debug, PartialEq, Eq, Clone)]
pub struct Marker {
    pub name: String,
    pub icon: String,
    pub location: Location,
}

/// Mathematical image of a [`Marker`].
pub struct MarkerV {
    pub name: Seq<char>,
    pub icon: Seq<char>,
    pub location: Location,
}

impl View for Marker {
    type V = MarkerV;

    open spec fn view(&self) -> MarkerV {
        MarkerV { name: self.name@, icon: self.icon@, location: self.location }
    }
}

/// One marker read from an object's entries: name and icon default to
/// the empty string; each coordinate follows the numeric-as-string
/// policy.
pub open spec fn v_marker(o: Seq<(String, Json)>) -> Result<MarkerV, ApiErrorV> {
    let name = v_def_str(o, "name"@);
    let icon = v_def_str(o, "icon"@);
    match v_coord(o, "x"@) {
        Err(e) => Err(e),
        Ok(x) => match v_coord(o, "y"@) {
            Err(e) => Err(e),
            Ok(y) => match v_coord(o, "z"@) {
                Err(e) => Err(e),
                Ok(z) => Ok(MarkerV { name, icon, location: Location { x, y: Some(y), z } }),
            },
        },
    }
}

/// One element of the marker list, which must be an object.
pub open spec fn v_marker_item(j: Json) -> Result<MarkerV, ApiErrorV> {
    match j {
        Json::Obj(entries) => v_marker(entries@),
        _ => Err(ApiErrorV::Schema { field: Seq::empty(), expected: JsonKind::Obj }),
    }
}

pub open spec fn v_markers_from(items: Seq<Json>, i: int) -> Result<Seq<MarkerV>, ApiErrorV>
    decreases items.len() - i,
{
    if i < 0 || i >= items.len() {
        Ok(Seq::empty())
    } else {
        match v_marker_item(items[i]) {
            Err(e) => Err(e),
            Ok(m) => combine(seq![m], v_markers_from(items, i + 1)),
        }
    }
}

/// The whole marker document: an array of marker objects, mapped
/// fail-fast.
pub open spec fn v_markers(j: Json) -> Result<Seq<MarkerV>, ApiErrorV> {
    match v_root_arr(j) {
        Err(e) => Err(e),
        Ok(items) => v_markers_from(items, 0),
    }
}

/// The marker document read from a response body.
pub open spec fn v_markers_response(s: Seq<char>) -> Result<Seq<MarkerV>, ApiErrorV> {
    match json_of_text(s) {
        None => Err(ApiErrorV::Format),
        Some(j) => v_markers(j),
    }
}

pub open spec fn markers_view(s: Seq<Marker>) -> Seq<MarkerV> {
    s.map_values(|m: Marker| m@)
}

pub fn marker_from_json(j: &Json) -> (r: Result<Marker, ApiError>)
    ensures
        res_view(r) == v_marker_item(*j),
{
    let o = match j {
        Json::Obj(entries) => entries,
        _ => {
            return Err(ApiError::Schema { field: String::new(), expected: JsonKind::Obj });
        },
    };
    let name = def_str(o, "name");
    let icon = def_str(o, "icon");
    let x = match coord(o, "x") {
        Ok(v) => v,
        Err(e) => {
            return Err(e);
        },
    };
    let y = match coord(o, "y") {
        Ok(v) => v,
        Err(e) => {
            return Err(e);
        },
    };
    let z = match coord(o, "z") {
        Ok(v) => v,
        Err(e) => {
            return Err(e);
        },
    };
    Ok(Marker { name, icon, location: Location { x, y: Some(y), z } })
}

/// Map the marker document: every element of the top-level array must
/// be a well-shaped marker object.
pub fn markers_from_json(j: &Json) -> (r: Result<Vec<Marker>, ApiError>)
    ensures
        match r {
            Ok(ms) => v_markers(*j) == Ok::<_, ApiErrorV>(markers_view(ms@)),
            Err(e) => v_markers(*j) == Err::<Seq<MarkerV>, _>(e@),
        },
{
    let items = match root_arr(j) {
        Ok(items) => items,
        Err(e) => {
            return Err(e);
        },
    };
    let mut acc: Vec<Marker> = Vec::new();
    let n = items.len();
    proof {
        lemma_combine_empty(v_markers_from(items@, 0));
        assert(markers_view(acc@) =~= Seq::<MarkerV>::empty());
    }
    for i in 0..n
        invariant
            n == items@.len(),
            v_markers(*j) == combine(markers_view(acc@), v_markers_from(items@, i as int)),
    {
        match marker_from_json(&items[i]) {
            Ok(m) => {
                proof {
                    lemma_combine_step(markers_view(acc@), m@, v_markers_from(items@, i + 1));
                    assert(markers_view(acc@.push(m)) =~= markers_view(acc@).push(m@));
                }
                acc.push(m);
            },
            Err(e) => {
                return Err(e);
            },
        }
    }
    proof {
        lemma_combine_fin(markers_view(acc@));
    }
    Ok(acc)
}

/// Map a whole marker response body.
pub fn markers_from_response(text: &str) -> (r: Result<Vec<Marker>, ApiError>)
    ensures
        match r {
            Ok(ms) => v_markers_response(text@) == Ok::<_, ApiErrorV>(markers_view(ms@)),
            Err(e) => v_markers_response(text@) == Err::<Seq<MarkerV>, _>(e@),
        },
{
    match parse_text(text) {
        Ok(j) => markers_from_json(&j),
        Err(e) => Err(e),
    }
}

/// The quest-count document: an object whose `quests` field is the
/// count.
pub open spec fn v_quest_count(j: Json) -> Result<i32, ApiErrorV> {
    match j {
        Json::Obj(entries) => v_req_i32(entries@, "quests"@),
        _ => Err(ApiErrorV::Schema { field: "quests"@, expected: JsonKind::Int }),
    }
}

pub open spec fn v_quest_count_response(s: Seq<char>) -> Result<i32, ApiErrorV> {
    match json_of_text(s) {
        None => Err(ApiErrorV::Format),
        Some(j) => v_quest_count(j),
    }
}

pub fn quest_count_from_json(j: &Json) -> (r: Result<i32, ApiError>)
    ensures
        res_view(r) == v_quest_count(*j),
{
    match j {
        Json::Obj(entries) => req_i32(entries, "quests"),
        _ => Err(
            ApiError::Schema { field: String::from_str("quests"), expected: JsonKind::Int },
        ),
    }
}

/// Map a whole quest-count response body.
pub fn quest_count_from_response(text: &str) -> (r: Result<i32, ApiError>)
    ensures
        res_view(r) == v_quest_count_response(text@),
{
    match parse_text(text) {
        Ok(j) => quest_count_from_json(&j),
        Err(e) => Err(e),
    }
}

} // verus!
