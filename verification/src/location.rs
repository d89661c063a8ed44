//! The shared coordinate shape.
//!
//! A location arrives as an array of two or three integers.  With three
//! components the middle one is the vertical axis; with two there is no
//! vertical component, and the record keeps it absent rather than zero.

use vstd::prelude::*;

use crate::error::{res_view, ApiError, ApiErrorV, JsonKind};
use crate::fields::{cast_i32, get, to_i32};
use crate::json::{lookup, Json};

verus! {

/// A 2D-or-3D coordinate.  `y` is present only when the source data
/// supplied three components.
#[derive(Debug, PartialEq, Eq, Clone, Copy)]
pub struct Location {
    pub x: i32,
    pub y: Option<i32>,
    pub z: i32,
}

impl View for Location {
    type V = Location;

    open spec fn view(&self) -> Location {
        *self
    }
}

/// One coordinate component: must be an integer.
pub open spec fn v_axis(j: Json, name: Seq<char>) -> Result<i32, ApiErrorV> {
    match j {
        Json::Int(v) => Ok(to_i32(v)),
        _ => Err(ApiErrorV::Schema { field: name, expected: JsonKind::Int }),
    }
}

/// A location read from the components of an array of length two or
/// three; any other length is a wrong shape.
pub open spec fn v_location_items(items: Seq<Json>, name: Seq<char>) -> Result<
    Location,
    ApiErrorV,
> {
    if items.len() == 2 {
        match v_axis(items[0], name) {
            Err(e) => Err(e),
            Ok(x) => match v_axis(items[1], name) {
                Err(e) => Err(e),
                Ok(z) => Ok(Location { x, y: None, z }),
            },
        }
    } else if items.len() == 3 {
        match v_axis(items[0], name) {
            Err(e) => Err(e),
            Ok(x) => match v_axis(items[1], name) {
                Err(e) => Err(e),
                Ok(y) => match v_axis(items[2], name) {
                    Err(e) => Err(e),
                    Ok(z) => Ok(Location { x, y: Some(y), z }),
                },
            },
        }
    } else {
        Err(ApiErrorV::Schema { field: name, expected: JsonKind::Arr })
    }
}

/// A location read from a JSON value, which must be such an array.
pub open spec fn v_location(j: Json, name: Seq<char>) -> Result<Location, ApiErrorV> {
    match j {
        Json::Arr(items) => v_location_items(items@, name),
        _ => Err(ApiErrorV::MissingNested { field: name }),
    }
}

fn axis(j: &Json, name: &str) -> (r: Result<i32, ApiError>)
    ensures
        res_view(r) == v_axis(*j, name@),
{
    match j {
        Json::Int(v) => Ok(cast_i32(*v)),
        _ => Err(ApiError::Schema { field: name.to_owned(), expected: JsonKind::Int }),
    }
}

/// Required location-valued field: absent and wrong-shaped are both a
/// missing container.
pub open spec fn v_req_loc(o: Seq<(String, Json)>, name: Seq<char>) -> Result<
    Location,
    ApiErrorV,
> {
    match lookup(o, name) {
        Some(v) => v_location(v, name),
        None => Err(ApiErrorV::MissingNested { field: name }),
    }
}

pub fn req_loc(o: &Vec<(String, Json)>, name: &str) -> (r: Result<Location, ApiError>)
    ensures
        res_view(r) == v_req_loc(o@, name@),
{
    match get(o, name) {
        Some(v) => json_to_location(v, name),
        None => Err(ApiError::MissingNested { field: name.to_owned() }),
    }
}

/// Map a JSON value to a [`Location`].  `name` is the field the value
/// was found under, for error context.
pub fn json_to_location(j: &Json, name: &str) -> (r: Result<Location, ApiError>)
    ensures
        res_view(r) == v_location(*j, name@),
{
    let items = match j {
        Json::Arr(items) => items,
        _ => {
            return Err(ApiError::MissingNested { field: name.to_owned() });
        },
    };
    if items.len() == 2 {
        let x = match axis(&items[0], name) {
            Ok(v) => v,
            Err(e) => {
                return Err(e);
            },
        };
        let z = match axis(&items[1], name) {
            Ok(v) => v,
            Err(e) => {
                return Err(e);
            },
        };
        Ok(Location { x, y: None, z })
    } else if items.len() == 3 {
        let x = match axis(&items[0], name) {
            Ok(v) => v,
            Err(e) => {
                return Err(e);
            },
        };
        let y = match axis(&items[1], name) {
            Ok(v) => v,
            Err(e) => {
                return Err(e);
            },
        };
        let z = match axis(&items[2], name) {
            Ok(v) => v,
            Err(e) => {
                return Err(e);
            },
        };
        Ok(Location { x, y: Some(y), z })
    } else {
        Err(ApiError::Schema { field: name.to_owned(), expected: JsonKind::Arr })
    }
}

} // verus!
