//! The error taxonomy shared by every resource mapper.
//!
//! Every operation either yields a fully populated record or one of
//! these errors; a partially populated record is never returned.

use vstd::prelude::*;

verus! {

/// The runtime shape a field was expected to have.
#[derive(Clone, Copy, Debug, PartialEq, Eq, Structural)]
pub enum JsonKind {
    Null,
    Bool,
    Int,
    Num,
    Str,
    Arr,
    Obj,
}

/// Why an operation failed.
#[derive(Debug, PartialEq, Eq, Clone)]
pub enum ApiError {
    /// The network call could not complete.  Raised only by the
    /// embedding application; the mapping layer never produces it.
    Transport(String),
    /// The response body is not a parseable JSON document.
    Format,
    /// A required field is missing or of the wrong runtime shape.
    Schema { field: String, expected: JsonKind },
    /// A required nested container (object or array) is absent or not a
    /// container.  An empty field name denotes the document root.
    MissingNested { field: String },
}

/// Mathematical image of an [`ApiError`].
pub enum ApiErrorV {
    Transport(Seq<char>),
    Format,
    Schema { field: Seq<char>, expected: JsonKind },
    MissingNested { field: Seq<char> },
}

impl View for ApiError {
    type V = ApiErrorV;

    open spec fn view(&self) -> ApiErrorV {
        match *self {
            ApiError::Transport(ref m) => ApiErrorV::Transport(m@),
            ApiError::Format => ApiErrorV::Format,
            ApiError::Schema { ref field, expected } => ApiErrorV::Schema {
                field: field@,
                expected,
            },
            ApiError::MissingNested { ref field } => ApiErrorV::MissingNested { field: field@ },
        }
    }
}

/// Mathematical image of a mapper result: the record's view on success,
/// the error's view on failure.
pub open spec fn res_view<T: View>(r: Result<T, ApiError>) -> Result<T::V, ApiErrorV> {
    match r {
        Ok(t) => Ok(t@),
        Err(e) => Err(e@),
    }
}

impl ApiError {
    /// A short diagnostic line naming the failure and the field involved.
    pub fn describe(&self) -> String {
        match self {
            ApiError::Transport(m) => m.clone(),
            ApiError::Format => String::from_str("response body is not valid JSON"),
            ApiError::Schema { field, expected: _ } => String::from_str(
                "field has the wrong shape: ",
            ).concat(field.as_str()),
            ApiError::MissingNested { field } => String::from_str(
                "required container is absent: ",
            ).concat(field.as_str()),
        }
    }
}

} // verus!
