use vstd::prelude::*;

verus! {

/// What can go wrong when building a datum or reading a location.
#[derive(Clone, Debug, PartialEq, Eq)]
pub enum UpstreamError {
    /// The name is not one of the metadata fields.
    UnknownField(String),
    /// The value does not have the shape that its field asks for.
    ValueShapeMismatch(String),
    /// The text is not the name of a certainty level.
    InvalidCertaintyLevel(String),
    /// The text is not a URL where one is required.
    InvalidUrl(String),
}

} // verus!
