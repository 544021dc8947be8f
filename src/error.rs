use vstd::prelude::*;

verus! {

/// A credential string that does not have the shape `<secret>:<environment>.<rest>`.
#[derive(Debug, Clone, Copy, PartialEq, Eq)]
pub struct TokenParseError;

impl TokenParseError {
    /// Human-readable description of the error.
    pub fn message(&self) -> (r: String)
        ensures
            r@ == "could not parse authorization token"@,
    {
        String::from_str("could not parse authorization token")
    }
}

/// An entity tag that is not of the form `W/"<value>"`.
#[derive(Debug, Clone, Copy, PartialEq, Eq)]
pub struct EntityTagParseError;

impl EntityTagParseError {
    /// Human-readable description of the error.
    pub fn message(&self) -> (r: String)
        ensures
            r@ == "could not parse etag"@,
    {
        String::from_str("could not parse etag")
    }
}

/// A failed call to the feature server.
#[derive(Debug)]
pub enum RemoteError {
    /// The request could not be sent or its answer could not be read.
    Transport(String),
    /// The server answered with a status that is neither success nor
    /// "not modified".
    Status(u16),
    /// The server answered "not modified" to a request that carried no tag.
    NotModifiedWithoutTag,
}

} // verus!
