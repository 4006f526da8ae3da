//! The error classes a search can end in.
//!
//! Every class is fatal to the invocation that hit it; the one non-fatal
//! situation, a scene-id probe whose response is not a single feature, is not
//! an error at all and is skipped by the aggregation logic instead.

use vstd::prelude::*;

verus! {

/// A fatal failure of a catalog search.
///
/// - `GeometryError`: an input geometry is degenerate or not a polygon.
/// - `TransportError`: the network transport failed before a response arrived.
/// - `ServerError`: the remote answered with a 5xx status (carried here).
/// - `ClientError`: the remote answered with a 4xx status (carried here).
/// - `InvalidResponseFormatError`: a response body was not parseable as the
///   expected interchange shape.
/// - `CatalogUnavailableError`: the catalog metadata fetch failed, which makes
///   scene-id resolution impossible.
/// - `MalformedCollectionNameError`: a collection name does not follow the
///   `<satellite>_<sensor>_<level>_<kind>` convention.
#[derive(Clone, Copy, Debug, PartialEq, Eq, Structural)]
pub enum SearchError {
    GeometryError,
    TransportError,
    ServerError(u16),
    ClientError(u16),
    InvalidResponseFormatError,
    CatalogUnavailableError,
    MalformedCollectionNameError,
}

impl SearchError {
    /// A human-readable description of the error class, without the status
    /// code; the driver that prints it may append whatever detail it holds.
    pub fn message(&self) -> (r: &'static str)
        ensures
            r@ == self.spec_message(),
    {
        match self {
            SearchError::GeometryError => "only polygon geometries are accepted",
            SearchError::TransportError => "network error while reaching the catalog",
            SearchError::ServerError(_) => "server error, try again later",
            SearchError::ClientError(_) => "client error, the request was rejected",
            SearchError::InvalidResponseFormatError => "response body has an unexpected format",
            SearchError::CatalogUnavailableError => "catalog metadata is unavailable",
            SearchError::MalformedCollectionNameError => "collection name is malformed",
        }
    }

    /// What `message` returns for each class.
    pub open spec fn spec_message(self) -> Seq<char> {
        match self {
            SearchError::GeometryError => "only polygon geometries are accepted"@,
            SearchError::TransportError => "network error while reaching the catalog"@,
            SearchError::ServerError(_) => "server error, try again later"@,
            SearchError::ClientError(_) => "client error, the request was rejected"@,
            SearchError::InvalidResponseFormatError => "response body has an unexpected format"@,
            SearchError::CatalogUnavailableError => "catalog metadata is unavailable"@,
            SearchError::MalformedCollectionNameError => "collection name is malformed"@,
        }
    }
}

} // verus!
