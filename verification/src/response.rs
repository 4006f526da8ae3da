//! HTTP outcomes as plain values, their classification into the fatal error
//! classes, and the trusted parsers that turn response bodies into features.
//!
//! The transport itself lives outside the library: the driver performs each
//! exchange and hands back a `FetchOutcome`. Everything decided about an
//! outcome — which status aborts, what a body must parse as — is verified
//! here.

use vstd::prelude::*;
use crate::error::SearchError;

verus! {

/// What one HTTP exchange came to: a response, with its status code and its
/// body text, or no response at all.
#[derive(Clone, Debug)]
pub enum FetchOutcome {
    Response { status: u16, body: String },
    TransportFailure,
}

/// The mathematical content of an outcome.
pub enum FetchOutcomeModel {
    Response { status: u16, body: Seq<char> },
    TransportFailure,
}

impl View for FetchOutcome {
    type V = FetchOutcomeModel;

    open spec fn view(&self) -> FetchOutcomeModel {
        match self {
            FetchOutcome::Response { status, body } => FetchOutcomeModel::Response {
                status: *status,
                body: body@,
            },
            FetchOutcome::TransportFailure => FetchOutcomeModel::TransportFailure,
        }
    }
}

impl DeepView for FetchOutcome {
    type V = FetchOutcomeModel;

    open spec fn deep_view(&self) -> FetchOutcomeModel {
        self.view()
    }
}

/// The error class of a status code: 5xx is the server's failure, 4xx is the
/// request's, anything else carries no error.
pub open spec fn spec_status_error(status: u16) -> Option<SearchError> {
    if 500 <= status < 600 {
        Some(SearchError::ServerError(status))
    } else if 400 <= status < 500 {
        Some(SearchError::ClientError(status))
    } else {
        None
    }
}

/// Classifies a response status: a server error (5xx) asks the user to retry
/// later, a client error (4xx) means the request was malformed or rejected,
/// anything else passes.
pub fn is_request_with_error(status: u16) -> (r: Result<(), SearchError>)
    ensures
        match r {
            Ok(()) => spec_status_error(status) is None,
            Err(e) => spec_status_error(status) == Some(e),
        },
{
    if 500 <= status && status < 600 {
        Err(SearchError::ServerError(status))
    } else if 400 <= status && status < 500 {
        Err(SearchError::ClientError(status))
    } else {
        Ok(())
    }
}

#[verifier::external_type_specification]
#[verifier::external_body]
pub struct ExFeature(geojson::Feature);

/// What parsing a body text as a feature collection yields: a function of
/// the text alone, `None` when the text is not a GeoJSON feature collection.
pub uninterp spec fn spec_parsed_feature_collection(body: Seq<char>) -> Option<
    Seq<geojson::Feature>,
>;

/// Relies on `geojson::GeoJson::from_str` and
/// `geojson::FeatureCollection::try_from`: parsing a text and selecting the
/// feature-collection case depend on the text alone, and yield its features
/// in the body's order.
#[verifier::external_body]
pub(crate) fn parse_feature_collection(body: &str) -> (r: Option<Vec<geojson::Feature>>)
    ensures
        match r {
            Some(v) => spec_parsed_feature_collection(body@) == Some(v@),
            None => spec_parsed_feature_collection(body@) is None,
        },
{
    match <geojson::GeoJson as core::str::FromStr>::from_str(body) {
        Ok(g) => match geojson::FeatureCollection::try_from(g) {
            Ok(fc) => Some(fc.features),
            Err(_) => None,
        },
        Err(_) => None,
    }
}

/// What parsing a body text as one feature yields: a function of the text
/// alone, `None` when the text is not a single GeoJSON feature.
pub uninterp spec fn spec_parsed_feature(body: Seq<char>) -> Option<geojson::Feature>;

/// Relies on `geojson::GeoJson::from_str` and `geojson::Feature::try_from`:
/// parsing a text and selecting the single-feature case depend on the text
/// alone.
#[verifier::external_body]
pub(crate) fn parse_feature(body: &str) -> (r: Option<geojson::Feature>)
    ensures
        match r {
            Some(f) => spec_parsed_feature(body@) == Some(f),
            None => spec_parsed_feature(body@) is None,
        },
{
    match <geojson::GeoJson as core::str::FromStr>::from_str(body) {
        Ok(g) => match geojson::Feature::try_from(g) {
            Ok(f) => Some(f),
            Err(_) => None,
        },
        Err(_) => None,
    }
}

} // verus!
