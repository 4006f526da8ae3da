//! Collection-catalog resolution: which catalog collections a raw scene id
//! could belong to.
//!
//! The catalog's naming convention is `<satellite>_<sensor>_<level>_<kind>`.
//! A scene id matches a catalog entry when the id's satellite token contains
//! the entry's satellite token and the id's sensor token contains the
//! entry's sensor token — substring containment, deliberately permissive so
//! that `CBERS4A` still matches an entry named under `CBERS4`. As soon as
//! some entry matches, the two candidate collections to probe are derived
//! from the id's own tokens by forcing the level segment: `L2` and `L4` are
//! the only levels a scene is published under, and the kind segment is
//! always `DN`. Which entry matched does not enter the derived names, so
//! stopping at the first match and scanning the whole catalog agree;
//! malformed catalog entries (not four segments) cannot match and are passed
//! over.

use vstd::prelude::*;
use vstd::string::StringExecFns;
use crate::error::SearchError;
use crate::response::FetchOutcome;
use crate::response::FetchOutcomeModel;
use crate::response::spec_status_error;
use crate::response::is_request_with_error;
use crate::strutil::spec_contains;
use crate::strutil::spec_split_us;
use crate::strutil::split_underscore;
use crate::strutil::str_contains;

verus! {

/// The four segments of a collection name, split on `_`.
#[derive(Clone, Debug)]
pub struct CollectionKey {
    pub satellite: String,
    pub sensor: String,
    pub level: String,
    pub kind: String,
}

/// Splits a collection name into its four segments, or reports it malformed
/// when it does not have exactly four.
pub fn parse_collection_key(name: &str) -> (r: Result<CollectionKey, SearchError>)
    ensures
        match r {
            Ok(k) => {
                &&& spec_split_us(name@).len() == 4
                &&& k.satellite@ == spec_split_us(name@)[0]
                &&& k.sensor@ == spec_split_us(name@)[1]
                &&& k.level@ == spec_split_us(name@)[2]
                &&& k.kind@ == spec_split_us(name@)[3]
            },
            Err(e) => {
                &&& e == SearchError::MalformedCollectionNameError
                &&& spec_split_us(name@).len() != 4
            },
        },
{
    let mut parts = split_underscore(name);
    if parts.len() != 4 {
        return Err(SearchError::MalformedCollectionNameError);
    }
    let kind = parts.pop().unwrap();
    let level = parts.pop().unwrap();
    let sensor = parts.pop().unwrap();
    let satellite = parts.pop().unwrap();
    proof {
        assert(satellite@ == spec_split_us(name@)[0]);
        assert(sensor@ == spec_split_us(name@)[1]);
        assert(level@ == spec_split_us(name@)[2]);
        assert(kind@ == spec_split_us(name@)[3]);
    }
    Ok(CollectionKey { satellite, sensor, level, kind })
}

/// The first two `_`-separated tokens of a scene id: its satellite and
/// sensor. A scene id with fewer than two tokens can match nothing.
pub fn scene_id_tokens(scene_id: &str) -> (r: Option<(String, String)>)
    ensures
        match r {
            Some(t) => {
                &&& spec_split_us(scene_id@).len() >= 2
                &&& t.0@ == spec_split_us(scene_id@)[0]
                &&& t.1@ == spec_split_us(scene_id@)[1]
            },
            None => spec_split_us(scene_id@).len() < 2,
        },
{
    let parts = split_underscore(scene_id);
    if parts.len() < 2 {
        return None;
    }
    let sat = parts[0].clone();
    let sensor = parts[1].clone();
    proof {
        assert(sat@ == spec_split_us(scene_id@)[0]);
        assert(sensor@ == spec_split_us(scene_id@)[1]);
    }
    Some((sat, sensor))
}

/// A catalog entry matches a scene id's tokens: the entry has the four-part
/// shape, its satellite token occurs in the id's, its sensor token in the
/// id's.
pub open spec fn spec_entry_matches(entry: Seq<char>, sat: Seq<char>, sensor: Seq<char>) -> bool {
    &&& spec_split_us(entry).len() == 4
    &&& spec_contains(sat, spec_split_us(entry)[0])
    &&& spec_contains(sensor, spec_split_us(entry)[1])
}

/// A scene id resolves against a catalog: it has at least the two leading
/// tokens and some entry matches them.
pub open spec fn spec_scene_matches_catalog(catalog: Seq<Seq<char>>, id: Seq<char>) -> bool {
    &&& spec_split_us(id).len() >= 2
    &&& exists|i: int|
        0 <= i < catalog.len() && spec_entry_matches(
            #[trigger] catalog[i],
            spec_split_us(id)[0],
            spec_split_us(id)[1],
        )
}

/// The candidate collection for a level: the scene's satellite and sensor
/// tokens with the forced level segment and the `DN` kind.
pub open spec fn spec_candidate_l2(sat: Seq<char>, sensor: Seq<char>) -> Seq<char> {
    sat + "_"@ + sensor + "_L2_DN"@
}

/// The level-4 counterpart of `spec_candidate_l2`.
pub open spec fn spec_candidate_l4(sat: Seq<char>, sensor: Seq<char>) -> Seq<char> {
    sat + "_"@ + sensor + "_L4_DN"@
}

/// Derives the two candidate collection names to probe for a scene id, or
/// `None` when no catalog entry matches it (including ids with fewer than
/// two tokens). The candidates force the level segment to `L2` and `L4`
/// while keeping the id's own satellite and sensor tokens.
pub fn resolve_candidates(catalog: &Vec<String>, scene_id: &str) -> (r: Option<(String, String)>)
    ensures
        match r {
            Some(c) => {
                &&& spec_scene_matches_catalog(catalog.deep_view(), scene_id@)
                &&& c.0@ == spec_candidate_l2(
                    spec_split_us(scene_id@)[0],
                    spec_split_us(scene_id@)[1],
                )
                &&& c.1@ == spec_candidate_l4(
                    spec_split_us(scene_id@)[0],
                    spec_split_us(scene_id@)[1],
                )
            },
            None => !spec_scene_matches_catalog(catalog.deep_view(), scene_id@),
        },
{
    let toks = scene_id_tokens(scene_id);
    let (sat, sensor) = match toks {
        Some(t) => t,
        None => {
            return None;
        },
    };
    let mut i: usize = 0;
    while i < catalog.len()
        invariant
            i <= catalog@.len(),
            spec_split_us(scene_id@).len() >= 2,
            sat@ == spec_split_us(scene_id@)[0],
            sensor@ == spec_split_us(scene_id@)[1],
            forall|j: int|
                0 <= j < i ==> !spec_entry_matches(
                    #[trigger] catalog.deep_view()[j],
                    sat@,
                    sensor@,
                ),
        decreases catalog@.len() - i,
    {
        let entry_matches: bool = match parse_collection_key(catalog[i].as_str()) {
            Ok(key) => {
                str_contains(sat.as_str(), key.satellite.as_str()) && str_contains(
                    sensor.as_str(),
                    key.sensor.as_str(),
                )
            },
            Err(_) => false,
        };
        proof {
            assert(catalog.deep_view()[i as int] == catalog@[i as int]@);
        }
        if entry_matches {
            let mut l2 = sat.clone();
            l2.append("_");
            l2.append(sensor.as_str());
            l2.append("_L2_DN");
            let mut l4 = sat.clone();
            l4.append("_");
            l4.append(sensor.as_str());
            l4.append("_L4_DN");
            proof {
                assert(spec_entry_matches(catalog.deep_view()[i as int], sat@, sensor@));
                assert(l2@ =~= spec_candidate_l2(sat@, sensor@));
                assert(l4@ =~= spec_candidate_l4(sat@, sensor@));
            }
            return Some((l2, l4));
        }
        i += 1;
    }
    proof {
        assert forall|j: int| 0 <= j < catalog.deep_view().len() implies !spec_entry_matches(
            #[trigger] catalog.deep_view()[j],
            sat@,
            sensor@,
        ) by {
            assert(j < i);
        }
    }
    None
}

/// What the catalog metadata endpoint's body yields: the `title` of every
/// entry under the first provider's `collections`, in catalog order, or
/// `None` when the body does not have that shape. A function of the body
/// text alone.
pub uninterp spec fn spec_parsed_catalog_titles(body: Seq<char>) -> Option<Seq<Seq<char>>>;

/// Relies on `serde_json::from_str` and the `serde_json::Value` accessors
/// `get`, `as_array` and `as_str`: parsing a text and selecting
/// `providers[0].collections[*].title` depend on the text alone.
#[verifier::external_body]
pub(crate) fn parse_catalog_titles(body: &str) -> (r: Option<Vec<String>>)
    ensures
        match r {
            Some(v) => spec_parsed_catalog_titles(body@) == Some(v.deep_view()),
            None => spec_parsed_catalog_titles(body@) is None,
        },
{
    let root: serde_json::Value = match serde_json::from_str(body) {
        Ok(v) => v,
        Err(_) => return None,
    };
    let list = root.get("providers")?.get(0)?.get("collections")?.as_array()?;
    let mut titles: Vec<String> = Vec::new();
    for entry in list {
        titles.push(entry.get("title")?.as_str()?.to_string());
    }
    Some(titles)
}

/// The compute half of the catalog metadata fetch: classifies the exchange's
/// outcome and extracts the collection titles. A failed exchange — no
/// response, or a server error — makes the whole catalog unavailable; a
/// rejected request keeps its own class; a body without the expected shape
/// is an invalid response.
pub fn get_all_collections(outcome: &FetchOutcome) -> (r: Result<Vec<String>, SearchError>)
    ensures
        match r {
            Ok(v) => match outcome@ {
                FetchOutcomeModel::Response { status, body } => {
                    &&& spec_status_error(status) is None
                    &&& spec_parsed_catalog_titles(body) == Some(v.deep_view())
                },
                FetchOutcomeModel::TransportFailure => false,
            },
            Err(e) => match outcome@ {
                FetchOutcomeModel::TransportFailure => e == SearchError::CatalogUnavailableError,
                FetchOutcomeModel::Response { status, body } => {
                    if 500 <= status < 600 {
                        e == SearchError::CatalogUnavailableError
                    } else if 400 <= status < 500 {
                        e == SearchError::ClientError(status)
                    } else {
                        &&& spec_parsed_catalog_titles(body) is None
                        &&& e == SearchError::InvalidResponseFormatError
                    }
                },
            },
        },
{
    match outcome {
        FetchOutcome::TransportFailure => Err(SearchError::CatalogUnavailableError),
        FetchOutcome::Response { status, body } => {
            match is_request_with_error(*status) {
                Err(SearchError::ServerError(_)) => Err(SearchError::CatalogUnavailableError),
                Err(e) => Err(e),
                Ok(()) => match parse_catalog_titles(body.as_str()) {
                    Some(v) => Ok(v),
                    None => Err(SearchError::InvalidResponseFormatError),
                },
            }
        },
    }
}

} // verus!
