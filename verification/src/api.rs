//! The client's entry points: the catalog's endpoints and the planning half
//! of each search.
//!
//! Each search is split around its HTTP exchanges. Planning turns the
//! caller's inputs into the exact requests to send — a `StacQuery` for an
//! area search, two candidate collection names for an id search — and
//! aggregation (`aggregate`) turns the exchanges' outcomes back into one
//! feature collection. The driver in between only moves bytes.

use vstd::prelude::*;
use vstd::string::StringExecFns;
use crate::catalog::get_all_collections;
use crate::catalog::resolve_candidates;
use crate::catalog::spec_candidate_l2;
use crate::catalog::spec_candidate_l4;
use crate::catalog::spec_parsed_catalog_titles;
use crate::catalog::spec_scene_matches_catalog;
use crate::date::Date;
use crate::error::SearchError;
use crate::geometry::Geometry;
use crate::geometry::extract_bbox;
use crate::geometry::BoundingBox;
use crate::response::FetchOutcome;
use crate::response::FetchOutcomeModel;
use crate::response::spec_status_error;
use crate::stac_query::StacQuery;
use crate::stac_query::StacQueryBuilderModel;
use crate::stac_query::spec_build;
use crate::strutil::spec_split_us;

verus! {

/// The client: the account name some catalog operations are made under.
/// Nothing the verified core computes depends on it; the driver sends it
/// where the remote asks for one.
#[derive(Clone, Debug)]
pub struct Cbers4aAPI {
    pub user: String,
}

/// The accumulator state the caller's optional inputs stand for: unset
/// collections mean the empty list, every other option is carried as given.
pub open spec fn spec_builder_from(
    bbox: BoundingBox,
    collections: Option<Seq<Seq<char>>>,
    initial_date: Option<Seq<char>>,
    end_date: Option<Seq<char>>,
    cloud: Option<u8>,
    limit: Option<u16>,
) -> StacQueryBuilderModel {
    StacQueryBuilderModel {
        bbox,
        collections: match collections {
            Some(c) => c,
            None => Seq::<Seq<char>>::empty(),
        },
        initial_date,
        end_date,
        limit,
        cloud_cover: cloud,
    }
}

impl Cbers4aAPI {
    /// The area-search endpoint.
    pub fn search_url(&self) -> (r: String)
        ensures
            r@ == "http://www.dgi.inpe.br/lgi-stac/search"@,
    {
        String::from_str("http://www.dgi.inpe.br/lgi-stac/search")
    }

    /// The catalog metadata endpoint the collection list comes from.
    pub fn collections_metadata_url(&self) -> (r: String)
        ensures
            r@ == "http://www.dgi.inpe.br/stac-compose/collections"@,
    {
        String::from_str("http://www.dgi.inpe.br/stac-compose/collections")
    }

    /// The item-by-id endpoint for one candidate collection and scene id.
    pub fn item_url(&self, collection: &str, scene_id: &str) -> (r: String)
        ensures
            r@ == "http://www.dgi.inpe.br/lgi-stac/collections/"@ + collection@ + "/items/"@
                + scene_id@,
    {
        let mut r = String::from_str("http://www.dgi.inpe.br/lgi-stac/collections/");
        r.append(collection);
        r.append("/items/");
        r.append(scene_id);
        r
    }

    /// The planning half of an area search: reduces the polygon to its
    /// bounding box and builds the request from the optional parameters,
    /// with the documented defaults for whatever is unset — dates default to
    /// the week ending on the calendar day of the call. A degenerate or
    /// non-polygon geometry is rejected before any request exists, so
    /// nothing is ever sent for it.
    pub fn plan_query(
        &self,
        location: &Geometry,
        collections: Option<Vec<String>>,
        initial_date: Option<String>,
        end_date: Option<String>,
        cloud: Option<u8>,
        limit: Option<u16>,
    ) -> (r: Result<StacQuery, SearchError>)
        ensures
            match r {
                Ok(q) => {
                    &&& location is Polygon
                    &&& location->Polygon_0.exterior@.len() > 0
                    &&& q@.bbox.is_bbox_of(location->Polygon_0.all_vertices())
                    &&& exists|t: Date|
                        t.valid() && -262144 <= t.year <= 262143 && q@ == spec_build(
                            spec_builder_from(
                                q@.bbox,
                                collections.deep_view(),
                                initial_date.deep_view(),
                                end_date.deep_view(),
                                cloud,
                                limit,
                            ),
                            t,
                        )
                },
                Err(e) => {
                    &&& e == SearchError::GeometryError
                    &&& (location is Polygon ==> location->Polygon_0.exterior@.len() == 0)
                },
            },
    {
        let bbox = match extract_bbox(location) {
            Ok(b) => b,
            Err(e) => {
                return Err(e);
            },
        };
        let mut builder = StacQuery::new(bbox);
        match collections {
            Some(c) => builder.with_collections(c),
            None => (),
        }
        match initial_date {
            Some(d) => builder.with_initial_date(d),
            None => (),
        }
        match end_date {
            Some(d) => builder.with_end_date(d),
            None => (),
        }
        match cloud {
            Some(c) => builder.with_cloud_cover(c),
            None => (),
        }
        match limit {
            Some(l) => builder.with_limit(l),
            None => (),
        }
        proof {
            assert(builder@ =~~= spec_builder_from(
                bbox,
                collections.deep_view(),
                initial_date.deep_view(),
                end_date.deep_view(),
                cloud,
                limit,
            ));
        }
        let q = builder.build();
        Ok(q)
    }

    /// The planning half of an id search: reads the collection titles out of
    /// the catalog metadata exchange and derives the two candidate
    /// collections to probe, level `L2` and level `L4`, or `None` when no
    /// catalog entry matches the scene id. A failed metadata exchange makes
    /// the catalog unavailable and aborts the lookup.
    pub fn plan_query_by_id(&self, catalog_outcome: &FetchOutcome, scene_id: &str) -> (r: Result<
        Option<(String, String)>,
        SearchError,
    >)
        ensures
            match r {
                Ok(opt) => match catalog_outcome@ {
                    FetchOutcomeModel::Response { status, body } => {
                        &&& spec_status_error(status) is None
                        &&& match spec_parsed_catalog_titles(body) {
                            Some(titles) => match opt {
                                Some(c) => {
                                    &&& spec_scene_matches_catalog(titles, scene_id@)
                                    &&& c.0@ == spec_candidate_l2(
                                        spec_split_us(scene_id@)[0],
                                        spec_split_us(scene_id@)[1],
                                    )
                                    &&& c.1@ == spec_candidate_l4(
                                        spec_split_us(scene_id@)[0],
                                        spec_split_us(scene_id@)[1],
                                    )
                                },
                                None => !spec_scene_matches_catalog(titles, scene_id@),
                            },
                            None => false,
                        }
                    },
                    FetchOutcomeModel::TransportFailure => false,
                },
                Err(e) => match catalog_outcome@ {
                    FetchOutcomeModel::TransportFailure => e
                        == SearchError::CatalogUnavailableError,
                    FetchOutcomeModel::Response { status, body } => {
                        if 500 <= status < 600 {
                            e == SearchError::CatalogUnavailableError
                        } else if 400 <= status < 500 {
                            e == SearchError::ClientError(status)
                        } else {
                            &&& spec_parsed_catalog_titles(body) is None
                            &&& e == SearchError::InvalidResponseFormatError
                        }
                    },
                },
            },
    {
        let titles = match get_all_collections(catalog_outcome) {
            Ok(v) => v,
            Err(e) => {
                return Err(e);
            },
        };
        Ok(resolve_candidates(&titles, scene_id))
    }
}

} // verus!
