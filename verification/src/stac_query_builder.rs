//! An alternative accumulator shaped like the wire request itself.
//!
//! This variant of the client's builder mutates the serialized shape in
//! place: the `datetime` range is set from both endpoints at once, the limit
//! starts at 100, the cloud-cover entry is absent until set, and collection
//! names are appended one at a time. The canonical builder with the
//! documented defaults lives in `stac_query`; this shape is kept for callers
//! of the older interface.

use vstd::prelude::*;
use vstd::string::StringExecFns;
use crate::geometry::BoundingBox;

verus! {

/// A request under construction, field for field the wire shape: the
/// cloud-cover ceiling is `None` while the `query` member carries no
/// `cloud_cover` entry.
#[derive(Clone, Debug)]
pub struct StacQueryBuilder {
    pub bbox: BoundingBox,
    pub datetime: String,
    pub limit: u16,
    pub cloud_cover: Option<u8>,
    pub collections: Vec<String>,
}

/// The mathematical content of the wire-shape accumulator.
#[verifier::ext_equal]
pub struct WireQueryModel {
    pub bbox: BoundingBox,
    pub datetime: Seq<char>,
    pub limit: u16,
    pub cloud_cover: Option<u8>,
    pub collections: Seq<Seq<char>>,
}

impl View for StacQueryBuilder {
    type V = WireQueryModel;

    open spec fn view(&self) -> WireQueryModel {
        WireQueryModel {
            bbox: self.bbox,
            datetime: self.datetime@,
            limit: self.limit,
            cloud_cover: self.cloud_cover,
            collections: self.collections.deep_view(),
        }
    }
}

/// The state a fresh wire-shape accumulator starts in: a zero box, an empty
/// range, limit 100, no cloud-cover entry and no collections.
pub open spec fn spec_initial_wire_query() -> WireQueryModel {
    WireQueryModel {
        bbox: BoundingBox { min_x: 0, min_y: 0, max_x: 0, max_y: 0 },
        datetime: Seq::<char>::empty(),
        limit: 100,
        cloud_cover: None,
        collections: Seq::<Seq<char>>::empty(),
    }
}

impl StacQueryBuilder {
    /// A fresh accumulator in its documented initial state.
    pub fn new() -> (r: StacQueryBuilder)
        ensures
            r@ == spec_initial_wire_query(),
    {
        let r = StacQueryBuilder {
            bbox: BoundingBox { min_x: 0, min_y: 0, max_x: 0, max_y: 0 },
            datetime: String::new(),
            limit: 100,
            cloud_cover: None,
            collections: Vec::new(),
        };
        proof {
            assert(r.collections.deep_view() =~~= Seq::<Seq<char>>::empty());
            assert(r@.datetime =~= Seq::<char>::empty());
        }
        r
    }

    /// Replaces the bounding box.
    pub fn set_bbox(&mut self, bbox: BoundingBox)
        ensures
            final(self)@ == (WireQueryModel { bbox, ..old(self)@ }),
    {
        self.bbox = bbox;
    }

    /// Sets the `datetime` range from its two endpoints, given as
    /// `YYYY-MM-DD`: the start at `T00:00:00`, the end at `T23:59:00`.
    pub fn set_datetime(&mut self, initial_date: &String, end_date: &String)
        ensures
            final(self)@ == (WireQueryModel {
                datetime: crate::stac_query::spec_datetime_range(initial_date@, end_date@),
                ..old(self)@
            }),
    {
        let mut datetime = initial_date.clone();
        datetime.append("T00:00:00/");
        datetime.append(end_date.as_str());
        datetime.append("T23:59:00");
        self.datetime = datetime;
        proof {
            assert(final(self)@.datetime =~= crate::stac_query::spec_datetime_range(
                initial_date@,
                end_date@,
            ));
        }
    }

    /// Replaces the result limit.
    pub fn set_limit(&mut self, limit: u16)
        ensures
            final(self)@ == (WireQueryModel { limit, ..old(self)@ }),
    {
        self.limit = limit;
    }

    /// Puts a `cloud_cover` ceiling into the `query` member, replacing any
    /// earlier one.
    pub fn set_cloud_cover(&mut self, cloud_cover: &u8)
        ensures
            final(self)@ == (WireQueryModel { cloud_cover: Some(*cloud_cover), ..old(self)@ }),
    {
        self.cloud_cover = Some(*cloud_cover);
    }

    /// Appends one collection name.
    pub fn set_collections(&mut self, collection: &String)
        ensures
            final(self)@ == (WireQueryModel {
                collections: old(self)@.collections.push(collection@),
                ..old(self)@
            }),
    {
        self.collections.push(collection.clone());
        proof {
            assert(final(self).collections.deep_view() =~~= old(
                self,
            ).collections.deep_view().push(collection@));
        }
    }
}

impl Default for StacQueryBuilder {
    /// The same initial state as `new`.
    fn default() -> (r: StacQueryBuilder)
        ensures
            r@ == spec_initial_wire_query(),
    {
        StacQueryBuilder::new()
    }
}

} // verus!
