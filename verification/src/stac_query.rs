//! The search request and the accumulator that builds it.
//!
//! This is the canonical builder of the client: collections are an optional
//! list (unset means every collection), the result limit defaults to 25, the
//! cloud-cover ceiling to 100, and an unset date range to the week ending
//! today. An alternative wire-shape accumulator with other defaults lives in
//! `stac_query_builder`.

use vstd::prelude::*;
use vstd::string::StringExecFns;
use crate::date::Date;
use crate::date::spec_format_date;
use crate::date::spec_minus_days;
use crate::date::spec_plus_days;
use crate::date::format_date;
use crate::date::minus_days;
use crate::date::today_local;
use crate::date::lemma_minus_days_valid;
use crate::date::lemma_plus_undoes_minus;
use crate::geometry::BoundingBox;

verus! {

/// The immutable search request, as the wire shape carries it: `bbox`,
/// a two-endpoint `datetime` range, `limit`, the cloud-cover ceiling that is
/// serialized under `query.cloud_cover.lte`, and the collection names.
#[derive(Clone, Debug)]
pub struct StacQuery {
    pub bbox: BoundingBox,
    pub datetime: String,
    pub limit: u16,
    pub cloud_cover: u8,
    pub collections: Vec<String>,
}

/// The mathematical content of a request.
#[verifier::ext_equal]
pub struct StacQueryModel {
    pub bbox: BoundingBox,
    pub datetime: Seq<char>,
    pub limit: u16,
    pub cloud_cover: u8,
    pub collections: Seq<Seq<char>>,
}

impl View for StacQuery {
    type V = StacQueryModel;

    open spec fn view(&self) -> StacQueryModel {
        StacQueryModel {
            bbox: self.bbox,
            datetime: self.datetime@,
            limit: self.limit,
            cloud_cover: self.cloud_cover,
            collections: self.collections.deep_view(),
        }
    }
}

/// The accumulator: every optional parameter with its unset state, plus the
/// bounding box, which is supplied once at construction.
#[derive(Clone, Debug)]
pub struct StacQueryBuilder {
    pub bbox: BoundingBox,
    pub collections: Vec<String>,
    pub initial_date: Option<String>,
    pub end_date: Option<String>,
    pub limit: Option<u16>,
    pub cloud_cover: Option<u8>,
}

/// The mathematical content of an accumulator.
#[verifier::ext_equal]
pub struct StacQueryBuilderModel {
    pub bbox: BoundingBox,
    pub collections: Seq<Seq<char>>,
    pub initial_date: Option<Seq<char>>,
    pub end_date: Option<Seq<char>>,
    pub limit: Option<u16>,
    pub cloud_cover: Option<u8>,
}

impl View for StacQueryBuilder {
    type V = StacQueryBuilderModel;

    open spec fn view(&self) -> StacQueryBuilderModel {
        StacQueryBuilderModel {
            bbox: self.bbox,
            collections: self.collections.deep_view(),
            initial_date: self.initial_date.deep_view(),
            end_date: self.end_date.deep_view(),
            limit: self.limit,
            cloud_cover: self.cloud_cover,
        }
    }
}

/// The served `datetime` range: day precision at both ends, the start at
/// midnight and the end one minute before the next midnight.
pub open spec fn spec_datetime_range(start: Seq<char>, end: Seq<char>) -> Seq<char> {
    start + "T00:00:00/"@ + end + "T23:59:00"@
}

/// The range's start: the accumulated date, or a week before `today`.
pub open spec fn spec_start_date_str(m: StacQueryBuilderModel, today: Date) -> Seq<char> {
    match m.initial_date {
        Some(s) => s,
        None => spec_format_date(spec_minus_days(today, 7)),
    }
}

/// The range's end: the accumulated date, or `today`.
pub open spec fn spec_end_date_str(m: StacQueryBuilderModel, today: Date) -> Seq<char> {
    match m.end_date {
        Some(s) => s,
        None => spec_format_date(today),
    }
}

/// What building yields from an accumulator state and the calendar day of
/// the call: a pure function of the two, with the documented defaults for
/// whatever is unset.
pub open spec fn spec_build(m: StacQueryBuilderModel, today: Date) -> StacQueryModel {
    StacQueryModel {
        bbox: m.bbox,
        datetime: spec_datetime_range(
            spec_start_date_str(m, today),
            spec_end_date_str(m, today),
        ),
        limit: match m.limit {
            Some(l) => l,
            None => 25,
        },
        cloud_cover: match m.cloud_cover {
            Some(c) => c,
            None => 100,
        },
        collections: m.collections,
    }
}

/// Clones a list of names, keeping its contents.
pub(crate) fn clone_string_vec(v: &Vec<String>) -> (r: Vec<String>)
    ensures
        r.deep_view() == v.deep_view(),
{
    let mut r: Vec<String> = Vec::new();
    let mut i: usize = 0;
    while i < v.len()
        invariant
            i <= v@.len(),
            r@.len() == i,
            forall|j: int| 0 <= j < i ==> (#[trigger] r@[j])@ == v@[j]@,
        decreases v@.len() - i,
    {
        r.push(v[i].clone());
        i += 1;
    }
    proof {
        assert(r.deep_view() =~~= v.deep_view());
    }
    r
}

impl StacQuery {
    /// Starts an accumulator for the given bounding box, with every optional
    /// parameter unset.
    pub fn new(bbox: BoundingBox) -> (r: StacQueryBuilder)
        ensures
            r@ == (StacQueryBuilderModel {
                bbox,
                collections: Seq::<Seq<char>>::empty(),
                initial_date: None,
                end_date: None,
                limit: None,
                cloud_cover: None,
            }),
    {
        let r = StacQueryBuilder {
            bbox,
            collections: Vec::new(),
            initial_date: None,
            end_date: None,
            limit: None,
            cloud_cover: None,
        };
        proof {
            assert(r.collections.deep_view() =~~= Seq::<Seq<char>>::empty());
        }
        r
    }
}

impl StacQueryBuilder {
    /// Restricts the search to the given collections.
    pub fn with_collections(&mut self, collections: Vec<String>)
        ensures
            final(self)@ == (StacQueryBuilderModel {
                collections: collections.deep_view(),
                ..old(self)@
            }),
    {
        self.collections = collections;
    }

    /// Sets the range's start date, given as `YYYY-MM-DD`.
    pub fn with_initial_date(&mut self, initial_date: String)
        ensures
            final(self)@ == (StacQueryBuilderModel {
                initial_date: Some(initial_date@),
                ..old(self)@
            }),
    {
        self.initial_date = Some(initial_date);
    }

    /// Sets the range's end date, given as `YYYY-MM-DD`.
    pub fn with_end_date(&mut self, end_date: String)
        ensures
            final(self)@ == (StacQueryBuilderModel { end_date: Some(end_date@), ..old(self)@ }),
    {
        self.end_date = Some(end_date);
    }

    /// Sets the maximum number of results.
    pub fn with_limit(&mut self, limit: u16)
        ensures
            final(self)@ == (StacQueryBuilderModel { limit: Some(limit), ..old(self)@ }),
    {
        self.limit = Some(limit);
    }

    /// Sets the cloud-cover ceiling, in percent.
    pub fn with_cloud_cover(&mut self, cloud_cover: u8)
        ensures
            final(self)@ == (StacQueryBuilderModel {
                cloud_cover: Some(cloud_cover),
                ..old(self)@
            }),
    {
        self.cloud_cover = Some(cloud_cover);
    }

    /// Builds the request from the accumulated state and an explicitly given
    /// calendar day standing for "today": a pure function of the two.
    pub fn build_with_today(&self, today: Date) -> (r: StacQuery)
        requires
            today.valid(),
            today.year - 7 > i32::MIN,
        ensures
            r@ == spec_build(self@, today),
    {
        let start: String = match &self.initial_date {
            Some(s) => s.clone(),
            None => {
                proof {
                    lemma_minus_days_valid(today, 7);
                }
                format_date(minus_days(today, 7))
            },
        };
        let end: String = match &self.end_date {
            Some(s) => s.clone(),
            None => format_date(today),
        };
        let mut datetime = start;
        datetime.append("T00:00:00/");
        datetime.append(end.as_str());
        datetime.append("T23:59:00");
        let limit: u16 = match self.limit {
            Some(l) => l,
            None => 25,
        };
        let cloud_cover: u8 = match self.cloud_cover {
            Some(c) => c,
            None => 100,
        };
        let r = StacQuery {
            bbox: self.bbox,
            datetime,
            limit,
            cloud_cover,
            collections: clone_string_vec(&self.collections),
        };
        proof {
            assert(r@.datetime =~= spec_build(self@, today).datetime);
        }
        r
    }

    /// Builds the request, reading "today" from the system clock: the same
    /// pure transformation as `build_with_today`, applied to whatever valid
    /// calendar day the clock reports, with the accumulator left unchanged.
    pub fn build(&mut self) -> (r: StacQuery)
        ensures
            *final(self) == *old(self),
            exists|t: Date| t.valid() && -262144 <= t.year <= 262143 && r@ == spec_build(
                old(self)@,
                t,
            ),
    {
        let today = today_local();
        let r = self.build_with_today(today);
        proof {
            assert(today.valid() && -262144 <= today.year <= 262143 && r@ == spec_build(
                self@,
                today,
            ));
        }
        r
    }
}

/// Building is pure: two accumulators in the same state, built on the same
/// calendar day, yield identical requests.
pub proof fn lemma_build_pure(a: StacQueryBuilderModel, b: StacQueryBuilderModel, today: Date)
    requires
        a == b,
    ensures
        spec_build(a, today) == spec_build(b, today),
{
}

/// With both dates unset, the built `datetime` range runs from seven days
/// before `today` at `T00:00:00` to `today` at `T23:59:00`: its start is
/// exactly seven days before its end.
pub proof fn lemma_default_date_range(m: StacQueryBuilderModel, today: Date)
    requires
        m.initial_date is None,
        m.end_date is None,
        today.valid(),
        today.year - 7 > i32::MIN,
    ensures
        spec_build(m, today).datetime == spec_datetime_range(
            spec_format_date(spec_minus_days(today, 7)),
            spec_format_date(today),
        ),
        spec_minus_days(today, 7).valid(),
        spec_plus_days(spec_minus_days(today, 7), 7) == today,
{
    lemma_minus_days_valid(today, 7);
    lemma_plus_undoes_minus(today, 7);
}

/// With the limit unset the built request asks for 25 results, and with the
/// cloud ceiling unset it filters nothing out: the ceiling is 100.
pub proof fn lemma_default_limit_and_cloud(m: StacQueryBuilderModel, today: Date)
    requires
        m.limit is None,
        m.cloud_cover is None,
    ensures
        spec_build(m, today).limit == 25,
        spec_build(m, today).cloud_cover == 100,
{
}

} // verus!
