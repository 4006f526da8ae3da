//! Result aggregation: classifying each exchange's outcome and merging the
//! per-request results into one feature collection, first-seen order kept.
//!
//! Area search contributes one outcome per polygon and every feature of a
//! response is kept in response order; id search contributes one outcome per
//! candidate level (`L2` then `L4`) and an unparseable body only skips that
//! candidate. No deduplication is performed. The first fatal outcome aborts
//! the whole aggregation with its error and no partial result.

use vstd::prelude::*;
use crate::error::SearchError;
use crate::response::FetchOutcome;
use crate::response::FetchOutcomeModel;
use crate::response::spec_status_error;
use crate::response::is_request_with_error;
use crate::response::spec_parsed_feature_collection;
use crate::response::parse_feature_collection;
use crate::response::spec_parsed_feature;
use crate::response::parse_feature;

verus! {

/// Concatenation of a sequence of feature lists, order kept.
pub open spec fn spec_merged(parts: Seq<Seq<geojson::Feature>>) -> Seq<geojson::Feature> {
    parts.flatten()
}

/// Merges feature collections into one, keeping first-seen order: the
/// result is exactly their concatenation.
pub fn merge_feature_collections(parts: Vec<Vec<geojson::Feature>>) -> (r: Vec<geojson::Feature>)
    ensures
        r@ == spec_merged(parts@.map_values(|p: Vec<geojson::Feature>| p@)),
{
    let ghost parts0: Seq<Seq<geojson::Feature>> = parts@.map_values(
        |p: Vec<geojson::Feature>| p@,
    );
    let mut parts = parts;
    let mut r: Vec<geojson::Feature> = Vec::new();
    while parts.len() > 0
        invariant
            parts0.flatten() == r@ + parts@.map_values(|p: Vec<geojson::Feature>| p@).flatten(),
        decreases parts@.len(),
    {
        let ghost before: Seq<Seq<geojson::Feature>> = parts@.map_values(
            |p: Vec<geojson::Feature>| p@,
        );
        let mut part = parts.remove(0);
        let ghost part0 = part@;
        let ghost r0 = r@;
        r.append(&mut part);
        proof {
            let after: Seq<Seq<geojson::Feature>> = parts@.map_values(
                |p: Vec<geojson::Feature>| p@,
            );
            assert(after =~= before.drop_first());
            assert(before.first() == part0);
            assert(before.flatten() == before.first() + before.drop_first().flatten());
            assert(r0 + before.flatten() =~= (r0 + part0) + after.flatten());
        }
    }
    proof {
        assert(parts@.map_values(|p: Vec<geojson::Feature>| p@).flatten()
            =~= Seq::<geojson::Feature>::empty());
        assert(r@ + Seq::<geojson::Feature>::empty() =~= r@);
    }
    r
}

/// What one area-search exchange contributes: its features, or the fatal
/// error that aborts the search.
pub open spec fn spec_area_outcome(o: FetchOutcomeModel) -> Result<
    Seq<geojson::Feature>,
    SearchError,
> {
    match o {
        FetchOutcomeModel::TransportFailure => Err(SearchError::TransportError),
        FetchOutcomeModel::Response { status, body } => match spec_status_error(status) {
            Some(e) => Err(e),
            None => match spec_parsed_feature_collection(body) {
                Some(fs) => Ok(fs),
                None => Err(SearchError::InvalidResponseFormatError),
            },
        },
    }
}

/// The aggregate of an area search's outcomes, polygon order kept: the
/// concatenation of every response's features, or the first fatal error.
pub open spec fn spec_collect_area(os: Seq<FetchOutcomeModel>) -> Result<
    Seq<geojson::Feature>,
    SearchError,
>
    decreases os.len(),
{
    if os.len() == 0 {
        Ok(Seq::<geojson::Feature>::empty())
    } else {
        match spec_area_outcome(os[0]) {
            Err(e) => Err(e),
            Ok(fs) => match spec_collect_area(os.drop_first()) {
                Err(e) => Err(e),
                Ok(rest) => Ok(fs + rest),
            },
        }
    }
}

/// What one id-probe exchange contributes: one feature, nothing when the
/// body is not a single feature (that candidate is skipped), or the fatal
/// error that aborts the lookup.
pub open spec fn spec_id_outcome(o: FetchOutcomeModel) -> Result<
    Option<geojson::Feature>,
    SearchError,
> {
    match o {
        FetchOutcomeModel::TransportFailure => Err(SearchError::TransportError),
        FetchOutcomeModel::Response { status, body } => match spec_status_error(status) {
            Some(e) => Err(e),
            None => Ok(spec_parsed_feature(body)),
        },
    }
}

/// The aggregate of an id search's probes, candidate order kept: every
/// probe that came back as a feature, or the first fatal error.
pub open spec fn spec_collect_id(os: Seq<FetchOutcomeModel>) -> Result<
    Seq<geojson::Feature>,
    SearchError,
>
    decreases os.len(),
{
    if os.len() == 0 {
        Ok(Seq::<geojson::Feature>::empty())
    } else {
        match spec_id_outcome(os[0]) {
            Err(e) => Err(e),
            Ok(of) => match spec_collect_id(os.drop_first()) {
                Err(e) => Err(e),
                Ok(rest) => Ok(
                    match of {
                        Some(f) => seq![f] + rest,
                        None => rest,
                    },
                ),
            },
        }
    }
}

/// Classifies one area-search outcome and parses its body: exactly
/// `spec_area_outcome`.
pub fn collect_query_response(outcome: &FetchOutcome) -> (r: Result<
    Vec<geojson::Feature>,
    SearchError,
>)
    ensures
        match r {
            Ok(v) => spec_area_outcome(outcome@) == Ok::<_, SearchError>(v@),
            Err(e) => spec_area_outcome(outcome@) == Err::<Seq<geojson::Feature>, _>(e),
        },
{
    match outcome {
        FetchOutcome::TransportFailure => Err(SearchError::TransportError),
        FetchOutcome::Response { status, body } => {
            match is_request_with_error(*status) {
                Err(e) => Err(e),
                Ok(()) => match parse_feature_collection(body.as_str()) {
                    Some(v) => Ok(v),
                    None => Err(SearchError::InvalidResponseFormatError),
                },
            }
        },
    }
}

/// Aggregates an area search's outcomes in polygon order: exactly
/// `spec_collect_area` — all features of all responses concatenated, or the
/// first fatal error and no partial result.
pub fn collect_query_responses(outcomes: &Vec<FetchOutcome>) -> (r: Result<
    Vec<geojson::Feature>,
    SearchError,
>)
    ensures
        match r {
            Ok(v) => spec_collect_area(outcomes.deep_view()) == Ok::<_, SearchError>(v@),
            Err(e) => spec_collect_area(outcomes.deep_view()) == Err::<
                Seq<geojson::Feature>,
                _,
            >(e),
        },
{
    let ghost os: Seq<FetchOutcomeModel> = outcomes.deep_view();
    let mut acc: Vec<geojson::Feature> = Vec::new();
    let mut i: usize = 0;
    proof {
        assert(os.skip(0) =~= os);
        if let Ok(rest) = spec_collect_area(os) {
            assert(Seq::<geojson::Feature>::empty() + rest =~= rest);
        }
        if let Ok(rest) = spec_collect_id(os) {
            assert(Seq::<geojson::Feature>::empty() + rest =~= rest);
        }
    }
    while i < outcomes.len()
        invariant
            i <= outcomes@.len(),
            os == outcomes.deep_view(),
            os.len() == outcomes@.len(),
            forall|j: int| 0 <= j < os.len() ==> os[j] == (#[trigger] outcomes@[j])@,
            spec_collect_area(os) == match spec_collect_area(os.skip(i as int)) {
                Ok(rest) => Ok::<_, SearchError>(acc@ + rest),
                Err(e) => Err::<Seq<geojson::Feature>, _>(e),
            },
        decreases outcomes@.len() - i,
    {
        proof {
            assert(os.skip(i as int)[0] == os[i as int]);
            assert(os.skip(i as int).drop_first() =~= os.skip(i + 1));
        }
        match collect_query_response(&outcomes[i]) {
            Err(e) => {
                return Err(e);
            },
            Ok(mut fs) => {
                let ghost acc0 = acc@;
                let ghost fs0 = fs@;
                acc.append(&mut fs);
                proof {
                    if let Ok(rest) = spec_collect_area(os.skip(i + 1)) {
                        assert((acc0 + fs0) + rest =~= acc0 + (fs0 + rest));
                    }
                }
            },
        }
        i += 1;
    }
    proof {
        assert(os.skip(os.len() as int).len() == 0);
        if let Ok(rest) = spec_collect_area(os.skip(os.len() as int)) {
            assert(acc@ + rest =~= acc@);
        }
    }
    Ok(acc)
}

/// Aggregates an id search's probes in candidate order: exactly
/// `spec_collect_id` — each parseable feature kept, unparseable candidates
/// skipped, or the first fatal error and no partial result.
pub fn collect_id_probes(outcomes: &Vec<FetchOutcome>) -> (r: Result<
    Vec<geojson::Feature>,
    SearchError,
>)
    ensures
        match r {
            Ok(v) => spec_collect_id(outcomes.deep_view()) == Ok::<_, SearchError>(v@),
            Err(e) => spec_collect_id(outcomes.deep_view()) == Err::<Seq<geojson::Feature>, _>(e),
        },
{
    let ghost os: Seq<FetchOutcomeModel> = outcomes.deep_view();
    let mut acc: Vec<geojson::Feature> = Vec::new();
    let mut i: usize = 0;
    proof {
        assert(os.skip(0) =~= os);
        if let Ok(rest) = spec_collect_area(os) {
            assert(Seq::<geojson::Feature>::empty() + rest =~= rest);
        }
        if let Ok(rest) = spec_collect_id(os) {
            assert(Seq::<geojson::Feature>::empty() + rest =~= rest);
        }
    }
    while i < outcomes.len()
        invariant
            i <= outcomes@.len(),
            os == outcomes.deep_view(),
            os.len() == outcomes@.len(),
            forall|j: int| 0 <= j < os.len() ==> os[j] == (#[trigger] outcomes@[j])@,
            spec_collect_id(os) == match spec_collect_id(os.skip(i as int)) {
                Ok(rest) => Ok::<_, SearchError>(acc@ + rest),
                Err(e) => Err::<Seq<geojson::Feature>, _>(e),
            },
        decreases outcomes@.len() - i,
    {
        proof {
            assert(os.skip(i as int)[0] == os[i as int]);
            assert(os.skip(i as int).drop_first() =~= os.skip(i + 1));
        }
        match &outcomes[i] {
            FetchOutcome::TransportFailure => {
                return Err(SearchError::TransportError);
            },
            FetchOutcome::Response { status, body } => {
                match is_request_with_error(*status) {
                    Err(e) => {
                        return Err(e);
                    },
                    Ok(()) => {
                        let ghost acc0 = acc@;
                        match parse_feature(body.as_str()) {
                            Some(f) => {
                                acc.push(f);
                                proof {
                                    if let Ok(rest) = spec_collect_id(os.skip(i + 1)) {
                                        assert((acc0.push(f)) + rest =~= acc0 + (seq![f] + rest));
                                    }
                                }
                            },
                            None => {},
                        }
                    },
                }
            },
        }
        i += 1;
    }
    proof {
        assert(os.skip(os.len() as int).len() == 0);
        if let Ok(rest) = spec_collect_id(os.skip(os.len() as int)) {
            assert(acc@ + rest =~= acc@);
        }
    }
    Ok(acc)
}

} // verus!
