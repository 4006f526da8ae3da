//! Outcome classification and result aggregation, end to end against
//! response bodies.

use cbers4asat::aggregate::collect_id_probes;
use cbers4asat::aggregate::collect_query_response;
use cbers4asat::aggregate::collect_query_responses;
use cbers4asat::aggregate::merge_feature_collections;
use cbers4asat::api::Cbers4aAPI;
use cbers4asat::catalog::get_all_collections;
use cbers4asat::error::SearchError;
use cbers4asat::response::FetchOutcome;
use cbers4asat::response::is_request_with_error;

fn feature_body(id: &str) -> String {
    format!(
        "{{\"type\":\"Feature\",\"id\":\"{}\",\"properties\":{{}},\"geometry\":null}}",
        id
    )
}

fn collection_body(ids: &[&str]) -> String {
    let feats: Vec<String> = ids.iter().map(|i| feature_body(i)).collect();
    format!("{{\"type\":\"FeatureCollection\",\"features\":[{}]}}", feats.join(","))
}

fn feature_id(f: &geojson::Feature) -> String {
    match &f.id {
        Some(geojson::feature::Id::String(s)) => s.clone(),
        _ => String::new(),
    }
}

fn response(status: u16, body: String) -> FetchOutcome {
    FetchOutcome::Response { status, body }
}

#[test]
fn status_classification_boundaries() {
    assert!(is_request_with_error(200).is_ok());
    assert!(is_request_with_error(399).is_ok());
    assert_eq!(is_request_with_error(400), Err(SearchError::ClientError(400)));
    assert_eq!(is_request_with_error(404), Err(SearchError::ClientError(404)));
    assert_eq!(is_request_with_error(499), Err(SearchError::ClientError(499)));
    assert_eq!(is_request_with_error(500), Err(SearchError::ServerError(500)));
    assert_eq!(is_request_with_error(599), Err(SearchError::ServerError(599)));
    assert!(is_request_with_error(600).is_ok());
}

#[test]
fn area_search_returns_all_features_in_response_order() {
    let body = collection_body(&["a", "b", "c"]);
    let outcomes = vec![response(200, body)];
    let feats = collect_query_responses(&outcomes).unwrap();
    assert_eq!(feats.len(), 3);
    let ids: Vec<String> = feats.iter().map(feature_id).collect();
    assert_eq!(ids, vec!["a", "b", "c"]);
}

#[test]
fn area_search_keeps_polygon_order_across_responses() {
    let outcomes = vec![
        response(200, collection_body(&["a", "b"])),
        response(200, collection_body(&[])),
        response(200, collection_body(&["c"])),
    ];
    let feats = collect_query_responses(&outcomes).unwrap();
    let ids: Vec<String> = feats.iter().map(feature_id).collect();
    assert_eq!(ids, vec!["a", "b", "c"]);
}

#[test]
fn server_error_aborts_with_no_partial_result() {
    let outcomes = vec![
        response(200, collection_body(&["a"])),
        response(500, String::new()),
    ];
    assert_eq!(collect_query_responses(&outcomes), Err(SearchError::ServerError(500)));
}

#[test]
fn transport_failure_and_bad_bodies_have_their_own_classes() {
    let outcomes = vec![FetchOutcome::TransportFailure];
    assert_eq!(collect_query_responses(&outcomes), Err(SearchError::TransportError));
    assert_eq!(
        collect_query_response(&response(404, String::new())),
        Err(SearchError::ClientError(404))
    );
    assert_eq!(
        collect_query_response(&response(200, "not geojson".to_string())),
        Err(SearchError::InvalidResponseFormatError)
    );
    assert_eq!(
        collect_query_response(&response(200, feature_body("lone"))),
        Err(SearchError::InvalidResponseFormatError)
    );
}

#[test]
fn id_search_skips_the_empty_candidate_and_keeps_the_feature() {
    let outcomes = vec![
        response(200, String::new()),
        response(200, feature_body("scene-l4")),
    ];
    let feats = collect_id_probes(&outcomes).unwrap();
    assert_eq!(feats.len(), 1);
    assert_eq!(feature_id(&feats[0]), "scene-l4");
}

#[test]
fn id_search_keeps_both_levels_in_candidate_order() {
    let outcomes = vec![
        response(200, feature_body("scene-l2")),
        response(200, feature_body("scene-l4")),
    ];
    let feats = collect_id_probes(&outcomes).unwrap();
    let ids: Vec<String> = feats.iter().map(feature_id).collect();
    assert_eq!(ids, vec!["scene-l2", "scene-l4"]);
}

#[test]
fn id_search_aborts_on_fatal_outcomes() {
    let outcomes = vec![response(500, String::new()), response(200, feature_body("x"))];
    assert_eq!(collect_id_probes(&outcomes), Err(SearchError::ServerError(500)));
    let outcomes = vec![FetchOutcome::TransportFailure];
    assert_eq!(collect_id_probes(&outcomes), Err(SearchError::TransportError));
}

#[test]
fn merge_keeps_first_seen_order() {
    let a = collect_query_response(&response(200, collection_body(&["a", "b"]))).unwrap();
    let b = collect_query_response(&response(200, collection_body(&["c"]))).unwrap();
    let merged = merge_feature_collections(vec![a, b]);
    let ids: Vec<String> = merged.iter().map(feature_id).collect();
    assert_eq!(ids, vec!["a", "b", "c"]);
}

fn catalog_body() -> String {
    let mut body = String::from("{\"providers\":[{\"collections\":[");
    body.push_str("{\"title\":\"CBERS4_WPM_L2_DN\"},");
    body.push_str("{\"title\":\"CBERS4_WPM_L4_DN\"}");
    body.push_str("]}]}");
    body
}

#[test]
fn catalog_titles_come_from_the_first_provider() {
    let titles = get_all_collections(&response(200, catalog_body())).unwrap();
    assert_eq!(titles, vec!["CBERS4_WPM_L2_DN".to_string(), "CBERS4_WPM_L4_DN".to_string()]);
}

#[test]
fn catalog_failures_are_fatal_to_the_lookup() {
    assert_eq!(
        get_all_collections(&FetchOutcome::TransportFailure),
        Err(SearchError::CatalogUnavailableError)
    );
    assert_eq!(
        get_all_collections(&response(500, String::new())),
        Err(SearchError::CatalogUnavailableError)
    );
    assert_eq!(
        get_all_collections(&response(404, String::new())),
        Err(SearchError::ClientError(404))
    );
    assert_eq!(
        get_all_collections(&response(200, "{}".to_string())),
        Err(SearchError::InvalidResponseFormatError)
    );
}

#[test]
fn id_lookup_plans_both_candidate_probes() {
    let api = Cbers4aAPI { user: String::new() };
    let planned = api
        .plan_query_by_id(&response(200, catalog_body()), "CBERS4A_WPM_20230101")
        .unwrap();
    let (l2, l4) = planned.unwrap();
    assert_eq!(l2, "CBERS4A_WPM_L2_DN");
    assert_eq!(l4, "CBERS4A_WPM_L4_DN");
    let none = api
        .plan_query_by_id(&response(200, catalog_body()), "LANDSAT_TM_1999")
        .unwrap();
    assert_eq!(none, None);
    assert_eq!(
        api.plan_query_by_id(&FetchOutcome::TransportFailure, "CBERS4A_WPM_20230101"),
        Err(SearchError::CatalogUnavailableError)
    );
}

#[test]
fn error_messages_name_their_class() {
    assert_eq!(
        SearchError::GeometryError.message(),
        "only polygon geometries are accepted"
    );
    assert_eq!(
        SearchError::ServerError(500).message(),
        "server error, try again later"
    );
}
