//! Bounding-box extraction and scene-id collection resolution.

use cbers4asat::api::Cbers4aAPI;
use cbers4asat::catalog::parse_collection_key;
use cbers4asat::catalog::resolve_candidates;
use cbers4asat::catalog::scene_id_tokens;
use cbers4asat::error::SearchError;
use cbers4asat::geometry::BoundingBox;
use cbers4asat::geometry::Coord;
use cbers4asat::geometry::Geometry;
use cbers4asat::geometry::Polygon;
use cbers4asat::geometry::extract_bbox;
use cbers4asat::strutil::split_underscore;
use cbers4asat::strutil::str_contains;

fn rectangle() -> Polygon {
    Polygon {
        exterior: vec![
            Coord { x: -45_900_000, y: -23_500_000 },
            Coord { x: -45_800_000, y: -23_500_000 },
            Coord { x: -45_800_000, y: -23_400_000 },
            Coord { x: -45_900_000, y: -23_400_000 },
            Coord { x: -45_900_000, y: -23_500_000 },
        ],
        holes: vec![],
    }
}

#[test]
fn bbox_is_the_exact_extremes() {
    let b = extract_bbox(&Geometry::Polygon(rectangle())).unwrap();
    assert_eq!(
        b,
        BoundingBox {
            min_x: -45_900_000,
            min_y: -23_500_000,
            max_x: -45_800_000,
            max_y: -23_400_000
        }
    );
    assert!(b.min_x <= b.max_x && b.min_y <= b.max_y);
}

#[test]
fn bbox_covers_hole_vertices_too() {
    let mut p = rectangle();
    p.holes = vec![vec![
        Coord { x: -45_950_000, y: -23_450_000 },
        Coord { x: -45_850_000, y: -23_350_000 },
    ]];
    let b = extract_bbox(&Geometry::Polygon(p)).unwrap();
    assert_eq!(b.min_x, -45_950_000);
    assert_eq!(b.max_y, -23_350_000);
}

#[test]
fn non_polygon_geometry_is_a_geometry_error() {
    assert_eq!(extract_bbox(&Geometry::Point), Err(SearchError::GeometryError));
    assert_eq!(extract_bbox(&Geometry::LineString), Err(SearchError::GeometryError));
    let empty = Polygon { exterior: vec![], holes: vec![] };
    assert_eq!(extract_bbox(&Geometry::Polygon(empty)), Err(SearchError::GeometryError));
}

#[test]
fn non_polygon_input_plans_no_request() {
    let api = Cbers4aAPI { user: String::new() };
    let r = api.plan_query(&Geometry::Point, None, None, None, None, None);
    assert_eq!(r.unwrap_err(), SearchError::GeometryError);
}

#[test]
fn substring_rule_resolves_candidates_from_the_scene_tokens() {
    let catalog = vec!["CBERS4_WPM_L2_DN".to_string(), "CBERS4_WPM_L4_DN".to_string()];
    let (l2, l4) = resolve_candidates(&catalog, "CBERS4A_WPM_20230101").unwrap();
    assert_eq!(l2, "CBERS4A_WPM_L2_DN");
    assert_eq!(l4, "CBERS4A_WPM_L4_DN");
}

#[test]
fn resolution_stops_with_no_match() {
    let catalog = vec!["AMAZONIA1_WFI_L4_DN".to_string()];
    assert_eq!(resolve_candidates(&catalog, "CBERS4A_WPM_20230101"), None);
    assert_eq!(resolve_candidates(&vec![], "CBERS4A_WPM_20230101"), None);
}

#[test]
fn malformed_catalog_entries_cannot_match() {
    let catalog = vec!["JUSTONENAME".to_string(), "CBERS4_WPM_L2_DN".to_string()];
    let (l2, _) = resolve_candidates(&catalog, "CBERS4A_WPM_20230101").unwrap();
    assert_eq!(l2, "CBERS4A_WPM_L2_DN");
}

#[test]
fn scene_id_without_two_tokens_resolves_nothing() {
    let catalog = vec!["CBERS4_WPM_L2_DN".to_string()];
    assert_eq!(resolve_candidates(&catalog, "CBERS4A"), None);
    assert_eq!(scene_id_tokens("CBERS4A"), None);
}

#[test]
fn collection_key_splits_into_four_segments() {
    let k = parse_collection_key("CBERS4A_WPM_L4_DN").unwrap();
    assert_eq!(k.satellite, "CBERS4A");
    assert_eq!(k.sensor, "WPM");
    assert_eq!(k.level, "L4");
    assert_eq!(k.kind, "DN");
    assert_eq!(
        parse_collection_key("CBERS4A_WPM_L4").unwrap_err(),
        SearchError::MalformedCollectionNameError
    );
    assert_eq!(
        parse_collection_key("CBERS4A_WPM_L4_DN_EXTRA").unwrap_err(),
        SearchError::MalformedCollectionNameError
    );
}

#[test]
fn split_and_contains_behave_like_their_specs() {
    assert_eq!(split_underscore("A_B_C"), vec!["A", "B", "C"]);
    assert_eq!(split_underscore(""), vec![""]);
    assert_eq!(split_underscore("_X_"), vec!["", "X", ""]);
    assert_eq!(split_underscore("plain"), vec!["plain"]);
    assert!(str_contains("CBERS4A", "CBERS4"));
    assert!(str_contains("CBERS4A", ""));
    assert!(!str_contains("CBERS4", "CBERS4A"));
    assert!(!str_contains("WPM", "MUX"));
}

#[test]
fn plan_query_builds_from_the_polygon_box() {
    let api = Cbers4aAPI { user: String::new() };
    let q = api
        .plan_query(&Geometry::Polygon(rectangle()), None, None, None, Some(80), Some(5))
        .unwrap();
    assert_eq!(
        q.bbox,
        BoundingBox {
            min_x: -45_900_000,
            min_y: -23_500_000,
            max_x: -45_800_000,
            max_y: -23_400_000
        }
    );
    assert_eq!(q.limit, 5);
    assert_eq!(q.cloud_cover, 80);
    assert!(q.collections.is_empty());
    assert!(q.datetime.contains("T00:00:00/"));
}

#[test]
fn item_url_is_the_items_endpoint() {
    let api = Cbers4aAPI { user: "someone".to_string() };
    assert_eq!(
        api.item_url("CBERS4A_WPM_L2_DN", "CBERS4A_WPM_20230101"),
        "http://www.dgi.inpe.br/lgi-stac/collections/CBERS4A_WPM_L2_DN/items/CBERS4A_WPM_20230101"
    );
    assert_eq!(api.search_url(), "http://www.dgi.inpe.br/lgi-stac/search");
    assert_eq!(
        api.collections_metadata_url(),
        "http://www.dgi.inpe.br/stac-compose/collections"
    );
}
