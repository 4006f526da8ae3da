//! The query builder: defaults, purity, and the date arithmetic behind the
//! default range.

use cbers4asat::date::Date;
use cbers4asat::date::format_date;
use cbers4asat::date::minus_days;
use cbers4asat::geometry::BoundingBox;
use cbers4asat::stac_query::StacQuery;
use cbers4asat::stac_query_builder::StacQueryBuilder as WireBuilder;

fn sample_bbox() -> BoundingBox {
    BoundingBox { min_x: -45_900_000, min_y: -23_500_000, max_x: -45_800_000, max_y: -23_400_000 }
}

#[test]
fn build_applies_documented_defaults() {
    let today = Date { year: 2023, month: 3, day: 1 };
    let q = StacQuery::new(sample_bbox()).build_with_today(today);
    assert_eq!(q.limit, 25);
    assert_eq!(q.cloud_cover, 100);
    assert!(q.collections.is_empty());
    assert_eq!(q.bbox, sample_bbox());
}

#[test]
fn build_default_dates_are_the_week_ending_today() {
    let today = Date { year: 2023, month: 3, day: 1 };
    let q = StacQuery::new(sample_bbox()).build_with_today(today);
    assert_eq!(q.datetime, "2023-02-22T00:00:00/2023-03-01T23:59:00");
}

#[test]
fn build_keeps_explicit_parameters() {
    let today = Date { year: 2023, month: 3, day: 1 };
    let mut b = StacQuery::new(sample_bbox());
    b.with_collections(vec!["CBERS4A_WPM_L4_DN".to_string()]);
    b.with_initial_date("2021-01-01".to_string());
    b.with_end_date("2021-02-01".to_string());
    b.with_cloud_cover(30);
    b.with_limit(7);
    let q = b.build_with_today(today);
    assert_eq!(q.datetime, "2021-01-01T00:00:00/2021-02-01T23:59:00");
    assert_eq!(q.limit, 7);
    assert_eq!(q.cloud_cover, 30);
    assert_eq!(q.collections, vec!["CBERS4A_WPM_L4_DN".to_string()]);
}

#[test]
fn build_is_pure() {
    let today = Date { year: 2024, month: 7, day: 15 };
    let mut b = StacQuery::new(sample_bbox());
    b.with_cloud_cover(55);
    let q1 = b.build_with_today(today);
    let q2 = b.build_with_today(today);
    assert_eq!(q1.bbox, q2.bbox);
    assert_eq!(q1.datetime, q2.datetime);
    assert_eq!(q1.limit, q2.limit);
    assert_eq!(q1.cloud_cover, q2.cloud_cover);
    assert_eq!(q1.collections, q2.collections);
}

#[test]
fn build_from_the_clock_has_the_range_shape() {
    let mut b = StacQuery::new(sample_bbox());
    let q = b.build();
    assert!(q.datetime.contains("T00:00:00/"));
    assert!(q.datetime.ends_with("T23:59:00"));
    assert_eq!(q.limit, 25);
    assert_eq!(q.cloud_cover, 100);
}

#[test]
fn minus_days_crosses_months_and_years() {
    let d = minus_days(Date { year: 2023, month: 3, day: 1 }, 7);
    assert_eq!(d, Date { year: 2023, month: 2, day: 22 });
    let leap = minus_days(Date { year: 2024, month: 3, day: 1 }, 7);
    assert_eq!(leap, Date { year: 2024, month: 2, day: 23 });
    let year = minus_days(Date { year: 2023, month: 1, day: 3 }, 7);
    assert_eq!(year, Date { year: 2022, month: 12, day: 27 });
    let century = minus_days(Date { year: 1900, month: 3, day: 1 }, 7);
    assert_eq!(century, Date { year: 1900, month: 2, day: 22 });
}

#[test]
fn format_date_zero_pads() {
    assert_eq!(format_date(Date { year: 1, month: 2, day: 3 }), "0001-02-03");
    assert_eq!(format_date(Date { year: 2023, month: 12, day: 31 }), "2023-12-31");
    assert_eq!(format_date(Date { year: -1, month: 1, day: 1 }), "-0001-01-01");
    assert_eq!(format_date(Date { year: 12345, month: 6, day: 7 }), "12345-06-07");
}

#[test]
fn wire_builder_starts_at_limit_100() {
    let b = WireBuilder::new();
    assert_eq!(b.limit, 100);
    assert_eq!(b.datetime, "");
    assert_eq!(b.cloud_cover, None);
    assert!(b.collections.is_empty());
    let d: WireBuilder = Default::default();
    assert_eq!(d.limit, 100);
}

#[test]
fn wire_builder_setters_mutate_the_wire_shape() {
    let mut b = WireBuilder::new();
    b.set_bbox(sample_bbox());
    b.set_datetime(&"2021-01-01".to_string(), &"2021-02-01".to_string());
    b.set_limit(3);
    b.set_cloud_cover(&40);
    b.set_collections(&"CBERS4A_WPM_L2_DN".to_string());
    b.set_collections(&"CBERS4A_WPM_L4_DN".to_string());
    assert_eq!(b.bbox, sample_bbox());
    assert_eq!(b.datetime, "2021-01-01T00:00:00/2021-02-01T23:59:00");
    assert_eq!(b.limit, 3);
    assert_eq!(b.cloud_cover, Some(40));
    assert_eq!(
        b.collections,
        vec!["CBERS4A_WPM_L2_DN".to_string(), "CBERS4A_WPM_L4_DN".to_string()]
    );
}
