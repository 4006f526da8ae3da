//! Verified core of a command-line client for a CBERS-4A satellite-imagery
//! catalog (a STAC-like search service).
//!
//! The library covers the query-construction and scene-resolution logic:
//! reducing polygons to bounding boxes, accumulating optional search
//! parameters into a well-formed search request, deriving the candidate
//! catalog collections a scene id may belong to, classifying HTTP outcomes,
//! and aggregating per-request results into one ordered feature collection.
//! The HTTP transport itself, file handling and console output live in the
//! surrounding (unverified) binary, which hands this library plain values.

pub mod error;
pub mod geometry;
pub mod response;
pub mod stac_query;
pub mod stac_query_builder;
pub mod strutil;
pub mod aggregate;
pub mod api;
pub mod catalog;
pub mod date;
