//! The decisions of the web and api server: which files are analyses and
//! templates, the asset store, and how api results and pages are put
//! together.

pub mod analyses;
pub mod asset_map;
pub mod api;
pub mod pages;
pub mod templates;
