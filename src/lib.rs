//! Checks whether a username is registered on many web platforms: per-site
//! probe planning, response classification and result aggregation, with the
//! network and console work left to the caller.
pub mod text;
pub mod interpolate;
pub mod sherlock_target_manifest;
pub mod waf;
pub mod query;
pub mod pattern;
pub mod requests;
pub mod checker;
pub mod utils;
pub mod output;
pub mod get_data;
pub mod site_info;
