//! The features.

pub mod max_systems_found;
pub mod no_max_search_radius;
pub mod no_max_systems_found;
pub mod no_search_locking;
pub mod non_negative_search_radius;
