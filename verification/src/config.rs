//! What is kept between sessions.

use crate::plugins::no_max_search_radius::NoMaxSearchRadius;
use crate::plugins::no_max_systems_found::NoMaxSystemsFound;
use crate::plugins::no_max_systems_found::DEFAULT;
use crate::plugins::no_search_locking::NoSearchLocking;
use crate::plugins::non_negative_search_radius::NonNegativeSearchRadius;
use vstd::prelude::*;

verus! {

/// The state of every feature that outlives a session.
#[derive(Clone, Copy, Debug, PartialEq, Eq, Structural)]
pub struct Config {
    pub no_search_locking: NoSearchLocking,
    pub no_max_search_radius: NoMaxSearchRadius,
    pub no_max_systems_found: NoMaxSystemsFound,
    pub non_negative_search_radius: NonNegativeSearchRadius,
}

impl Config {
    /// The state of a first session: every feature is as its own default
    /// says.
    pub open spec fn spec_default() -> Config {
        Config {
            no_search_locking: NoSearchLocking(false),
            no_max_search_radius: NoMaxSearchRadius(false),
            no_max_systems_found: NoMaxSystemsFound(DEFAULT, DEFAULT),
            non_negative_search_radius: NonNegativeSearchRadius(false, true),
        }
    }

    /// The state to start a session with: what was stored, or the default
    /// where nothing was stored or what was stored could not be read.
    pub fn init(stored: Option<Config>) -> (config: Config)
        ensures
            config == stored.unwrap_or(Config::spec_default()),
    {
        match stored {
            Some(config) => config,
            None => Config::default(),
        }
    }
}

impl Default for Config {
    fn default() -> (config: Config)
        ensures
            config == Config::spec_default(),
    {
        Config {
            no_search_locking: NoSearchLocking(false),
            no_max_search_radius: NoMaxSearchRadius(false),
            no_max_systems_found: NoMaxSystemsFound(DEFAULT, DEFAULT),
            non_negative_search_radius: NonNegativeSearchRadius(false, true),
        }
    }
}

} // verus!
