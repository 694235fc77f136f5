//! Fixed names and numbers of the tool.

use vstd::prelude::*;

verus! {

/// The name under which the configuration is kept.
pub const CONF_FILE_NAME: &'static str = "stourney.conf";

/// The version of the tool and of the configuration format it writes.
pub const VERSION: &'static str = "0.1.15";

/// The repository that every project's scaffold is cloned from.
pub const STOURNEY_ARENA_REPO_URL: &'static str = "https://github.com/pashneal/stourney_tournament";

/// The port a local match is served on, and the value that stands for
/// "no port chosen" in a configuration.
pub const DEFAULT_PORT: u16 = 3030;

/// How many recent projects are offered for choice at most.
pub const RECENTS_SHOWN: usize = 9;

/// The seconds each competitor has on the clock at the start of a match.
pub const INITIAL_TIME_SECS: u64 = 10;

/// The seconds a competitor gains with each move.
pub const INCREMENT_SECS: u64 = 1;

} // verus!
