//! Command-line settings.
use vstd::prelude::*;

verus! {

/// The shortest refresh interval, in seconds: a zero-second refresh would
/// hammer the engine.
pub const MIN_REFRESH_SECS: u64 = 1;

/// The longest refresh interval, in seconds.
pub const MAX_REFRESH_SECS: u64 = 3600;

/// The refresh interval used when none is given, in seconds.
pub const DEFAULT_REFRESH_SECS: u64 = 2;

/// Browse local docker/podman images and containers.
#[derive(Debug, PartialEq, Eq)]
pub struct Args {
    /// Show stopped containers and intermediate images too.
    pub all: bool,
    /// Engine endpoint; sets DOCKER_HOST for this run.
    pub host: Option<String>,
    /// Seconds between automatic refreshes.
    pub refresh: u64,
}

/// Whether `secs` is an acceptable refresh interval.
pub fn refresh_in_range(secs: u64) -> (r: bool)
    ensures
        r == (MIN_REFRESH_SECS <= secs && secs <= MAX_REFRESH_SECS),
{
    MIN_REFRESH_SECS <= secs && secs <= MAX_REFRESH_SECS
}

} // verus!
