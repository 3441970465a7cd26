//! The numbers that shape a sweep, and their usual values.

use vstd::prelude::*;

verus! {

/// The usual size of the pool, which is also the capacity of the queue.
pub const MAX_ITEMS_AT_ONCE: usize = 3;

/// The usual pause of a worker after a job, in seconds.
pub const COOLDOWN_SECS: u64 = 2;

/// The usual number of repositories in a full page of the listing.
pub const PAGE_SIZE: u64 = 50;

/// The host name of the hosting service.
pub const GITEA_URL: &'static str = "git.front.kjuulh.io";

/// The numbers that shape a sweep.
#[derive(Clone, Copy, Debug, PartialEq, Eq, Structural)]
pub struct Settings {
    /// How many workers run side by side. The queue holds as many
    /// repositories as there are workers.
    pub workers: usize,
    /// How long a worker pauses after a job, in seconds.
    pub cooldown_secs: u64,
    /// How many repositories a full page of the listing holds.
    pub page_size: u64,
}

impl Settings {
    /// A sweep needs at least one worker, and a page size of at least one:
    /// with no worker nothing would ever leave the queue, and a page cannot
    /// be shorter than no repository at all.
    pub open spec fn valid(self) -> bool {
        self.workers >= 1 && self.page_size >= 1
    }

    /// Whether a sweep can be run with these settings.
    pub fn is_valid(&self) -> (valid: bool)
        ensures
            valid == self.valid(),
    {
        self.workers >= 1 && self.page_size >= 1
    }
}

impl Default for Settings {
    /// Three workers, a pause of two seconds, pages of fifty.
    fn default() -> (settings: Settings)
        ensures
            settings == (Settings {
                workers: MAX_ITEMS_AT_ONCE,
                cooldown_secs: COOLDOWN_SECS,
                page_size: PAGE_SIZE,
            }),
            settings.valid(),
    {
        Settings { workers: MAX_ITEMS_AT_ONCE, cooldown_secs: COOLDOWN_SECS, page_size: PAGE_SIZE }
    }
}

} // verus!
