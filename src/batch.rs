use vstd::prelude::*;
use vstd::string::*;

verus! {

/// The extension of every archive, which also tells the engine the format.
pub const ARCHIVE_EXTENSION: &'static str = "cbz";

/// The folder inside each subdirectory whose contents are archived, so that
/// organisational folders above it are not part of the archive's paths.
pub const CONTENT_FOLDER: &'static str = "original";

/// Seconds before shutting down when the configuration names no delay.
pub const DEFAULT_SHUTDOWN_DELAY_SECS: u64 = 30;

/// Seconds to pause after the completion notification.
pub const NOTIFY_PAUSE_SECS: u64 = 5;

/// The configuration of one run; not changed once loaded.
#[derive(Debug)]
pub struct RunConfig {
    /// The directory whose immediate subdirectories are archived.
    pub source: String,
    /// The directory the archives are written into.
    pub target: String,
    /// Shut the host down when the run is over, instead of notifying.
    pub shutdown: bool,
    /// Seconds to wait before shutting down.
    pub delay: Option<u64>,
}

/// What to do once every subdirectory has been considered.
#[derive(Clone, Copy, Debug, PartialEq, Eq, Structural)]
pub enum Completion {
    /// Shut the host down after this many seconds.
    Shutdown { delay_secs: u64 },
    /// Show a completion notification, then pause this many seconds.
    Notify { pause_secs: u64 },
}

/// The completion action that a configuration selects.
pub open spec fn completion_spec(shutdown: bool, delay: Option<u64>) -> Completion {
    if shutdown {
        Completion::Shutdown {
            delay_secs: match delay {
                Some(d) => d,
                None => DEFAULT_SHUTDOWN_DELAY_SECS,
            },
        }
    } else {
        Completion::Notify { pause_secs: NOTIFY_PAUSE_SECS }
    }
}

/// The one action to perform at the end of the run.
pub fn completion(config: &RunConfig) -> (r: Completion)
    ensures
        r == completion_spec(config.shutdown, config.delay),
{
    if config.shutdown {
        let delay_secs = match config.delay {
            Some(d) => d,
            None => DEFAULT_SHUTDOWN_DELAY_SECS,
        };
        Completion::Shutdown { delay_secs }
    } else {
        Completion::Notify { pause_secs: NOTIFY_PAUSE_SECS }
    }
}

/// The number of `true` items: directories among the listed entries.
pub open spec fn dir_count(is_dir: Seq<bool>) -> nat
    decreases is_dir.len(),
{
    if is_dir.len() == 0 {
        0
    } else {
        dir_count(is_dir.drop_last()) + if is_dir.last() {
            1nat
        } else {
            0nat
        }
    }
}

/// How many of the source root's entries are subdirectories, for the
/// progress report. `is_dir` holds one item per entry of the listing.
pub fn count_folders(is_dir: &Vec<bool>) -> (r: u64)
    requires
        is_dir@.len() <= u64::MAX,
    ensures
        r == dir_count(is_dir@),
{
    let mut n: u64 = 0;
    let mut i: usize = 0;
    while i < is_dir.len()
        invariant
            i <= is_dir@.len() <= u64::MAX,
            n == dir_count(is_dir@.take(i as int)),
            n <= i,
        decreases is_dir@.len() - i,
    {
        assert(is_dir@.take(i as int + 1).drop_last() == is_dir@.take(i as int));
        if is_dir[i] {
            n = n + 1;
        }
        i = i + 1;
    }
    assert(is_dir@.take(is_dir@.len() as int) == is_dir@);
    n
}

/// The file name of the archive of a subdirectory: its name, a dot and the
/// archive extension.
pub fn archive_file_name(folder_name: &str) -> (r: String)
    ensures
        r@ == folder_name@ + "."@ + ARCHIVE_EXTENSION@,
{
    let name = folder_name.to_string();
    let name = name.concat(".");
    name.concat(ARCHIVE_EXTENSION)
}

/// How one subdirectory's job ended.
#[derive(Clone, Copy, Debug, PartialEq, Eq, Structural)]
pub enum JobOutcome {
    /// Its archive was built and installed.
    Built,
    /// Its archive was up to date.
    Skipped,
    /// The job failed; the run went on with the next subdirectory.
    Failed,
}

/// The tally of a run. A failed job does not stop the run: every
/// subdirectory is an independent unit of work.
#[derive(Clone, Copy, Debug, PartialEq, Eq, Structural)]
pub struct BatchSummary {
    pub built: u64,
    pub skipped: u64,
    pub failed: u64,
}

impl BatchSummary {
    /// The number of jobs recorded.
    pub open spec fn total(self) -> int {
        self.built + self.skipped + self.failed
    }

    /// A tally with no job recorded.
    pub fn new() -> (r: BatchSummary)
        ensures
            r == (BatchSummary { built: 0, skipped: 0, failed: 0 }),
    {
        BatchSummary { built: 0, skipped: 0, failed: 0 }
    }

    /// Counts one more job with the given outcome.
    pub fn record(&mut self, outcome: JobOutcome)
        requires
            old(self).total() < u64::MAX,
        ensures
            final(self).built == old(self).built + if outcome == JobOutcome::Built {
                1int
            } else {
                0int
            },
            final(self).skipped == old(self).skipped + if outcome == JobOutcome::Skipped {
                1int
            } else {
                0int
            },
            final(self).failed == old(self).failed + if outcome == JobOutcome::Failed {
                1int
            } else {
                0int
            },
            final(self).total() == old(self).total() + 1,
    {
        match outcome {
            JobOutcome::Built => self.built = self.built + 1,
            JobOutcome::Skipped => self.skipped = self.skipped + 1,
            JobOutcome::Failed => self.failed = self.failed + 1,
        }
    }
}

} // verus!
