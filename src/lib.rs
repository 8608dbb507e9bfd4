//! Incremental archival of a directory tree: decide which immediate
//! subdirectories of a source root changed since they were last archived, and
//! drive the protocol that builds, installs and stamps their archives.
//!
//! All filesystem and process work is done by the caller; this library holds
//! the decisions and states them as contracts.

mod fingerprint;

pub use fingerprint::{
    fingerprint, has_readable, is_latest, latest_modification_time, lemma_latest_exists,
    lemma_latest_unique, ScanError, Timestamp,
};

mod staleness;

pub use staleness::{
    law_matching_stamp_is_fresh, law_missing_archive_is_stale, law_touch_makes_stale,
    should_compress, staleness, ArchiveStatus, StalenessError,
};

mod builder;

pub use builder::{
    engine_failed, enter, installed, law_engine_failure_spares_target, law_stamp_after_install,
    law_stamp_is_fingerprint, law_unchanged_subtree_is_skipped, next, pending, pending_action,
    run, start, step, touches_target, BuildAction, BuildError, BuildEvent, BuildOutcome, BuildReport, BuildState,
};

mod batch;

pub use batch::{
    archive_file_name, completion, completion_spec, count_folders, dir_count, BatchSummary,
    Completion, JobOutcome, RunConfig, ARCHIVE_EXTENSION, CONTENT_FOLDER,
    DEFAULT_SHUTDOWN_DELAY_SECS, NOTIFY_PAUSE_SECS,
};
