use vstd::prelude::*;
use crate::fingerprint::{
    fingerprint, has_readable, is_latest, latest_modification_time, lemma_latest_exists,
    lemma_latest_unique,
    ScanError, Timestamp,
};

verus! {

/// What the caller found at an archive's target path.
#[derive(Clone, Copy, Debug, PartialEq, Eq, Structural)]
pub enum ArchiveStatus {
    /// No file exists at the path.
    Missing,
    /// A file exists but its modification time could not be read.
    Unreadable,
    /// A file exists with this modification time.
    Stamped(Timestamp),
}

/// Why the staleness of an archive could not be decided.
#[derive(Clone, Copy, Debug, PartialEq, Eq, Structural)]
pub enum StalenessError {
    /// The source subtree has no readable modification time.
    EmptySubtree,
    /// The archive's modification time could not be read.
    ArchiveUnreadable,
}

/// The decision: a missing archive is always stale; otherwise the subtree is
/// scanned first, and the archive is stale exactly when its stamp differs from
/// the fingerprint, in either direction.
pub open spec fn staleness(archive: ArchiveStatus, source: Seq<Option<Timestamp>>) -> Result<
    bool,
    StalenessError,
> {
    match archive {
        ArchiveStatus::Missing => Ok(true),
        _ => if !has_readable(source) {
            Err(StalenessError::EmptySubtree)
        } else {
            match archive {
                ArchiveStatus::Stamped(a) => Ok(a != fingerprint(source)),
                _ => Err(StalenessError::ArchiveUnreadable),
            }
        },
    }
}

/// Whether a subdirectory must be archived again. `source` is the scan of its
/// subtree (see `latest_modification_time`); it is not consulted when the
/// archive is missing, so the caller may skip the walk then and pass it empty.
pub fn should_compress(archive: ArchiveStatus, source: &Vec<Option<Timestamp>>) -> (r: Result<
    bool,
    StalenessError,
>)
    ensures
        r == staleness(archive, source@),
{
    if let ArchiveStatus::Missing = archive {
        return Ok(true);
    }
    let latest = match latest_modification_time(source) {
        Ok(t) => t,
        Err(ScanError::EmptySubtree) => return Err(StalenessError::EmptySubtree),
    };
    match archive {
        ArchiveStatus::Stamped(a) => Ok(a.nanos != latest.nanos),
        _ => Err(StalenessError::ArchiveUnreadable),
    }
}

/// A subdirectory without an archive is always archived, whatever its
/// subtree holds.
pub proof fn law_missing_archive_is_stale(source: Seq<Option<Timestamp>>)
    ensures
        staleness(ArchiveStatus::Missing, source) == Ok::<bool, StalenessError>(true),
{
}

/// An archive stamped with exactly the subtree's latest modification time is
/// left alone.
pub proof fn law_matching_stamp_is_fresh(source: Seq<Option<Timestamp>>, stamp: Timestamp)
    requires
        is_latest(source, stamp),
    ensures
        staleness(ArchiveStatus::Stamped(stamp), source) == Ok::<bool, StalenessError>(false),
{
    lemma_latest_unique(source, stamp, fingerprint(source));
}

/// Starting from a fresh archive, changing the modification time of one
/// entry makes the archive stale whenever the change moves the fingerprint:
/// the new time is later than every other, or the entry alone held the
/// latest time and now holds another (earlier or later).
pub proof fn law_touch_makes_stale(
    source: Seq<Option<Timestamp>>,
    stamp: Timestamp,
    i: int,
    touched: Timestamp,
)
    requires
        is_latest(source, stamp),
        0 <= i < source.len(),
        source[i] is Some,
        source[i] != Some(touched),
        touched.nanos > stamp.nanos || (source[i] == Some(stamp) && forall|j: int|
            0 <= j < source.len() && j != i ==> source[j] != Some(stamp)),
    ensures
        staleness(ArchiveStatus::Stamped(stamp), source.update(i, Some(touched)))
            == Ok::<bool, StalenessError>(true),
{
    let after = source.update(i, Some(touched));
    assert(after[i] is Some);
    assert(has_readable(after));
    let fp = fingerprint(after);
    lemma_latest_exists(after);
    if fp == stamp {
        // some entry of the new scan holds `stamp`
        let k = choose|k: int| 0 <= k < after.len() && after[k] == Some(fp);
        if touched.nanos > stamp.nanos {
            assert(after[i] is Some);
        } else {
            assert(k != i);
            assert(source[k] == after[k]);
            assert(source[k] == Some(stamp));
        }
    }
}

} // verus!
