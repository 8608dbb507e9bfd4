use vstd::prelude::*;
use crate::fingerprint::{
    fingerprint, has_readable, is_latest, latest_modification_time, lemma_latest_exists,
    ScanError, Timestamp,
};
use crate::staleness::{staleness, ArchiveStatus, StalenessError};

verus! {

/// What a finished build reports besides success.
#[derive(Clone, Copy, Debug, PartialEq, Eq, Structural)]
pub struct BuildReport {
    /// The time the installed archive was stamped with; `None` where the
    /// stamp could not be computed or set (the archive is usable, but the
    /// next run will likely rebuild it).
    pub stamp: Option<Timestamp>,
    /// The temporary file was copied into place but could not be removed.
    pub temp_left_behind: bool,
}

/// Why a build failed.
#[derive(Clone, Copy, Debug, PartialEq, Eq, Structural)]
pub enum BuildError {
    /// The archiving engine exited with a failure status; the target path
    /// was not touched.
    CompressionFailed,
    /// Neither renaming nor copying placed the archive at the target path;
    /// the temporary file is kept for recovery.
    InstallFailed,
}

/// How a build ended.
#[derive(Clone, Copy, Debug, PartialEq, Eq, Structural)]
pub enum BuildOutcome {
    /// The archive is installed at the target path.
    Built(BuildReport),
    /// The build failed.
    Failed(BuildError),
}

/// Where a build stands between two steps of the caller.
#[derive(Clone, Copy, Debug, PartialEq, Eq, Structural)]
pub enum BuildState {
    /// The engine is writing the archive to a fresh temporary file.
    Compressing,
    /// The engine failed; its temporary file is being removed.
    Discarding,
    /// The temporary file is being renamed onto the target path.
    Renaming,
    /// The rename failed; the temporary file is being copied instead.
    Copying,
    /// The copy succeeded; the temporary file is being removed.
    RemovingTemp,
    /// The archive is in place; the source subtree is scanned again.
    Scanning { temp_left_behind: bool },
    /// The archive's modification time is being set to `stamp`.
    Stamping { stamp: Timestamp, temp_left_behind: bool },
    /// The build is over.
    Finished(BuildOutcome),
}

/// What the caller observed after performing the last action.
pub enum BuildEvent {
    /// The engine exited, successfully or not.
    EngineExited(bool),
    /// The failed engine's temporary file was removed (or was not there).
    TempDiscarded,
    /// The rename onto the target path succeeded or failed.
    Renamed(bool),
    /// The copy onto the target path succeeded or failed.
    Copied(bool),
    /// Removing the copied temporary file succeeded or failed.
    TempRemoved(bool),
    /// The scan of the source subtree, one item per entry.
    Scanned(Vec<Option<Timestamp>>),
    /// Setting the archive's modification time succeeded or failed.
    StampSet(bool),
}

/// What the caller must do next.
#[derive(Clone, Copy, Debug, PartialEq, Eq, Structural)]
pub enum BuildAction {
    /// Run the engine on the content root, into a new temporary file.
    RunEngine,
    /// Remove the temporary file of the failed engine.
    DiscardTemp,
    /// Rename the temporary file onto the target path.
    RenameTemp,
    /// Copy the temporary file onto the target path.
    CopyTemp,
    /// Remove the temporary file after a successful copy.
    RemoveTemp,
    /// Scan the source subtree.
    ScanSource,
    /// Set the target file's modification time.
    SetArchiveTime(Timestamp),
    /// Report the outcome; nothing is left to do.
    Report(BuildOutcome),
}

/// The action that a state waits on.
pub open spec fn pending(state: BuildState) -> BuildAction {
    match state {
        BuildState::Compressing => BuildAction::RunEngine,
        BuildState::Discarding => BuildAction::DiscardTemp,
        BuildState::Renaming => BuildAction::RenameTemp,
        BuildState::Copying => BuildAction::CopyTemp,
        BuildState::RemovingTemp => BuildAction::RemoveTemp,
        BuildState::Scanning { .. } => BuildAction::ScanSource,
        BuildState::Stamping { stamp, .. } => BuildAction::SetArchiveTime(stamp),
        BuildState::Finished(r) => BuildAction::Report(r),
    }
}

/// Moves to `state` and asks for what it waits on.
pub open spec fn enter(state: BuildState) -> (BuildState, BuildAction) {
    (state, pending(state))
}

/// The build protocol. An event that does not answer the state's pending
/// action leaves the state as it is and asks for that action again.
pub open spec fn next(state: BuildState, event: BuildEvent) -> (BuildState, BuildAction) {
    match (state, event) {
        (BuildState::Compressing, BuildEvent::EngineExited(ok)) => if ok {
            enter(BuildState::Renaming)
        } else {
            enter(BuildState::Discarding)
        },
        (BuildState::Discarding, BuildEvent::TempDiscarded) => enter(
            BuildState::Finished(BuildOutcome::Failed(BuildError::CompressionFailed)),
        ),
        (BuildState::Renaming, BuildEvent::Renamed(ok)) => if ok {
            enter(BuildState::Scanning { temp_left_behind: false })
        } else {
            enter(BuildState::Copying)
        },
        (BuildState::Copying, BuildEvent::Copied(ok)) => if ok {
            enter(BuildState::RemovingTemp)
        } else {
            enter(BuildState::Finished(BuildOutcome::Failed(BuildError::InstallFailed)))
        },
        (BuildState::RemovingTemp, BuildEvent::TempRemoved(ok)) => enter(
            BuildState::Scanning { temp_left_behind: !ok },
        ),
        (BuildState::Scanning { temp_left_behind }, BuildEvent::Scanned(v)) => if has_readable(
            v@,
        ) {
            enter(BuildState::Stamping { stamp: fingerprint(v@), temp_left_behind })
        } else {
            enter(BuildState::Finished(BuildOutcome::Built(BuildReport { stamp: None, temp_left_behind })))
        },
        (BuildState::Stamping { stamp, temp_left_behind }, BuildEvent::StampSet(ok)) => enter(
            BuildState::Finished(
                BuildOutcome::Built(
                    BuildReport {
                        stamp: if ok {
                            Some(stamp)
                        } else {
                            None
                        },
                        temp_left_behind,
                    },
                ),
            ),
        ),
        _ => enter(state),
    }
}

/// Actions that write at the target path.
pub open spec fn touches_target(action: BuildAction) -> bool {
    match action {
        BuildAction::RenameTemp | BuildAction::CopyTemp | BuildAction::SetArchiveTime(_) => true,
        _ => false,
    }
}

/// The actions issued while answering `events` in turn, starting at `state`.
pub open spec fn run(state: BuildState, events: Seq<BuildEvent>) -> Seq<BuildAction>
    decreases events.len(),
{
    if events.len() == 0 {
        Seq::empty()
    } else {
        let (to, action) = next(state, events[0]);
        seq![action] + run(to, events.drop_first())
    }
}

/// The states of a build whose engine failed.
pub open spec fn engine_failed(state: BuildState) -> bool {
    state == BuildState::Discarding || state == BuildState::Finished(
        BuildOutcome::Failed(BuildError::CompressionFailed),
    )
}

/// Once the engine has failed, the build only discards its temporary file
/// and reports the failure: whatever the caller observes afterwards, no
/// action writes at the target path, so its prior contents (or absence) stay.
pub proof fn law_engine_failure_spares_target(events: Seq<BuildEvent>)
    ensures
        next(BuildState::Compressing, BuildEvent::EngineExited(false)) == enter(
            BuildState::Discarding,
        ),
        forall|i: int|
            0 <= i < events.len() ==> !touches_target(
                #[trigger] run(BuildState::Discarding, events)[i],
            ),
{
    lemma_failed_run_spares_target(BuildState::Discarding, events);
}

proof fn lemma_failed_run_spares_target(state: BuildState, events: Seq<BuildEvent>)
    requires
        engine_failed(state),
    ensures
        run(state, events).len() == events.len(),
        forall|i: int| 0 <= i < events.len() ==> !touches_target(#[trigger] run(state, events)[i]),
    decreases events.len(),
{
    if events.len() > 0 {
        let (to, action) = next(state, events[0]);
        assert(engine_failed(to) && !touches_target(action));
        lemma_failed_run_spares_target(to, events.drop_first());
        let rest = run(to, events.drop_first());
        assert(run(state, events) == seq![action] + rest);
        assert forall|i: int| 0 <= i < events.len() implies !touches_target(
            #[trigger] run(state, events)[i],
        ) by {
            if i > 0 {
                assert(run(state, events)[i] == rest[i - 1]);
            }
        }
    }
}

/// Once the archive is installed, the scan of the subtree decides its stamp:
/// the action sets exactly the subtree's latest modification time, and a
/// successful stamping ends the build reporting that time.
pub proof fn law_stamp_is_fingerprint(temp_left_behind: bool, scan: Vec<Option<Timestamp>>)
    requires
        has_readable(scan@),
    ensures
        ({
            let (stamping, action) = next(
                BuildState::Scanning { temp_left_behind },
                BuildEvent::Scanned(scan),
            );
            let t = fingerprint(scan@);
            &&& is_latest(scan@, t)
            &&& action == BuildAction::SetArchiveTime(t)
            &&& next(stamping, BuildEvent::StampSet(true)).1 == BuildAction::Report(
                BuildOutcome::Built(BuildReport { stamp: Some(t), temp_left_behind }),
            )
        }),
{
    lemma_latest_exists(scan@);
}

/// An archive stamped by a build is left alone by the next run as long as
/// the subtree's modification times stay as the build's scan found them.
pub proof fn law_unchanged_subtree_is_skipped(
    temp_left_behind: bool,
    scan: Vec<Option<Timestamp>>,
    stamp: Timestamp,
)
    requires
        next(BuildState::Scanning { temp_left_behind }, BuildEvent::Scanned(scan)).1
            == BuildAction::SetArchiveTime(stamp),
    ensures
        staleness(ArchiveStatus::Stamped(stamp), scan@) == Ok::<bool, StalenessError>(false),
{
}

/// The states in which the new archive is at the target path.
pub open spec fn installed(state: BuildState) -> bool {
    match state {
        BuildState::Scanning { .. } | BuildState::Stamping { .. } => true,
        BuildState::Finished(outcome) => outcome is Built,
        _ => false,
    }
}

/// The archive is stamped only once it is installed: a step that sets its
/// modification time starts from an installed state, and a build becomes
/// installed only on a successful rename, or on a successful copy once its
/// temporary file has been dealt with.
pub proof fn law_stamp_after_install(state: BuildState, event: BuildEvent)
    ensures
        next(state, event).1 is SetArchiveTime ==> installed(state),
        installed(next(state, event).0) && !installed(state) ==> (state == BuildState::Renaming
            && event == BuildEvent::Renamed(true)) || (state == BuildState::RemovingTemp
            && event is TempRemoved),
{
}

/// The first state of a build and its action: run the engine.
pub fn start() -> (r: (BuildState, BuildAction))
    ensures
        r == enter(BuildState::Compressing),
{
    (BuildState::Compressing, BuildAction::RunEngine)
}

/// The action that `state` waits on.
pub fn pending_action(state: BuildState) -> (r: BuildAction)
    ensures
        r == pending(state),
{
    match state {
        BuildState::Compressing => BuildAction::RunEngine,
        BuildState::Discarding => BuildAction::DiscardTemp,
        BuildState::Renaming => BuildAction::RenameTemp,
        BuildState::Copying => BuildAction::CopyTemp,
        BuildState::RemovingTemp => BuildAction::RemoveTemp,
        BuildState::Scanning { .. } => BuildAction::ScanSource,
        BuildState::Stamping { stamp, .. } => BuildAction::SetArchiveTime(stamp),
        BuildState::Finished(r) => BuildAction::Report(r),
    }
}

/// One step of the build: the next state, and the action to perform.
pub fn step(state: BuildState, event: BuildEvent) -> (r: (BuildState, BuildAction))
    ensures
        r == next(state, event),
{
    let to = match (state, event) {
        (BuildState::Compressing, BuildEvent::EngineExited(ok)) => if ok {
            BuildState::Renaming
        } else {
            BuildState::Discarding
        },
        (BuildState::Discarding, BuildEvent::TempDiscarded) => BuildState::Finished(
            BuildOutcome::Failed(BuildError::CompressionFailed),
        ),
        (BuildState::Renaming, BuildEvent::Renamed(ok)) => if ok {
            BuildState::Scanning { temp_left_behind: false }
        } else {
            BuildState::Copying
        },
        (BuildState::Copying, BuildEvent::Copied(ok)) => if ok {
            BuildState::RemovingTemp
        } else {
            BuildState::Finished(BuildOutcome::Failed(BuildError::InstallFailed))
        },
        (BuildState::RemovingTemp, BuildEvent::TempRemoved(ok)) => BuildState::Scanning {
            temp_left_behind: !ok,
        },
        (BuildState::Scanning { temp_left_behind }, BuildEvent::Scanned(v)) => {
            match latest_modification_time(&v) {
                Ok(stamp) => BuildState::Stamping { stamp, temp_left_behind },
                Err(ScanError::EmptySubtree) => BuildState::Finished(
                    BuildOutcome::Built(BuildReport { stamp: None, temp_left_behind }),
                ),
            }
        },
        (BuildState::Stamping { stamp, temp_left_behind }, BuildEvent::StampSet(ok)) => {
            let stamp = if ok {
                Some(stamp)
            } else {
                None
            };
            BuildState::Finished(BuildOutcome::Built(BuildReport { stamp, temp_left_behind }))
        },
        _ => state,
    };
    (to, pending_action(to))
}

} // verus!
