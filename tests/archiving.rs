use folder_compress::{
    archive_file_name, completion, count_folders, latest_modification_time, pending_action,
    should_compress, start, step, ArchiveStatus, BatchSummary, BuildAction, BuildError,
    BuildEvent, BuildOutcome, BuildReport, BuildState, Completion, JobOutcome, RunConfig,
    ScanError, StalenessError, Timestamp,
};

fn ts(nanos: i128) -> Timestamp {
    Timestamp { nanos }
}

/// Answers each action of a build with the given outcomes; returns the
/// actions issued and the final outcome.
fn drive(
    engine_ok: bool,
    rename_ok: bool,
    copy_ok: bool,
    remove_ok: bool,
    scan: Vec<Option<Timestamp>>,
    stamp_ok: bool,
) -> (Vec<BuildAction>, BuildOutcome) {
    let (mut state, mut action) = start();
    let mut actions = vec![action];
    loop {
        let event = match action {
            BuildAction::RunEngine => BuildEvent::EngineExited(engine_ok),
            BuildAction::DiscardTemp => BuildEvent::TempDiscarded,
            BuildAction::RenameTemp => BuildEvent::Renamed(rename_ok),
            BuildAction::CopyTemp => BuildEvent::Copied(copy_ok),
            BuildAction::RemoveTemp => BuildEvent::TempRemoved(remove_ok),
            BuildAction::ScanSource => BuildEvent::Scanned(scan.clone()),
            BuildAction::SetArchiveTime(_) => BuildEvent::StampSet(stamp_ok),
            BuildAction::Report(outcome) => return (actions, outcome),
        };
        let (to, next_action) = step(state, event);
        state = to;
        action = next_action;
        actions.push(action);
    }
}

fn touches_target(a: &BuildAction) -> bool {
    matches!(
        a,
        BuildAction::RenameTemp | BuildAction::CopyTemp | BuildAction::SetArchiveTime(_)
    )
}

#[test]
fn latest_is_the_maximum_readable_time() {
    let scan = vec![Some(ts(5)), None, Some(ts(9)), Some(ts(-3)), Some(ts(9))];
    assert_eq!(latest_modification_time(&scan), Ok(ts(9)));
}

#[test]
fn latest_of_empty_subtree_fails() {
    assert_eq!(latest_modification_time(&vec![]), Err(ScanError::EmptySubtree));
    assert_eq!(
        latest_modification_time(&vec![None, None]),
        Err(ScanError::EmptySubtree)
    );
}

#[test]
fn missing_archive_is_always_built() {
    assert_eq!(should_compress(ArchiveStatus::Missing, &vec![]), Ok(true));
    assert_eq!(
        should_compress(ArchiveStatus::Missing, &vec![Some(ts(4))]),
        Ok(true)
    );
}

#[test]
fn matching_stamp_is_skipped() {
    let scan = vec![Some(ts(100)), Some(ts(250)), None];
    assert_eq!(
        should_compress(ArchiveStatus::Stamped(ts(250)), &scan),
        Ok(false)
    );
}

#[test]
fn touching_a_file_earlier_makes_stale() {
    let mut scan = vec![Some(ts(100)), Some(ts(250))];
    assert_eq!(
        should_compress(ArchiveStatus::Stamped(ts(250)), &scan),
        Ok(false)
    );
    scan[1] = Some(ts(200));
    assert_eq!(
        should_compress(ArchiveStatus::Stamped(ts(250)), &scan),
        Ok(true)
    );
}

#[test]
fn touching_a_file_later_makes_stale() {
    let mut scan = vec![Some(ts(100)), Some(ts(250))];
    scan[0] = Some(ts(251));
    assert_eq!(
        should_compress(ArchiveStatus::Stamped(ts(250)), &scan),
        Ok(true)
    );
}

#[test]
fn archive_newer_than_subtree_is_stale() {
    let scan = vec![Some(ts(100))];
    assert_eq!(
        should_compress(ArchiveStatus::Stamped(ts(999)), &scan),
        Ok(true)
    );
}

#[test]
fn staleness_errors() {
    assert_eq!(
        should_compress(ArchiveStatus::Stamped(ts(1)), &vec![None]),
        Err(StalenessError::EmptySubtree)
    );
    assert_eq!(
        should_compress(ArchiveStatus::Unreadable, &vec![]),
        Err(StalenessError::EmptySubtree)
    );
    assert_eq!(
        should_compress(ArchiveStatus::Unreadable, &vec![Some(ts(1))]),
        Err(StalenessError::ArchiveUnreadable)
    );
}

#[test]
fn build_by_rename_stamps_the_fingerprint() {
    let scan = vec![Some(ts(10)), Some(ts(30)), None, Some(ts(20))];
    let (actions, outcome) = drive(true, true, true, true, scan, true);
    assert_eq!(
        actions,
        vec![
            BuildAction::RunEngine,
            BuildAction::RenameTemp,
            BuildAction::ScanSource,
            BuildAction::SetArchiveTime(ts(30)),
            BuildAction::Report(outcome),
        ]
    );
    assert_eq!(
        outcome,
        BuildOutcome::Built(BuildReport {
            stamp: Some(ts(30)),
            temp_left_behind: false
        })
    );
}

#[test]
fn build_falls_back_to_copy() {
    let (actions, outcome) = drive(true, false, true, true, vec![Some(ts(7))], true);
    assert_eq!(
        actions,
        vec![
            BuildAction::RunEngine,
            BuildAction::RenameTemp,
            BuildAction::CopyTemp,
            BuildAction::RemoveTemp,
            BuildAction::ScanSource,
            BuildAction::SetArchiveTime(ts(7)),
            BuildAction::Report(outcome),
        ]
    );
    assert_eq!(
        outcome,
        BuildOutcome::Built(BuildReport {
            stamp: Some(ts(7)),
            temp_left_behind: false
        })
    );
}

#[test]
fn temp_left_behind_when_removal_fails() {
    let (_, outcome) = drive(true, false, true, false, vec![Some(ts(7))], true);
    assert_eq!(
        outcome,
        BuildOutcome::Built(BuildReport {
            stamp: Some(ts(7)),
            temp_left_behind: true
        })
    );
}

#[test]
fn failed_copy_is_install_failure() {
    let (actions, outcome) = drive(true, false, false, true, vec![Some(ts(7))], true);
    assert_eq!(outcome, BuildOutcome::Failed(BuildError::InstallFailed));
    assert!(!actions.contains(&BuildAction::RemoveTemp));
    assert!(!actions.contains(&BuildAction::ScanSource));
}

#[test]
fn failed_engine_never_touches_target() {
    let (actions, outcome) = drive(false, true, true, true, vec![Some(ts(7))], true);
    assert_eq!(outcome, BuildOutcome::Failed(BuildError::CompressionFailed));
    assert_eq!(
        actions,
        vec![
            BuildAction::RunEngine,
            BuildAction::DiscardTemp,
            BuildAction::Report(outcome),
        ]
    );
    assert!(!actions.iter().any(touches_target));
}

#[test]
fn failed_stamp_is_a_warning_only() {
    let (_, outcome) = drive(true, true, true, true, vec![Some(ts(7))], false);
    assert_eq!(
        outcome,
        BuildOutcome::Built(BuildReport {
            stamp: None,
            temp_left_behind: false
        })
    );
    let (_, outcome) = drive(true, true, true, true, vec![None], true);
    assert_eq!(
        outcome,
        BuildOutcome::Built(BuildReport {
            stamp: None,
            temp_left_behind: false
        })
    );
}

#[test]
fn unexpected_event_repeats_the_pending_action() {
    let (to, action) = step(BuildState::Renaming, BuildEvent::StampSet(true));
    assert_eq!(to, BuildState::Renaming);
    assert_eq!(action, BuildAction::RenameTemp);
    assert_eq!(pending_action(to), BuildAction::RenameTemp);
    let done = BuildState::Finished(BuildOutcome::Failed(BuildError::InstallFailed));
    assert_eq!(step(done, BuildEvent::TempDiscarded).0, done);
}

#[test]
fn second_run_skips_unchanged_subtree() {
    let scan = vec![Some(ts(40)), Some(ts(12))];
    assert_eq!(should_compress(ArchiveStatus::Missing, &vec![]), Ok(true));
    let (_, outcome) = drive(true, true, true, true, scan.clone(), true);
    let stamp = match outcome {
        BuildOutcome::Built(report) => report.stamp.unwrap(),
        BuildOutcome::Failed(e) => panic!("build failed: {:?}", e),
    };
    assert_eq!(stamp, ts(40));
    assert_eq!(should_compress(ArchiveStatus::Stamped(stamp), &scan), Ok(false));
}

#[test]
fn two_subdirectories_built_then_skipped() {
    let t1 = ts(1_700_000_000_000_000_000);
    let t2 = ts(1_700_000_500_123_456_789);
    let a = vec![Some(ts(1_600_000_000_000_000_000)), Some(t1)];
    let b = vec![Some(t2), None, Some(t1)];
    let mut summary = BatchSummary::new();
    let mut stamps = vec![];
    for scan in [&a, &b] {
        assert_eq!(should_compress(ArchiveStatus::Missing, &vec![]), Ok(true));
        let (_, outcome) = drive(true, true, true, true, scan.clone(), true);
        match outcome {
            BuildOutcome::Built(report) => stamps.push(report.stamp.unwrap()),
            BuildOutcome::Failed(e) => panic!("build failed: {:?}", e),
        }
        summary.record(JobOutcome::Built);
    }
    assert_eq!(stamps, vec![t1, t2]);
    for (scan, stamp) in [(&a, t1), (&b, t2)] {
        assert_eq!(should_compress(ArchiveStatus::Stamped(stamp), scan), Ok(false));
        summary.record(JobOutcome::Skipped);
    }
    assert_eq!(
        summary,
        BatchSummary {
            built: 2,
            skipped: 2,
            failed: 0
        }
    );
}

#[test]
fn completion_follows_configuration() {
    let mut config = RunConfig {
        source: "src".to_string(),
        target: "dst".to_string(),
        shutdown: true,
        delay: None,
    };
    assert_eq!(completion(&config), Completion::Shutdown { delay_secs: 30 });
    config.delay = Some(90);
    assert_eq!(completion(&config), Completion::Shutdown { delay_secs: 90 });
    config.shutdown = false;
    assert_eq!(completion(&config), Completion::Notify { pause_secs: 5 });
}

#[test]
fn counts_only_directories() {
    assert_eq!(count_folders(&vec![]), 0);
    assert_eq!(count_folders(&vec![true, false, true, true]), 3);
}

#[test]
fn archive_name_appends_extension() {
    assert_eq!(archive_file_name("A"), "A.cbz");
    assert_eq!(archive_file_name("vol.2"), "vol.2.cbz");
}

#[test]
fn failed_jobs_are_tallied_and_the_run_goes_on() {
    let mut summary = BatchSummary::new();
    summary.record(JobOutcome::Failed);
    summary.record(JobOutcome::Built);
    assert_eq!(
        summary,
        BatchSummary {
            built: 1,
            skipped: 0,
            failed: 1
        }
    );
}
