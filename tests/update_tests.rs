use std::collections::HashMap;

use self_updater::recovery::stale_files;
use self_updater::release::{feed_url, find_artifact, Artifact, Platform, Release};
use self_updater::swap::{advance_swap, begin_swap, FileRole, Outcome, Strategy, SwapPhase, SwapStep};
use self_updater::update::{Action, CyclePhase, Event, UpdateError, Updater};

const LINUX: Platform = Platform { windows: false, rename_open_executable: true };
const WINDOWS: Platform = Platform { windows: true, rename_open_executable: false };

fn release(tag: &str) -> Release {
    Release {
        tag: tag.to_string(),
        artifacts: vec![
            Artifact {
                name: "miapp-win.exe".to_string(),
                download_url: "https://example.org/win".to_string(),
            },
            Artifact {
                name: "miapp-linux".to_string(),
                download_url: "https://example.org/linux".to_string(),
            },
        ],
    }
}

/// Files beside the executable, kept in memory.
struct Files(HashMap<FileRole, Vec<u8>>);

impl Files {
    fn rename(&mut self, from: FileRole, to: FileRole) -> bool {
        match self.0.remove(&from) {
            Some(b) => {
                self.0.insert(to, b);
                true
            }
            None => false,
        }
    }

    /// Performs a swap step; `fail` names a step to make fail.
    fn perform(&mut self, step: SwapStep, fail: Option<SwapStep>) -> bool {
        if fail == Some(step) {
            return false;
        }
        match step {
            SwapStep::WriteMarker => {
                self.0.insert(FileRole::Marker, b"2024-01-01T00:00:00Z".to_vec());
                true
            }
            SwapStep::RenameExecutableToBackup => self.rename(FileRole::Executable, FileRole::Backup),
            SwapStep::RenameDownloadToExecutable => {
                self.rename(FileRole::Download, FileRole::Executable)
            }
            SwapStep::RemoveMarker => self.0.remove(&FileRole::Marker).is_some(),
            SwapStep::CopyExecutableToBackup => match self.0.get(&FileRole::Executable).cloned() {
                Some(b) => {
                    self.0.insert(FileRole::Backup, b);
                    true
                }
                None => false,
            },
            SwapStep::StartHelper => {
                self.0.insert(FileRole::Helper, b"#!/bin/bash".to_vec());
                true
            }
            SwapStep::Launch => self.0.contains_key(&FileRole::Executable),
            SwapStep::Finish(_) => true,
        }
    }

    fn cleanup(&mut self) {
        for role in stale_files() {
            let _ = self.0.remove(&role);
        }
    }
}

fn files_before_swap() -> Files {
    let mut m = HashMap::new();
    m.insert(FileRole::Executable, b"old binary".to_vec());
    m.insert(FileRole::Download, b"new binary".to_vec());
    Files(m)
}

/// Runs a swap to its end; gives the outcome and the steps performed.
fn run_swap(strategy: Strategy, files: &mut Files, fail: Option<SwapStep>) -> (Outcome, Vec<SwapStep>) {
    let (mut phase, mut step) = begin_swap();
    let mut steps = vec![];
    loop {
        if let SwapStep::Finish(o) = step {
            return (o, steps);
        }
        steps.push(step);
        let ok = files.perform(step, fail);
        let next = advance_swap(strategy, phase, ok);
        phase = next.0;
        step = next.1;
    }
}

#[test]
fn end_to_end_update_from_feed_to_relaunch() {
    let mut up = Updater::new("1.9.5", LINUX);
    let mut files = files_before_swap();
    let url = match up.step(Event::Start) {
        Action::FetchFeed(u) => u,
        other => panic!("{:?}", other),
    };
    assert_eq!(url, "https://api.github.com/repos/SHERCAN/AUTOMATIZACION-PRUEBAS/releases/latest");
    match up.step(Event::FeedArrived(release("v2.0.0"))) {
        Action::Download(u) => assert_eq!(u, "https://example.org/linux"),
        other => panic!("{:?}", other),
    }
    let mut action = up.step(Event::Downloaded);
    let mut launches = 0;
    let mut steps = vec![];
    loop {
        match action {
            Action::Perform(step) => {
                if step == SwapStep::Launch {
                    launches += 1;
                    assert_eq!(files.0.get(&FileRole::Executable).unwrap(), b"new binary");
                }
                steps.push(step);
                let ok = files.perform(step, None);
                action = up.step(if ok { Event::StepSucceeded } else { Event::StepFailed });
            }
            Action::Finish(o) => {
                assert_eq!(o, Outcome::TerminatedForNewVersion);
                break;
            }
            other => panic!("{:?}", other),
        }
    }
    assert_eq!(launches, 1);
    assert_eq!(
        steps,
        vec![
            SwapStep::WriteMarker,
            SwapStep::RenameExecutableToBackup,
            SwapStep::RenameDownloadToExecutable,
            SwapStep::RemoveMarker,
            SwapStep::Launch,
        ]
    );
    assert_eq!(up.phase, CyclePhase::Done(Outcome::TerminatedForNewVersion));
    assert_eq!(Outcome::TerminatedForNewVersion.exit_code(), Some(0));
}

#[test]
fn up_to_date_release_keeps_running() {
    let mut up = Updater::new("2.0.0", LINUX);
    up.step(Event::Start);
    match up.step(Event::FeedArrived(release("v2.0.0"))) {
        Action::Finish(o) => assert_eq!(o, Outcome::ContinuedOldVersion),
        other => panic!("{:?}", other),
    }
    assert_eq!(up.phase, CyclePhase::Done(Outcome::ContinuedOldVersion));
    assert_eq!(up.error, None);
    assert_eq!(Outcome::ContinuedOldVersion.exit_code(), None);
}

#[test]
fn feed_failure_keeps_running() {
    let mut up = Updater::new("1.0.0", LINUX);
    up.step(Event::Start);
    assert!(matches!(up.step(Event::FeedFailed), Action::Finish(Outcome::ContinuedOldVersion)));
    assert_eq!(up.error, Some(UpdateError::Network));
}

#[test]
fn malformed_feed_keeps_running() {
    let mut up = Updater::new("1.0.0", LINUX);
    up.step(Event::Start);
    assert!(matches!(up.step(Event::FeedMalformed), Action::Finish(Outcome::ContinuedOldVersion)));
    assert_eq!(up.error, Some(UpdateError::FeedFormat));
    assert!(matches!(up.step(Event::Start), Action::Finish(Outcome::ContinuedOldVersion)));
    assert_eq!(up.error, Some(UpdateError::FeedFormat));
}

#[test]
fn failed_swap_step_is_recorded() {
    let mut up = Updater::new("1.0.0", LINUX);
    up.step(Event::Start);
    up.step(Event::FeedArrived(release("1.0.1")));
    assert!(matches!(up.step(Event::Downloaded), Action::Perform(SwapStep::WriteMarker)));
    assert!(matches!(
        up.step(Event::StepSucceeded),
        Action::Perform(SwapStep::RenameExecutableToBackup)
    ));
    assert!(matches!(up.step(Event::StepFailed), Action::Finish(Outcome::ContinuedOldVersion)));
    assert_eq!(up.error, Some(UpdateError::Filesystem));
}

#[test]
fn missing_platform_artifact_keeps_running() {
    let mut up = Updater::new("1.0.0", LINUX);
    up.step(Event::Start);
    let mut rel = release("v3.0.0");
    rel.artifacts.remove(1);
    assert!(matches!(
        up.step(Event::FeedArrived(rel)),
        Action::Finish(Outcome::ContinuedOldVersion)
    ));
    assert_eq!(up.error, Some(UpdateError::ArtifactNotFound));
}

#[test]
fn download_failure_keeps_running() {
    let mut up = Updater::new("1.0.0", WINDOWS);
    up.step(Event::Start);
    match up.step(Event::FeedArrived(release("v3.0.0"))) {
        Action::Download(u) => assert_eq!(u, "https://example.org/win"),
        other => panic!("{:?}", other),
    }
    assert!(matches!(up.step(Event::DownloadFailed), Action::Finish(Outcome::ContinuedOldVersion)));
}

#[test]
fn swap_replaces_executable_and_keeps_backup() {
    let mut files = files_before_swap();
    let (o, _) = run_swap(Strategy::RenameInPlace, &mut files, None);
    assert_eq!(o, Outcome::TerminatedForNewVersion);
    assert_eq!(files.0.get(&FileRole::Executable).unwrap(), b"new binary");
    assert_eq!(files.0.get(&FileRole::Backup).unwrap(), b"old binary");
    assert!(!files.0.contains_key(&FileRole::Marker));
}

#[test]
fn deferred_swap_copies_backup_and_starts_helper() {
    let mut files = files_before_swap();
    let (o, steps) = run_swap(Strategy::DeferredHelper, &mut files, None);
    assert_eq!(o, Outcome::TerminatedForNewVersion);
    assert_eq!(
        steps,
        vec![SwapStep::WriteMarker, SwapStep::CopyExecutableToBackup, SwapStep::StartHelper]
    );
    assert_eq!(files.0.get(&FileRole::Backup).unwrap(), b"old binary");
}

#[test]
fn failed_install_after_backup_is_fatal() {
    let mut files = files_before_swap();
    let (o, _) = run_swap(Strategy::RenameInPlace, &mut files, Some(SwapStep::RenameDownloadToExecutable));
    assert_eq!(o, Outcome::FatalSwapFailure);
    assert!(!files.0.contains_key(&FileRole::Executable));
    assert!(files.0.contains_key(&FileRole::Marker));
    assert_eq!(Outcome::FatalSwapFailure.exit_code(), Some(1));
}

#[test]
fn failed_backup_leaves_executable_and_marker() {
    let mut files = files_before_swap();
    let (o, _) = run_swap(Strategy::RenameInPlace, &mut files, Some(SwapStep::RenameExecutableToBackup));
    assert_eq!(o, Outcome::ContinuedOldVersion);
    assert_eq!(files.0.get(&FileRole::Executable).unwrap(), b"old binary");
    assert!(files.0.contains_key(&FileRole::Marker));
}

#[test]
fn failed_marker_write_is_ignored() {
    let mut files = files_before_swap();
    let (o, _) = run_swap(Strategy::RenameInPlace, &mut files, Some(SwapStep::WriteMarker));
    assert_eq!(o, Outcome::TerminatedForNewVersion);
}

#[test]
fn launch_is_retried_once_then_fatal() {
    let (p, s) = advance_swap(Strategy::RenameInPlace, SwapPhase::Launching, false);
    assert_eq!((p, s), (SwapPhase::Relaunching, SwapStep::Launch));
    let (p, s) = advance_swap(Strategy::RenameInPlace, SwapPhase::Relaunching, true);
    assert_eq!(p, SwapPhase::Finished(Outcome::TerminatedForNewVersion));
    assert_eq!(s, SwapStep::Finish(Outcome::TerminatedForNewVersion));
    let (p, _) = advance_swap(Strategy::RenameInPlace, SwapPhase::Relaunching, false);
    assert_eq!(p, SwapPhase::Finished(Outcome::FatalSwapFailure));
}

#[test]
fn crash_residue_is_cleaned_at_startup() {
    let mut files = files_before_swap();
    files.0.insert(FileRole::Marker, b"2024-01-01T00:00:00Z".to_vec());
    files.0.insert(FileRole::Backup, b"older binary".to_vec());
    files.cleanup();
    assert!(!files.0.contains_key(&FileRole::Marker));
    assert!(!files.0.contains_key(&FileRole::Backup));
    assert_eq!(files.0.get(&FileRole::Executable).unwrap(), b"old binary");
}

#[test]
fn cleanup_twice_with_nothing_present_changes_nothing() {
    let mut files = Files(HashMap::new());
    files.0.insert(FileRole::Executable, b"bin".to_vec());
    files.cleanup();
    files.cleanup();
    assert_eq!(files.0.len(), 1);
    assert_eq!(stale_files(), vec![FileRole::Backup, FileRole::Marker]);
}

#[test]
fn file_extensions() {
    assert_eq!(FileRole::Download.extension(false), "new");
    assert_eq!(FileRole::Backup.extension(false), "old");
    assert_eq!(FileRole::Marker.extension(true), "updating");
    assert_eq!(FileRole::Helper.extension(true), "bat");
    assert_eq!(FileRole::Helper.extension(false), "sh");
    assert_eq!(FileRole::Executable.extension(false), "");
}

#[test]
fn artifact_lookup_is_exact_and_first() {
    let mut rel = release("v1");
    rel.artifacts.push(Artifact { name: "miapp-linux".to_string(), download_url: "second".to_string() });
    assert_eq!(find_artifact(&rel, "miapp-linux"), Some(1));
    assert_eq!(find_artifact(&rel, "miapp-win.exe"), Some(0));
    assert_eq!(find_artifact(&rel, "miapp"), None);
    assert_eq!(find_artifact(&rel, "MIAPP-LINUX"), None);
    assert_eq!(LINUX.artifact_name(), "miapp-linux");
    assert_eq!(WINDOWS.artifact_name(), "miapp-win.exe");
    assert_eq!(WINDOWS.strategy(), Strategy::DeferredHelper);
    assert_eq!(LINUX.strategy(), Strategy::RenameInPlace);
}

#[test]
fn feed_url_names_owner_and_repo() {
    assert_eq!(feed_url("o", "r"), "https://api.github.com/repos/o/r/releases/latest");
    let up = Updater::new("1.0.0", LINUX);
    assert_eq!(up.feed_url(), "https://api.github.com/repos/SHERCAN/AUTOMATIZACION-PRUEBAS/releases/latest");
}
