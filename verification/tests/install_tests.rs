use astra_launcher::error::UpdateError;
use astra_launcher::install::{
    download_update, uninstall_game, InstallAction, InstallEvent, InstallStage, InstallStep,
    Installer, UninstallAction,
};
use astra_launcher::progress::{DownloadProgress, DownloadStatus, Percentage};

fn run(installer: &mut Installer, events: Vec<InstallEvent>) -> Vec<InstallStep> {
    let mut steps = Vec::new();
    for event in events {
        assert!(installer.accepts(&event));
        steps.push(installer.step(event));
    }
    steps
}

fn successful_events(declared: Option<u64>, chunks: &[u64]) -> Vec<InstallEvent> {
    let mut events = vec![
        InstallEvent::Begin,
        InstallEvent::Done,
        InstallEvent::ResponseStarted(declared),
        InstallEvent::Done,
    ];
    for chunk in chunks {
        events.push(InstallEvent::ChunkStored(*chunk));
    }
    events.push(InstallEvent::StreamEnded);
    events.push(InstallEvent::Done);
    events.push(InstallEvent::Done);
    events.push(InstallEvent::Done);
    events
}

fn reports(steps: &[InstallStep]) -> Vec<DownloadProgress> {
    steps.iter().filter_map(|step| step.report).collect()
}

fn actions(steps: &[InstallStep]) -> Vec<InstallAction> {
    steps.iter().map(|step| step.action.clone()).collect()
}

fn percent(percentage: Percentage) -> f32 {
    (percentage.part as f32 / percentage.whole as f32) * 100.0
}

fn quiet(action: InstallAction) -> InstallStep {
    InstallStep { report: None, action }
}

fn at_stage(stage: InstallStage) -> Installer {
    Installer {
        version: "2.0.0".to_string(),
        download_url: "https://x/a.zip".to_string(),
        stage,
        total_bytes: 10,
        downloaded_bytes: 4,
    }
}

#[test]
fn fresh_install_is_idle() {
    assert_eq!(
        download_update("2.0.0", "https://x/a.zip"),
        Installer {
            version: "2.0.0".to_string(),
            download_url: "https://x/a.zip".to_string(),
            stage: InstallStage::Idle,
            total_bytes: 0,
            downloaded_bytes: 0,
        }
    );
}

#[test]
fn successful_install_asks_for_its_actions_in_order() {
    let mut installer = download_update("2.0.0", "https://x/a.zip");
    let steps = run(&mut installer, successful_events(Some(7), &[3, 4]));
    assert_eq!(
        actions(&steps),
        vec![
            InstallAction::CreateInstallDir,
            InstallAction::RequestArchive("https://x/a.zip".to_string()),
            InstallAction::CreateTempArchive,
            InstallAction::TransferChunk,
            InstallAction::TransferChunk,
            InstallAction::TransferChunk,
            InstallAction::ExtractArchive,
            InstallAction::RemoveTempArchive,
            InstallAction::WriteVersionRecord("2.0.0".to_string()),
            InstallAction::Finished,
        ]
    );
    assert_eq!(installer.stage, InstallStage::Complete);
    assert_eq!(installer.downloaded_bytes, 7);
    assert_eq!(installer.total_bytes, 7);
}

#[test]
fn successful_install_reports_its_progress() {
    let mut installer = download_update("2.0.0", "https://x/a.zip");
    let steps = run(&mut installer, successful_events(Some(7), &[3, 4]));
    assert_eq!(
        reports(&steps),
        vec![
            DownloadProgress {
                downloaded_bytes: 0,
                total_bytes: 0,
                percentage: Percentage { part: 0, whole: 1 },
                status: DownloadStatus::Starting,
            },
            DownloadProgress {
                downloaded_bytes: 3,
                total_bytes: 7,
                percentage: Percentage { part: 3, whole: 7 },
                status: DownloadStatus::Downloading,
            },
            DownloadProgress {
                downloaded_bytes: 7,
                total_bytes: 7,
                percentage: Percentage { part: 7, whole: 7 },
                status: DownloadStatus::Downloading,
            },
            DownloadProgress {
                downloaded_bytes: 7,
                total_bytes: 7,
                percentage: Percentage { part: 1, whole: 1 },
                status: DownloadStatus::Extracting,
            },
            DownloadProgress {
                downloaded_bytes: 7,
                total_bytes: 7,
                percentage: Percentage { part: 1, whole: 1 },
                status: DownloadStatus::Complete,
            },
        ]
    );
    assert_eq!(steps[0].report.map(|report| report.status), Some(DownloadStatus::Starting));
    assert_eq!(steps[1].report, None);
    assert_eq!(steps[9].report.map(|report| report.status), Some(DownloadStatus::Complete));
}

#[test]
fn progress_of_a_known_download_never_falls_and_ends_full() {
    let chunks: Vec<u64> = vec![1000, 0, 24, 4096, 1, 879];
    let total: u64 = chunks.iter().sum();
    let mut installer = download_update("2.0.0", "https://x/a.zip");
    let steps = run(&mut installer, successful_events(Some(total), &chunks));
    let reports = reports(&steps);
    assert_eq!(reports.len(), chunks.len() + 3);
    for pair in reports.windows(2) {
        assert!(pair[0].downloaded_bytes <= pair[1].downloaded_bytes);
    }
    let last = reports[reports.len() - 1];
    assert_eq!(last.status, DownloadStatus::Complete);
    assert_eq!(last.downloaded_bytes, total);
    assert_eq!(last.total_bytes, total);
    assert_eq!(percent(last.percentage), 100.0);
}

#[test]
fn percentage_is_the_share_of_the_total() {
    let report = DownloadProgress::downloading(50, 200);
    assert_eq!(report.percentage, Percentage { part: 50, whole: 200 });
    assert_eq!(percent(report.percentage), 25.0);
    assert_eq!(percent(DownloadProgress::downloading(0, 200).percentage), 0.0);
    assert_eq!(percent(DownloadProgress::downloading(200, 200).percentage), 100.0);
    assert_eq!(percent(DownloadProgress::downloading(300, 200).percentage), 150.0);
}

#[test]
fn unknown_length_keeps_the_percentage_at_zero() {
    let mut installer = download_update("2.0.0", "https://x/a.zip");
    let steps = run(&mut installer, successful_events(None, &[10, 20, 30]));
    let reports = reports(&steps);
    assert_eq!(reports.len(), 6);
    for report in &reports[..4] {
        assert_eq!(report.total_bytes, 0);
        assert_eq!(percent(report.percentage), 0.0);
    }
    assert_eq!(reports[1].downloaded_bytes, 10);
    assert_eq!(reports[2].downloaded_bytes, 30);
    assert_eq!(reports[3].downloaded_bytes, 60);
    assert_eq!(reports[4].status, DownloadStatus::Extracting);
    assert_eq!(percent(reports[4].percentage), 100.0);
    assert_eq!(reports[5].status, DownloadStatus::Complete);
    assert_eq!(percent(reports[5].percentage), 100.0);
    assert_eq!(reports[5].downloaded_bytes, 0);
    assert_eq!(installer.downloaded_bytes, 60);
}

#[test]
fn declared_length_of_zero_counts_as_unknown() {
    let mut installer = download_update("2.0.0", "https://x/a.zip");
    let steps = run(&mut installer, successful_events(Some(0), &[5]));
    let reports = reports(&steps);
    assert_eq!(reports[1], DownloadProgress {
        downloaded_bytes: 5,
        total_bytes: 0,
        percentage: Percentage { part: 0, whole: 1 },
        status: DownloadStatus::Downloading,
    });
}

#[test]
fn download_without_chunks_goes_straight_to_extraction() {
    let mut installer = download_update("2.0.0", "https://x/a.zip");
    let steps = run(&mut installer, successful_events(Some(9), &[]));
    assert_eq!(steps.len(), 8);
    assert_eq!(steps[4], InstallStep {
        report: Some(DownloadProgress::extracting(9)),
        action: InstallAction::ExtractArchive,
    });
    assert_eq!(installer.stage, InstallStage::Complete);
}

#[test]
fn reports_are_made_from_their_parts() {
    assert_eq!(DownloadProgress::starting(), DownloadProgress {
        downloaded_bytes: 0,
        total_bytes: 0,
        percentage: Percentage { part: 0, whole: 1 },
        status: DownloadStatus::Starting,
    });
    assert_eq!(DownloadProgress::extracting(12), DownloadProgress {
        downloaded_bytes: 12,
        total_bytes: 12,
        percentage: Percentage { part: 1, whole: 1 },
        status: DownloadStatus::Extracting,
    });
    assert_eq!(DownloadProgress::complete(12), DownloadProgress {
        downloaded_bytes: 12,
        total_bytes: 12,
        percentage: Percentage { part: 1, whole: 1 },
        status: DownloadStatus::Complete,
    });
}

#[test]
fn status_labels_are_the_shown_words() {
    assert_eq!(DownloadStatus::Starting.label(), "Starting download...");
    assert_eq!(DownloadStatus::Downloading.label(), "Downloading...");
    assert_eq!(DownloadStatus::Extracting.label(), "Extracting...");
    assert_eq!(DownloadStatus::Complete.label(), "Complete!");
}

#[test]
fn failure_at_any_pending_stage_ends_the_install() {
    let stages = [
        InstallStage::CreatingDirectory,
        InstallStage::Requesting,
        InstallStage::CreatingArchive,
        InstallStage::Transferring,
        InstallStage::Extracting,
        InstallStage::RemovingArchive,
        InstallStage::RecordingVersion,
    ];
    for stage in stages {
        let mut installer = at_stage(stage);
        let step = installer.step(InstallEvent::DiskFailed("disk full".to_string()));
        assert_eq!(step, quiet(InstallAction::Failed(UpdateError::Filesystem("disk full".to_string()))));
        assert_eq!(installer.stage, InstallStage::Failed);
        let mut installer = at_stage(stage);
        let step = installer.step(InstallEvent::NetworkFailed("reset".to_string()));
        assert_eq!(step, quiet(InstallAction::Failed(UpdateError::Network("reset".to_string()))));
        assert_eq!(installer.stage, InstallStage::Failed);
    }
}

#[test]
fn failed_extraction_never_writes_the_version_record() {
    let mut installer = download_update("2.0.0", "https://x/a.zip");
    let mut events = successful_events(Some(7), &[3, 4]);
    events.truncate(7);
    let steps = run(&mut installer, events);
    assert_eq!(steps[6].action, InstallAction::ExtractArchive);
    let failed = installer.step(InstallEvent::DiskFailed("invalid Zip archive".to_string()));
    assert_eq!(
        failed,
        quiet(InstallAction::Failed(UpdateError::Filesystem("invalid Zip archive".to_string())))
    );
    let later = run(&mut installer, vec![
        InstallEvent::Done,
        InstallEvent::Done,
        InstallEvent::Begin,
        InstallEvent::StreamEnded,
        InstallEvent::ChunkStored(1),
        InstallEvent::ResponseStarted(Some(3)),
        InstallEvent::DiskFailed("again".to_string()),
        InstallEvent::Done,
    ]);
    for step in later {
        assert_eq!(step, quiet(InstallAction::Nothing));
    }
    assert_eq!(installer.stage, InstallStage::Failed);
}

#[test]
fn network_failure_in_mid_stream_ends_the_install() {
    let mut installer = download_update("2.0.0", "https://x/a.zip");
    let mut events = successful_events(Some(7), &[3]);
    events.truncate(5);
    events.push(InstallEvent::NetworkFailed("connection reset".to_string()));
    events.push(InstallEvent::Done);
    events.push(InstallEvent::Done);
    let steps = run(&mut installer, events);
    assert_eq!(
        steps[5],
        quiet(InstallAction::Failed(UpdateError::Network("connection reset".to_string())))
    );
    assert_eq!(steps[6], quiet(InstallAction::Nothing));
    assert_eq!(steps[7], quiet(InstallAction::Nothing));
    assert!(!actions(&steps).iter().any(|action| matches!(action, InstallAction::WriteVersionRecord(_))));
    assert_eq!(installer.downloaded_bytes, 3);
}

#[test]
fn complete_install_is_final() {
    let mut installer = download_update("2.0.0", "https://x/a.zip");
    run(&mut installer, successful_events(Some(7), &[7]));
    let before = installer.clone();
    let later = run(&mut installer, vec![
        InstallEvent::Begin,
        InstallEvent::Done,
        InstallEvent::NetworkFailed("late".to_string()),
        InstallEvent::ChunkStored(5),
    ]);
    for step in later {
        assert_eq!(step, quiet(InstallAction::Nothing));
    }
    assert_eq!(installer, before);
}

#[test]
fn events_that_are_not_waited_for_change_nothing() {
    let mut installer = download_update("2.0.0", "https://x/a.zip");
    let steps = run(&mut installer, vec![
        InstallEvent::Done,
        InstallEvent::StreamEnded,
        InstallEvent::ChunkStored(9),
        InstallEvent::ResponseStarted(Some(9)),
        InstallEvent::DiskFailed("early".to_string()),
        InstallEvent::NetworkFailed("early".to_string()),
    ]);
    for step in steps {
        assert_eq!(step, quiet(InstallAction::Nothing));
    }
    assert_eq!(installer, download_update("2.0.0", "https://x/a.zip"));

    let mut installer = at_stage(InstallStage::Extracting);
    let steps = run(&mut installer, vec![
        InstallEvent::Begin,
        InstallEvent::ChunkStored(9),
        InstallEvent::StreamEnded,
        InstallEvent::ResponseStarted(None),
    ]);
    for step in steps {
        assert_eq!(step, quiet(InstallAction::Nothing));
    }
    assert_eq!(installer, at_stage(InstallStage::Extracting));

    let mut installer = at_stage(InstallStage::Transferring);
    assert_eq!(installer.step(InstallEvent::Done), quiet(InstallAction::Nothing));
    assert_eq!(installer.step(InstallEvent::Begin), quiet(InstallAction::Nothing));
    assert_eq!(installer, at_stage(InstallStage::Transferring));
}

#[test]
fn version_record_is_asked_for_after_the_archive_is_removed() {
    let mut installer = at_stage(InstallStage::Extracting);
    assert_eq!(installer.step(InstallEvent::Done), quiet(InstallAction::RemoveTempArchive));
    assert_eq!(
        installer.step(InstallEvent::Done),
        quiet(InstallAction::WriteVersionRecord("2.0.0".to_string()))
    );
    assert_eq!(installer.step(InstallEvent::Done), InstallStep {
        report: Some(DownloadProgress::complete(10)),
        action: InstallAction::Finished,
    });
}

#[test]
fn chunk_that_would_overflow_the_count_is_not_accepted() {
    let mut installer = at_stage(InstallStage::Transferring);
    installer.downloaded_bytes = u64::MAX - 1;
    assert!(!installer.accepts(&InstallEvent::ChunkStored(2)));
    assert!(installer.accepts(&InstallEvent::ChunkStored(1)));
    assert!(installer.accepts(&InstallEvent::StreamEnded));
    let step = installer.step(InstallEvent::ChunkStored(1));
    assert_eq!(step.report.map(|report| report.downloaded_bytes), Some(u64::MAX));
    let mut installer = at_stage(InstallStage::Extracting);
    installer.downloaded_bytes = u64::MAX;
    assert!(installer.accepts(&InstallEvent::ChunkStored(2)));
}

#[test]
fn pending_stages_are_those_at_work() {
    assert!(!InstallStage::Idle.pending());
    assert!(InstallStage::CreatingDirectory.pending());
    assert!(InstallStage::Requesting.pending());
    assert!(InstallStage::CreatingArchive.pending());
    assert!(InstallStage::Transferring.pending());
    assert!(InstallStage::Extracting.pending());
    assert!(InstallStage::RemovingArchive.pending());
    assert!(InstallStage::RecordingVersion.pending());
    assert!(!InstallStage::Complete.pending());
    assert!(!InstallStage::Failed.pending());
}

#[test]
fn uninstall_removes_the_directory_only_if_it_exists() {
    assert_eq!(uninstall_game(true), UninstallAction::RemoveInstallDir);
    assert_eq!(uninstall_game(false), UninstallAction::Nothing);
}
