use scip_fetch::fetch::{DownloadOutcome, TargetOs};
use scip_fetch::session::{classify_download, Action, Event, Phase, Session, SessionError};

fn completed(success: bool, status: &str) -> DownloadOutcome {
    DownloadOutcome::Completed { success, status: status.to_string() }
}

/// A session driven past a successful download and first extraction, now
/// waiting for the directory listing.
fn inspecting_session() -> Session {
    let (mut s, _) = Session::begin(
        "https://example.test/x.zip".to_string(),
        "/tmp/d".to_string(),
        TargetOs::Linux,
        &None,
    );
    let _ = s.step(Event::DownloadFinished { outcome: completed(true, "exit status: 0") });
    let _ = s.step(Event::ExtractionFinished { ok: true });
    s
}

#[test]
fn zero_exit_is_success() {
    let r = classify_download("curl", completed(true, "exit status: 0"));
    assert!(matches!(r, Ok(())));
}

#[test]
fn nonzero_exit_reports_the_status() {
    let r = classify_download("curl", completed(false, "exit status: 22"));
    match r {
        Err(SessionError::Fetch(e)) => {
            assert_eq!(e.message(), "curl download file exited with error status: exit status: 22");
        }
        _ => panic!("a failed exit must yield a fetch error"),
    }
}

#[test]
fn missing_binary_is_named() {
    let r = classify_download("curl.exe", DownloadOutcome::SpawnNotFound);
    match r {
        Err(SessionError::Fetch(e)) => {
            assert_eq!(e.message(), "`curl.exe` command not found");
        }
        _ => panic!("a missing binary must yield a fetch error"),
    }
}

#[test]
fn other_spawn_failures_are_propagated() {
    let r = classify_download("curl", DownloadOutcome::SpawnFailedOther);
    assert!(matches!(r, Err(SessionError::External)));
}

#[test]
fn begin_asks_for_the_download() {
    let (s, a) = Session::begin(
        "https://example.test/x.zip".to_string(),
        "/tmp/d".to_string(),
        TargetOs::Windows,
        &None,
    );
    assert!(matches!(s.phase, Phase::Downloading));
    match a {
        Action::RunDownloader { program, args } => {
            assert_eq!(program, "curl.exe");
            assert_eq!(
                args,
                vec![
                    "-sSL".to_string(),
                    "-o".to_string(),
                    "/tmp/d/libscip.zip".to_string(),
                    "https://example.test/x.zip".to_string(),
                ]
            );
        }
        _ => panic!("the downloader must run first"),
    }
}

#[test]
fn failed_download_halts_with_its_status() {
    let (mut s, _) = Session::begin(
        "https://example.test/x.zip".to_string(),
        "/tmp/d".to_string(),
        TargetOs::Linux,
        &None,
    );
    let a = s.step(Event::DownloadFinished { outcome: completed(false, "exit status: 7") });
    match a {
        Action::Finish { result: Err(SessionError::Fetch(e)) } => {
            assert_eq!(e.message(), "curl download file exited with error status: exit status: 7");
        }
        _ => panic!("a failed download must halt the run"),
    }
    assert!(matches!(s.phase, Phase::Done { ok: false }));
}

#[test]
fn corrupt_archive_halts_with_the_propagated_error() {
    let (mut s, _) = Session::begin(
        "https://example.test/x.zip".to_string(),
        "/tmp/d".to_string(),
        TargetOs::Linux,
        &None,
    );
    let _ = s.step(Event::DownloadFinished { outcome: completed(true, "exit status: 0") });
    let a = s.step(Event::ExtractionFinished { ok: false });
    assert!(matches!(a, Action::Finish { result: Err(SessionError::External) }));
    assert!(matches!(s.phase, Phase::Done { ok: false }));
}

#[test]
fn listing_failure_halts_the_run() {
    let mut s = inspecting_session();
    let a = s.step(Event::ListingFinished { entries: None });
    assert!(matches!(a, Action::Finish { result: Err(SessionError::External) }));
}

#[test]
fn single_zip_entry_is_extracted_flattened_then_removed() {
    let mut s = inspecting_session();
    let a = s.step(Event::ListingFinished { entries: Some(vec!["payload.zip".to_string()]) });
    match a {
        Action::ExtractArchive { archive, dest, flatten } => {
            assert_eq!(archive, "/tmp/d/payload.zip");
            assert_eq!(dest, "/tmp/d/scip_install");
            assert!(flatten);
        }
        _ => panic!("a single zip entry must be extracted again"),
    }
    let a = s.step(Event::NestedExtractionFinished { ok: true });
    match a {
        Action::RemoveFile { path } => assert_eq!(path, "/tmp/d/payload.zip"),
        _ => panic!("the nested archive must be removed after extraction"),
    }
    let a = s.step(Event::RemovalFinished { ok: true });
    assert!(matches!(a, Action::Finish { result: Ok(()) }));
    assert!(matches!(s.phase, Phase::Done { ok: true }));
}

#[test]
fn listed_downloaded_archive_does_not_block_the_nested_case() {
    let mut s = inspecting_session();
    let a = s.step(Event::ListingFinished {
        entries: Some(vec!["libscip.zip".to_string(), "payload.zip".to_string()]),
    });
    match a {
        Action::ExtractArchive { archive, dest, flatten } => {
            assert_eq!(archive, "/tmp/d/payload.zip");
            assert_eq!(dest, "/tmp/d/scip_install");
            assert!(flatten);
        }
        _ => panic!("the single entry besides the archive must be extracted"),
    }
}

#[test]
fn downloaded_archive_alone_is_never_deleted() {
    let mut s = inspecting_session();
    let a = s.step(Event::ListingFinished { entries: Some(vec!["libscip.zip".to_string()]) });
    assert!(matches!(a, Action::Finish { result: Ok(()) }));
    assert!(matches!(s.phase, Phase::Done { ok: true }));
}

#[test]
fn two_entries_end_the_run_without_removal() {
    let mut s = inspecting_session();
    let a = s.step(Event::ListingFinished {
        entries: Some(vec!["payload.zip".to_string(), "other.txt".to_string()]),
    });
    assert!(matches!(a, Action::Finish { result: Ok(()) }));
    assert!(matches!(s.phase, Phase::Done { ok: true }));
}

#[test]
fn single_non_zip_entry_ends_the_run_without_removal() {
    let mut s = inspecting_session();
    let a = s.step(Event::ListingFinished { entries: Some(vec!["payload.txt".to_string()]) });
    assert!(matches!(a, Action::Finish { result: Ok(()) }));
    assert!(matches!(s.phase, Phase::Done { ok: true }));
}

#[test]
fn nested_zip_scenario_runs_to_success() {
    let url = "https://example.test/x.zip".to_string();
    let (mut s, a) = Session::begin(url.clone(), "/tmp/d".to_string(), TargetOs::Linux, &None);
    match a {
        Action::RunDownloader { program, args } => {
            assert_eq!(program, "curl");
            assert_eq!(
                args,
                vec!["-sSL".to_string(), "-o".to_string(), "/tmp/d/libscip.zip".to_string(), url]
            );
        }
        _ => panic!("the downloader must run first"),
    }
    let a = s.step(Event::DownloadFinished { outcome: completed(true, "exit status: 0") });
    match a {
        Action::ExtractArchive { archive, dest, flatten } => {
            assert_eq!(archive, "/tmp/d/libscip.zip");
            assert_eq!(dest, "/tmp/d");
            assert!(!flatten);
        }
        _ => panic!("the downloaded archive must be extracted in place"),
    }
    let a = s.step(Event::ExtractionFinished { ok: true });
    match a {
        Action::ListEntries { dir } => assert_eq!(dir, "/tmp/d"),
        _ => panic!("the extraction directory must be inspected"),
    }
    let a = s.step(Event::ListingFinished {
        entries: Some(vec!["libscip.zip".to_string(), "inner.zip".to_string()]),
    });
    match a {
        Action::ExtractArchive { archive, dest, flatten } => {
            assert_eq!(archive, "/tmp/d/inner.zip");
            assert_eq!(dest, "/tmp/d/scip_install");
            assert!(flatten);
        }
        _ => panic!("the nested archive must be extracted flattened"),
    }
    let a = s.step(Event::NestedExtractionFinished { ok: true });
    match a {
        Action::RemoveFile { path } => assert_eq!(path, "/tmp/d/inner.zip"),
        _ => panic!("the nested archive must be removed"),
    }
    let a = s.step(Event::RemovalFinished { ok: true });
    assert!(matches!(a, Action::Finish { result: Ok(()) }));
    assert!(matches!(s.phase, Phase::Done { ok: true }));
}
