use dtm_server::download::{
    already_downloaded_event, plan_fetch, DownloadError, FetchPlan, FetchSession,
};

#[test]
fn test_exact_size_match_short_circuits() {
    // A local file already at the known remote size: nothing is fetched,
    // one 100% "already downloaded" event describes it.
    assert_eq!(plan_fetch(1000, 1000), FetchPlan::AlreadyComplete);
    let ev = already_downloaded_event("Cochrane A", 1000);
    assert_eq!(ev.package_name, "Cochrane A");
    assert_eq!(ev.bytes_downloaded, 1000);
    assert_eq!(ev.total_bytes, 1000);
    assert_eq!(ev.percentage, 100);
    assert_eq!(ev.speed_bps, 0);
    assert_eq!(ev.eta_seconds, None);
    assert_eq!(ev.status, "already downloaded");
}

#[test]
fn test_plan_fetch_decisions() {
    assert_eq!(plan_fetch(1000, 400), FetchPlan::Resume { offset: 400 });
    assert_eq!(plan_fetch(1000, 0), FetchPlan::Fresh { delete_partial: false });
    // A partial larger than the remote size is stale: delete and refetch.
    assert_eq!(plan_fetch(1000, 2000), FetchPlan::Fresh { delete_partial: true });
    // Unknown remote size: never short-circuit, never resume.
    assert_eq!(plan_fetch(0, 500), FetchPlan::Fresh { delete_partial: true });
    assert_eq!(plan_fetch(0, 0), FetchPlan::Fresh { delete_partial: false });
}

#[test]
fn test_resumed_fetch_reaches_total_and_reports_100() {
    // A partial file of 400 bytes of 1000: resume, receive the remaining
    // 600, and the final percentage is 100.
    let (mut session, opening) = FetchSession::begin_resume("P", 400, 1000, 0);
    assert_eq!(opening.status, "resuming");
    assert_eq!(opening.bytes_downloaded, 400);
    assert_eq!(opening.percentage, 40);

    let mid = session.on_chunk(300, 200).expect("past the throttle window");
    assert_eq!(mid.bytes_downloaded, 700);
    assert_eq!(mid.percentage, 70);
    assert_eq!(mid.status, "downloading");
    // 300 bytes in 200ms: 1500 bytes per second.
    assert_eq!(mid.speed_bps, 1500);
    assert_eq!(mid.eta_seconds, Some(0));

    // The final byte always emits, even within the throttle window.
    let last = session.on_chunk(300, 210).expect("final byte always reports");
    assert_eq!(last.bytes_downloaded, 1000);
    assert_eq!(last.percentage, 100);

    let done = session.finish();
    assert_eq!(done.bytes_downloaded, 1000);
    assert_eq!(done.total_bytes, 1000);
    assert_eq!(done.percentage, 100);
    assert_eq!(done.status, "completed");
}

#[test]
fn test_fresh_fetch_throttles_events() {
    let (mut session, opening) = FetchSession::begin_fresh("P", 1000, 0);
    assert_eq!(opening.status, "downloading");
    assert_eq!(opening.bytes_downloaded, 0);
    assert_eq!(opening.percentage, 0);

    // 50ms after the last report and not the final byte: suppressed.
    assert_eq!(session.on_chunk(100, 50), None);
    // 151ms later: reported.
    let ev = session.on_chunk(100, 201).expect("past the throttle window");
    assert_eq!(ev.bytes_downloaded, 200);
    assert_eq!(ev.percentage, 20);
    // Zero elapsed time would divide by zero: speed reports as zero.
    let (mut s2, _) = FetchSession::begin_fresh("P", 10, 5);
    let ev2 = s2.on_chunk(10, 5).expect("final byte");
    assert_eq!(ev2.speed_bps, 0);
    assert_eq!(ev2.eta_seconds, None);
}

#[test]
fn test_unknown_total_reports_zero_percentage() {
    let (mut session, _) = FetchSession::begin_fresh("P", 0, 0);
    let ev = session.on_chunk(500, 200).expect("past the throttle window");
    assert_eq!(ev.percentage, 0);
    assert_eq!(ev.total_bytes, 0);
    assert_eq!(ev.eta_seconds, None);
}

#[test]
fn test_download_error_messages() {
    assert_eq!(
        DownloadError::HttpError("timed out".to_string()).describe(),
        "HTTP request failed: timed out"
    );
    assert_eq!(DownloadError::IoError("denied".to_string()).describe(), "IO error: denied");
    assert_eq!(
        DownloadError::ZipError("bad magic".to_string()).describe(),
        "ZIP extraction failed: bad magic"
    );
    assert_eq!(
        DownloadError::DirectoryError("read-only".to_string()).describe(),
        "Directory error: read-only"
    );
    assert_eq!(
        DownloadError::RangeNotSupported.describe(),
        "Server does not support range requests"
    );
}
