use dtm_server::download::plan_fetch;
use dtm_server::extract::{
    already_extracted_event, check_extraction_complete, extraction_outputs,
    extraction_progress_event, is_raster_path, plan_member, should_report_extraction,
    ArchiveMember, MemberAction,
};

fn member(path: &str, is_dir: bool, size: u64, disk_size: Option<u64>) -> ArchiveMember {
    ArchiveMember {
        path: path.to_string(),
        enclosed: true,
        is_dir,
        size,
        disk_size,
    }
}

#[test]
fn test_is_raster_path() {
    assert!(is_raster_path("a/b/c.tif"));
    assert!(is_raster_path("c.tiff"));
    assert!(!is_raster_path("c.tifx"));
    assert!(!is_raster_path("c.txt"));
    assert!(!is_raster_path("ctif"));
    assert!(!is_raster_path(".tif"));
    assert!(!is_raster_path("dir/.tif"));
    assert!(is_raster_path("dir.d/x.tar.tif"));
    assert!(!is_raster_path("a.tif/readme"));
}

#[test]
fn test_extraction_idempotent_on_second_run() {
    // The state a successful extraction leaves behind: every file at its
    // declared size.
    let members = vec![
        member("out/dir", true, 0, None),
        member("out/a.tif", false, 10, Some(10)),
        member("out/notes.txt", false, 5, Some(5)),
        member("out/b.tiff", false, 7, Some(7)),
    ];

    // A second run finds extraction already complete and returns the same
    // raster set without any member needing a write.
    let found = check_extraction_complete(&members).expect("already complete");
    assert_eq!(found.tiff_files, vec!["out/a.tif".to_string(), "out/b.tiff".to_string()]);
    assert_eq!(found.tiff_files, extraction_outputs(&members));
    for m in &members {
        assert_ne!(plan_member(m), MemberAction::Write);
    }
    // And a third look is identical to the second.
    let again = check_extraction_complete(&members).expect("still complete");
    assert_eq!(again.tiff_files, found.tiff_files);
}

#[test]
fn test_check_extraction_incomplete_cases() {
    // A missing file fails the check.
    let missing = vec![member("out/a.tif", false, 10, None)];
    assert!(check_extraction_complete(&missing).is_none());
    // A stale size fails the check and plans a write.
    let stale = vec![member("out/a.tif", false, 10, Some(3))];
    assert!(check_extraction_complete(&stale).is_none());
    assert_eq!(plan_member(&stale[0]), MemberAction::Write);
    // No raster member at all: never "already extracted".
    let no_raster = vec![member("out/readme.txt", false, 4, Some(4))];
    assert!(check_extraction_complete(&no_raster).is_none());
    // A member that cannot be resolved safely fails the check but is
    // silently skipped by extraction.
    let unsafe_member = ArchiveMember {
        path: String::new(),
        enclosed: false,
        is_dir: false,
        size: 10,
        disk_size: None,
    };
    assert!(check_extraction_complete(&vec![unsafe_member.clone()]).is_none());
    assert_eq!(plan_member(&unsafe_member), MemberAction::Skip);
}

#[test]
fn test_plan_member_actions() {
    assert_eq!(plan_member(&member("out/d", true, 0, None)), MemberAction::MakeDir);
    assert_eq!(plan_member(&member("out/a.tif", false, 10, Some(10))), MemberAction::KeepExisting);
    assert_eq!(plan_member(&member("out/a.tif", false, 10, None)), MemberAction::Write);
}

#[test]
fn test_extraction_progress_throttle() {
    // Percentage must advance at least five points past the last report.
    assert!(should_report_extraction(1, 10, 0)); // 10% >= 0 + 5
    assert!(!should_report_extraction(1, 100, 0)); // 1% < 5
    assert!(should_report_extraction(5, 100, 0));
    assert!(!should_report_extraction(9, 100, 5));
    // The final member always reports.
    assert!(should_report_extraction(100, 100, 99));
    assert!(should_report_extraction(3, 3, 100));

    let ev = extraction_progress_event("P", 5, 10);
    assert_eq!(ev.bytes_downloaded, 5);
    assert_eq!(ev.total_bytes, 10);
    assert_eq!(ev.percentage, 50);
    assert_eq!(ev.status, "Extracting...");
}

#[test]
fn test_already_extracted_event_shape() {
    let ev = already_extracted_event("P");
    assert_eq!(ev.bytes_downloaded, 1);
    assert_eq!(ev.total_bytes, 1);
    assert_eq!(ev.percentage, 100);
    assert_eq!(ev.status, "already extracted");
    // The short-circuit pairs with the fetch short-circuit decision.
    assert_eq!(
        plan_fetch(1, 1),
        dtm_server::download::FetchPlan::AlreadyComplete
    );
}
