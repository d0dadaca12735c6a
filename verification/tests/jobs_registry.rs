use dtm_server::jobs::{create_job_identity, make_job, DownloadJob, JobRegistry};

fn job(path: &str, name: &str) -> DownloadJob {
    make_job(path.to_string(), name.to_string())
}

#[test]
fn test_lookup_of_unregistered_id_is_not_found() {
    let mut registry = JobRegistry::new();
    assert!(registry.lookup(&"no-such-id".to_string()).is_none());

    registry.register("id-1".to_string(), job("/tmp/a.tif", "a.tif"));
    registry.register("id-2".to_string(), job("/tmp/b.tif", "b.tif"));
    // An id no registration ever returned stays absent.
    assert!(registry.lookup(&"id-3".to_string()).is_none());
    assert!(registry.lookup(&"".to_string()).is_none());
}

#[test]
fn test_lookup_finds_registered_job() {
    let mut registry = JobRegistry::new();
    registry.register("id-1".to_string(), job("/tmp/a.tif", "a.tif"));
    let found = registry.lookup(&"id-1".to_string()).expect("registered");
    assert_eq!(found.output_path, "/tmp/a.tif");
    assert_eq!(found.filename, "a.tif");
}

#[test]
fn test_register_same_id_replaces() {
    let mut registry = JobRegistry::new();
    registry.register("id-1".to_string(), job("/tmp/a.tif", "a.tif"));
    registry.register("id-1".to_string(), job("/tmp/b.tif", "b.tif"));
    let found = registry.lookup(&"id-1".to_string()).expect("registered");
    assert_eq!(found.filename, "b.tif");
}

#[test]
fn test_fresh_job_ids_render_as_36_chars() {
    let (id, _) = create_job_identity();
    assert_eq!(id.len(), 36);
    let (other, _) = create_job_identity();
    assert_eq!(other.len(), 36);
    // Two random identifiers virtually never coincide.
    assert_ne!(id, other);
}

#[test]
fn test_job_identity_derives_filename_from_id() {
    let (id, filename) = create_job_identity();
    assert_eq!(id.len(), 36);
    assert_eq!(filename, format!("dtm_output_{}.tif", &id[..8]));
    let job = make_job("/tmp/x.tif".to_string(), filename.clone());
    assert_eq!(job.output_path, "/tmp/x.tif");
    assert_eq!(job.filename, filename);
}
