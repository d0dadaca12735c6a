use dtm_server::api_types::PackageInfo;
use dtm_server::cache::{
    content_disposition_for, extract_dir_for, output_filename_for, package_cache_key,
    sanitize_for_path, zip_path_for,
};

fn test_package(package_name: &str, download_url: &str) -> PackageInfo {
    PackageInfo {
        package_name: package_name.to_string(),
        download_url: download_url.to_string(),
        project: "Test Project".to_string(),
        year_range: Some("2023".to_string()),
    }
}

#[test]
fn test_package_cache_key_changes_with_url() {
    let pkg_a = test_package("GTA A", "https://example.com/a.zip");
    let pkg_b = test_package("GTA A", "https://example.com/b.zip");
    assert_ne!(package_cache_key(&pkg_a), package_cache_key(&pkg_b));
}

#[test]
fn test_package_cache_key_is_stable_for_same_input() {
    let pkg = test_package("GTA / 2023", "https://example.com/a.zip");
    assert_eq!(package_cache_key(&pkg), package_cache_key(&pkg));
}

#[test]
fn test_package_cache_key_shape() {
    let pkg = test_package("GTA / 2023", "https://example.com/a.zip");
    let key = package_cache_key(&pkg);
    assert!(key.starts_with("GTA___2023_"));
    assert_eq!(key.len(), "GTA / 2023".len() + 1 + 16);
    assert!(key.chars().all(|c| c.is_ascii_alphanumeric() || c == '-' || c == '_'));
}

#[test]
fn test_package_cache_key_no_collisions_across_urls() {
    let mut keys: Vec<String> = Vec::new();
    for i in 0..120 {
        let url = format!("https://example.com/pkg-{}.zip", i);
        let pkg = test_package("Same Name", &url);
        let key = package_cache_key(&pkg);
        assert!(!keys.contains(&key), "collision for {}", url);
        keys.push(key);
    }
}

#[test]
fn test_sanitize_for_path_replaces_separators() {
    assert_eq!(sanitize_for_path("A/B C"), "A_B_C");
}

#[test]
fn test_sanitize_for_path_keeps_length_and_charset() {
    let input = "a/b c.d!e(f)g";
    let out = sanitize_for_path(input);
    assert_eq!(out.chars().count(), input.chars().count());
    assert_eq!(out, "a_b_c_d_e_f_g");
    assert_eq!(sanitize_for_path(""), "");
    assert_eq!(sanitize_for_path("ok-name_1"), "ok-name_1");
}

#[test]
fn test_cache_paths() {
    assert_eq!(zip_path_for("/cache/zips", "k1"), "/cache/zips/k1.zip");
    assert_eq!(extract_dir_for("/cache/extracts", "k1"), "/cache/extracts/k1");
}

#[test]
fn test_output_filename_uses_id_prefix() {
    assert_eq!(
        output_filename_for("0123456789abcdef"),
        "dtm_output_01234567.tif"
    );
}

#[test]
fn test_content_disposition_header() {
    assert_eq!(
        content_disposition_for("dtm_output_01234567.tif"),
        "attachment; filename=\"dtm_output_01234567.tif\""
    );
}
