use dtm_server::api_types::{default_spatial_reference, PackageInfo};
use dtm_server::package_client::{
    default_base_url, feature_to_package, next_page_offset, query_all_page_params,
    query_page_params, query_url, unique_sorted_projects, FeatureFields, PackageClientError,
    MAX_RECORD_COUNT,
};
use dtm_server::strutil::{u64_to_dec, u64_to_hex16};

#[test]
fn test_default_spatial_reference_is_web_mercator() {
    assert_eq!(default_spatial_reference(), 3857);
}

#[test]
fn test_query_url_appends_query() {
    assert_eq!(query_url("https://example.com/base"), "https://example.com/base/query");
    assert!(default_base_url().starts_with("https://"));
}

#[test]
fn test_query_page_params_exact() {
    let params = query_page_params("{geom}", 3857, 4000);
    let expected: Vec<(String, String)> = [
        ("f", "json"),
        ("where", "1=1"),
        ("outFields", "Package,Size_GB,Resolution,DownloadLink,Project,Shape__Area"),
        ("geometryType", "esriGeometryEnvelope"),
        ("geometry", "{geom}"),
        ("spatialRel", "esriSpatialRelIntersects"),
        ("inSR", "3857"),
        ("outSR", "3857"),
        ("returnGeometry", "true"),
        ("resultOffset", "4000"),
        ("resultRecordCount", "2000"),
    ]
    .iter()
    .map(|(k, v)| (k.to_string(), v.to_string()))
    .collect();
    assert_eq!(params, expected);
}

#[test]
fn test_query_all_page_params_exact() {
    let params = query_all_page_params(0);
    let expected: Vec<(String, String)> = [
        ("f", "json"),
        ("where", "1=1"),
        ("outFields", "Package,Size_GB,Resolution,DownloadLink,Project,Shape__Area"),
        ("returnGeometry", "true"),
        ("resultOffset", "0"),
        ("resultRecordCount", "2000"),
    ]
    .iter()
    .map(|(k, v)| (k.to_string(), v.to_string()))
    .collect();
    assert_eq!(params, expected);
}

#[test]
fn test_next_page_offset() {
    assert_eq!(next_page_offset(0, 120), None);
    assert_eq!(next_page_offset(0, MAX_RECORD_COUNT), Some(2000));
    assert_eq!(next_page_offset(2000, MAX_RECORD_COUNT), Some(4000));
    assert_eq!(next_page_offset(4000, 1999), None);
}

fn full_feature() -> FeatureFields {
    FeatureFields {
        package: Some("Test Package".to_string()),
        download_link: Some(r#"<a href="https://example.com/test.zip">Test</a>"#.to_string()),
        project: Some("Test Project 2016-18".to_string()),
        has_geometry: true,
    }
}

#[test]
fn test_feature_to_package_conversion() {
    let package = feature_to_package(&full_feature()).expect("accepted");
    assert_eq!(package.package_name, "Test Package");
    assert_eq!(package.download_url, "https://example.com/test.zip");
    assert_eq!(package.project, "Test Project 2016-18");
    assert_eq!(package.year_range, Some("2016-18".to_string()));
}

#[test]
fn test_feature_to_package_skips_missing_name() {
    let mut f = full_feature();
    f.package = None;
    assert!(feature_to_package(&f).is_none());
}

#[test]
fn test_feature_to_package_skips_invalid_url() {
    let mut f = full_feature();
    f.package = Some("Test".to_string());
    f.download_link = Some("no link here".to_string());
    assert!(feature_to_package(&f).is_none());
}

#[test]
fn test_feature_to_package_skips_other_bad_features() {
    let mut f = full_feature();
    f.package = Some(String::new());
    assert!(feature_to_package(&f).is_none());

    let mut f = full_feature();
    f.download_link = None;
    assert!(feature_to_package(&f).is_none());

    let mut f = full_feature();
    f.has_geometry = false;
    assert!(feature_to_package(&f).is_none());

    let mut f = full_feature();
    f.project = None;
    let p = feature_to_package(&f).expect("project is optional");
    assert_eq!(p.project, "");
    assert_eq!(p.year_range, None);
}

#[test]
fn test_package_client_error_messages() {
    assert_eq!(
        PackageClientError::RequestFailed("down".to_string()).describe(),
        "HTTP request failed: down"
    );
    assert_eq!(
        PackageClientError::JsonParseError("eof".to_string()).describe(),
        "Failed to parse JSON response: eof"
    );
    assert_eq!(
        PackageClientError::MissingField("Package".to_string()).describe(),
        "Missing required field: Package"
    );
    assert_eq!(
        PackageClientError::InvalidGeometry.describe(),
        "Invalid geometry in response"
    );
}

#[test]
fn test_unique_sorted_projects() {
    let pkg = |project: &str| PackageInfo {
        package_name: "P".to_string(),
        download_url: "https://example.com/p.zip".to_string(),
        project: project.to_string(),
        year_range: None,
    };
    let packages = vec![pkg("Zulu"), pkg("Alpha"), pkg("Mike"), pkg("Alpha"), pkg("Zulu")];
    assert_eq!(
        unique_sorted_projects(&packages),
        vec!["Alpha".to_string(), "Mike".to_string(), "Zulu".to_string()]
    );
    assert_eq!(unique_sorted_projects(&vec![]), Vec::<String>::new());
}

#[test]
fn test_number_rendering() {
    assert_eq!(u64_to_dec(0), "0");
    assert_eq!(u64_to_dec(2000), "2000");
    assert_eq!(u64_to_dec(u64::MAX), "18446744073709551615");
    assert_eq!(u64_to_hex16(0), "0000000000000000");
    assert_eq!(u64_to_hex16(0xdead_beef), "00000000deadbeef");
    assert_eq!(u64_to_hex16(u64::MAX), "ffffffffffffffff");
}
