use dtm_server::api_types::{extract_download_url, extract_year_range};

#[test]
fn test_extract_url_from_anchor_tag() {
    let html = r#"<a href="https://ws.gisetl.lrc.gov.on.ca/fmedatadownload/Packages/LIDAR2016to18_DTM-Crne-A.zip" target = "_blank">Lidar DTM Cochrane 2016-18 Package A</a>"#;
    let url = extract_download_url(html);
    assert_eq!(
        url,
        Some("https://ws.gisetl.lrc.gov.on.ca/fmedatadownload/Packages/LIDAR2016to18_DTM-Crne-A.zip".to_string())
    );
}

#[test]
fn test_extract_url_with_single_quotes() {
    let html = r#"<a href='https://example.com/file.zip'>Download</a>"#;
    let url = extract_download_url(html);
    assert_eq!(url, Some("https://example.com/file.zip".to_string()));
}

#[test]
fn test_extract_url_no_match() {
    let html = "No link here";
    let url = extract_download_url(html);
    assert_eq!(url, None);
}

#[test]
fn test_extract_url_with_spaces_around_equals() {
    let html = r#"<a href = "https://example.com/file.zip" target = "_blank">Download</a>"#;
    let url = extract_download_url(html);
    assert_eq!(url, Some("https://example.com/file.zip".to_string()));
}

#[test]
fn test_extract_url_with_spaces_single_quotes() {
    let html = r#"<a href = 'https://example.com/file.zip'>Download</a>"#;
    let url = extract_download_url(html);
    assert_eq!(url, Some("https://example.com/file.zip".to_string()));
}

#[test]
fn test_extract_year_range_with_dash() {
    assert_eq!(
        extract_year_range("OMAFRA Lidar 2016-18"),
        Some("2016-18".to_string())
    );
    assert_eq!(
        extract_year_range("GTA 2014-2018"),
        Some("2014-2018".to_string())
    );
}

#[test]
fn test_extract_year_range_single_year() {
    assert_eq!(extract_year_range("LEAP 2009"), Some("2009".to_string()));
    assert_eq!(
        extract_year_range("Belleville 2022"),
        Some("2022".to_string())
    );
}

#[test]
fn test_extract_year_range_no_match() {
    assert_eq!(extract_year_range("Some Project"), None);
    assert_eq!(extract_year_range(""), None);
}

#[test]
fn test_extract_year_range_19xx() {
    assert_eq!(
        extract_year_range("Old Data 1999"),
        Some("1999".to_string())
    );
}

#[test]
fn test_extract_year_range_spaces_around_dash_removed() {
    assert_eq!(
        extract_year_range("North Shore 2016 - 18"),
        Some("2016-18".to_string())
    );
}

#[test]
fn test_extract_year_range_respects_word_boundaries() {
    assert_eq!(extract_year_range("x92016"), None);
    assert_eq!(extract_year_range("20167 and 2018"), Some("2018".to_string()));
}

#[test]
fn test_extract_url_unterminated_quote() {
    assert_eq!(extract_download_url(r#"<a href="https://example.com/x.zip"#), None);
    assert_eq!(extract_download_url("href = no-quote"), None);
}
