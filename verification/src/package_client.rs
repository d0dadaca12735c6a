//! The query client's core: the exact form parameters of an index query, the
//! pagination decision, and the conversion of a raw index feature into a
//! package. The HTTP round trip and the JSON decoding stay with the caller,
//! which hands this module the decoded attribute strings.

use vstd::prelude::*;
use crate::api_types::{
    PackageInfo,
    spec_extract_download_url,
    spec_extract_year_range,
    extract_download_url,
    extract_year_range,
};
use crate::strutil::{push_str, u64_to_dec, spec_dec};

verus! {

/// Errors of the package index client.
#[derive(Debug, Clone, PartialEq)]
pub enum PackageClientError {
    /// The HTTP request failed; the transport's message.
    RequestFailed(String),
    /// The response was not the JSON shape expected; the decoder's message.
    JsonParseError(String),
    /// A required field was missing from the response.
    MissingField(String),
    /// The response carried a geometry the client cannot read.
    InvalidGeometry,
}

impl PackageClientError {
    /// The human-readable message for a query failure.
    pub fn describe(&self) -> (r: String)
        ensures
            r@ == match self {
                PackageClientError::RequestFailed(m) => "HTTP request failed: "@ + m@,
                PackageClientError::JsonParseError(m) => "Failed to parse JSON response: "@ + m@,
                PackageClientError::MissingField(m) => "Missing required field: "@ + m@,
                PackageClientError::InvalidGeometry => "Invalid geometry in response"@,
            },
    {
        match self {
            PackageClientError::RequestFailed(m) => {
                let mut s: String = "HTTP request failed: ".to_owned();
                push_str(&mut s, m.as_str());
                s
            },
            PackageClientError::JsonParseError(m) => {
                let mut s: String = "Failed to parse JSON response: ".to_owned();
                push_str(&mut s, m.as_str());
                s
            },
            PackageClientError::MissingField(m) => {
                let mut s: String = "Missing required field: ".to_owned();
                push_str(&mut s, m.as_str());
                s
            },
            PackageClientError::InvalidGeometry => "Invalid geometry in response".to_owned(),
        }
    }
}

/// The most records one index request may return.
pub const MAX_RECORD_COUNT: usize = 2000;

/// The index endpoint the client queries by default.
pub fn default_base_url() -> (r: &'static str)
    ensures
        r@
            == "https://services1.arcgis.com/TJH5KDher0W13Kgo/arcgis/rest/services/Ontario_Digital_Terrain_Model_Lidar_Derived_WFL1/FeatureServer/0"@,
{
    "https://services1.arcgis.com/TJH5KDher0W13Kgo/arcgis/rest/services/Ontario_Digital_Terrain_Model_Lidar_Derived_WFL1/FeatureServer/0"
}

/// The URL a query is posted to, under a base URL.
pub fn query_url(base_url: &str) -> (r: String)
    ensures
        r@ == base_url@ + "/query"@,
{
    let mut u = base_url.to_owned();
    push_str(&mut u, "/query");
    u
}

/// The next page's offset: after a full page the scan continues past the
/// records received; a short page was the last.
pub fn next_page_offset(offset: usize, count: usize) -> (r: Option<usize>)
    requires
        offset + count <= usize::MAX,
    ensures
        r == if count < MAX_RECORD_COUNT {
            None::<usize>
        } else {
            Some((offset + count) as usize)
        },
{
    if count < MAX_RECORD_COUNT {
        None
    } else {
        Some(offset + count)
    }
}

/// The form parameters of a spatial query page: the fixed query fields, the
/// caller's geometry and spatial reference, and the page's offset.
pub open spec fn spec_query_page_params(geometry: Seq<char>, srid: u32, offset: int) -> Seq<
    (Seq<char>, Seq<char>),
> {
    seq![
        ("f"@, "json"@),
        ("where"@, "1=1"@),
        ("outFields"@, "Package,Size_GB,Resolution,DownloadLink,Project,Shape__Area"@),
        ("geometryType"@, "esriGeometryEnvelope"@),
        ("geometry"@, geometry),
        ("spatialRel"@, "esriSpatialRelIntersects"@),
        ("inSR"@, spec_dec(srid as int)),
        ("outSR"@, spec_dec(srid as int)),
        ("returnGeometry"@, "true"@),
        ("resultOffset"@, spec_dec(offset)),
        ("resultRecordCount"@, spec_dec(MAX_RECORD_COUNT as int)),
    ]
}

fn param(key: &str, value: String) -> (r: (String, String))
    ensures
        r.0@ == key@,
        r.1 == value,
{
    (key.to_owned(), value)
}

/// Builds the form parameters of one spatial query page.
pub fn query_page_params(geometry: &str, srid: u32, offset: usize) -> (r: Vec<(String, String)>)
    ensures
        r.deep_view() == spec_query_page_params(geometry@, srid, offset as int),
{
    let mut ps: Vec<(String, String)> = Vec::new();
    ps.push(param("f", "json".to_owned()));
    ps.push(param("where", "1=1".to_owned()));
    ps.push(
        param("outFields", "Package,Size_GB,Resolution,DownloadLink,Project,Shape__Area".to_owned()),
    );
    ps.push(param("geometryType", "esriGeometryEnvelope".to_owned()));
    ps.push(param("geometry", geometry.to_owned()));
    ps.push(param("spatialRel", "esriSpatialRelIntersects".to_owned()));
    ps.push(param("inSR", u64_to_dec(srid as u64)));
    ps.push(param("outSR", u64_to_dec(srid as u64)));
    ps.push(param("returnGeometry", "true".to_owned()));
    ps.push(param("resultOffset", u64_to_dec(offset as u64)));
    ps.push(param("resultRecordCount", u64_to_dec(MAX_RECORD_COUNT as u64)));
    proof {
        assert(ps.deep_view() =~~= spec_query_page_params(geometry@, srid, offset as int));
    }
    ps
}

/// The form parameters of a page of the unfiltered query.
pub open spec fn spec_query_all_page_params(offset: int) -> Seq<(Seq<char>, Seq<char>)> {
    seq![
        ("f"@, "json"@),
        ("where"@, "1=1"@),
        ("outFields"@, "Package,Size_GB,Resolution,DownloadLink,Project,Shape__Area"@),
        ("returnGeometry"@, "true"@),
        ("resultOffset"@, spec_dec(offset)),
        ("resultRecordCount"@, spec_dec(MAX_RECORD_COUNT as int)),
    ]
}

/// Builds the form parameters of one page of the unfiltered query.
pub fn query_all_page_params(offset: usize) -> (r: Vec<(String, String)>)
    ensures
        r.deep_view() == spec_query_all_page_params(offset as int),
{
    let mut ps: Vec<(String, String)> = Vec::new();
    ps.push(param("f", "json".to_owned()));
    ps.push(param("where", "1=1".to_owned()));
    ps.push(
        param("outFields", "Package,Size_GB,Resolution,DownloadLink,Project,Shape__Area".to_owned()),
    );
    ps.push(param("returnGeometry", "true".to_owned()));
    ps.push(param("resultOffset", u64_to_dec(offset as u64)));
    ps.push(param("resultRecordCount", u64_to_dec(MAX_RECORD_COUNT as u64)));
    proof {
        assert(ps.deep_view() =~~= spec_query_all_page_params(offset as int));
    }
    ps
}

/// One string is lexicographically at most another, by code points — the
/// order `String`'s byte comparison gives on UTF-8 text.
#[verifier::opaque]
pub open spec fn spec_str_le(a: Seq<char>, b: Seq<char>) -> bool
    decreases a.len(),
{
    if a.len() == 0 {
        true
    } else if b.len() == 0 {
        false
    } else if (a[0] as u32) < (b[0] as u32) {
        true
    } else if a[0] == b[0] {
        spec_str_le(a.drop_first(), b.drop_first())
    } else {
        false
    }
}

/// Some name in the list reads as the given text.
pub open spec fn spec_has_name(names: Seq<String>, x: Seq<char>) -> bool {
    exists|k: int| 0 <= k < names.len() && (#[trigger] names[k])@ == x
}

/// Some package in the list has the given project text.
pub open spec fn spec_has_project(packages: Seq<PackageInfo>, x: Seq<char>) -> bool {
    exists|j: int| 0 <= j < packages.len() && (#[trigger] packages[j]).project@ == x
}

/// Relies on `<[String]>::sort`: sorts in place by `String`'s `Ord` —
/// lexicographic byte order, which on UTF-8 text is lexicographic code-point
/// order — and the result is a permutation of the input.
#[verifier::external_body]
fn sort_strings(v: &mut Vec<String>)
    ensures
        final(v)@.to_multiset() == old(v)@.to_multiset(),
        forall|i: int, j: int|
            0 <= i < j < final(v)@.len() ==> spec_str_le(
                (#[trigger] final(v)@[i])@,
                (#[trigger] final(v)@[j])@,
            ),
{
    v.sort();
}

/// Drops consecutive equal names from a sorted list, keeping order, the set
/// of names, and their sortedness; no two neighbours of the result are equal.
fn dedup_sorted(v: &Vec<String>) -> (r: Vec<String>)
    requires
        forall|i: int, j: int|
            0 <= i < j < v@.len() ==> spec_str_le((#[trigger] v@[i])@, (#[trigger] v@[j])@),
    ensures
        forall|k1: int, k2: int|
            0 <= k1 < k2 < r@.len() ==> spec_str_le((#[trigger] r@[k1])@, (#[trigger] r@[k2])@),
        forall|k: int| 0 <= k < r@.len() - 1 ==> (#[trigger] r@[k])@ != r@[k + 1]@,
        forall|k: int| 0 <= k < r@.len() ==> spec_has_name(v@, (#[trigger] r@[k])@),
        forall|j: int| 0 <= j < v@.len() ==> spec_has_name(r@, (#[trigger] v@[j])@),
{
    let mut out: Vec<String> = Vec::new();
    let ghost mut picked: Seq<int> = Seq::empty();
    let mut i: usize = 0;
    while i < v.len()
        invariant
            i <= v@.len(),
            picked.len() == out@.len(),
            forall|k: int|
                0 <= k < picked.len() ==> 0 <= #[trigger] picked[k] < i && out@[k] == v@[picked[k]],
            forall|k1: int, k2: int| 0 <= k1 < k2 < picked.len() ==> picked[k1] < picked[k2],
            forall|k: int| 0 <= k < out@.len() - 1 ==> (#[trigger] out@[k])@ != out@[k + 1]@,
            forall|j: int| 0 <= j < i ==> spec_has_name(out@, (#[trigger] v@[j])@),
        decreases v@.len() - i,
    {
        let take_it = if out.is_empty() {
            true
        } else {
            !crate::strutil::str_eq(out[out.len() - 1].as_str(), v[i].as_str())
        };
        if take_it {
            let ghost prev = out@;
            out.push(v[i].clone());
            proof {
                picked = picked.push(i as int);
                assert(out@[out@.len() - 1] == v@[i as int]);
                assert forall|k: int| 0 <= k < out@.len() - 1 implies (#[trigger] out@[k])@ != out@[
                    k + 1
                ]@ by {
                    if k == out@.len() - 2 && k >= 0 {
                        assert(out@[k] == prev[prev.len() - 1]);
                    }
                }
                assert forall|j: int| 0 <= j < i + 1 implies spec_has_name(
                    out@,
                    (#[trigger] v@[j])@,
                ) by {
                    if j == i {
                        assert((out@[out@.len() - 1])@ == v@[j]@);
                    } else {
                        let k = choose|k: int| 0 <= k < prev.len() && (#[trigger] prev[k])@ == v@[j]@;
                        assert((out@[k])@ == v@[j]@);
                    }
                }
            }
        } else {
            proof {
                assert forall|j: int| 0 <= j < i + 1 implies spec_has_name(
                    out@,
                    (#[trigger] v@[j])@,
                ) by {
                    if j == i {
                        assert((out@[out@.len() - 1])@ == v@[j]@);
                    }
                }
            }
        }
        i = i + 1;
    }
    proof {
        assert forall|k1: int, k2: int|
            0 <= k1 < k2 < out@.len() implies spec_str_le(
            (#[trigger] out@[k1])@,
            (#[trigger] out@[k2])@,
        ) by {
            assert(out@[k1] == v@[picked[k1]]);
            assert(out@[k2] == v@[picked[k2]]);
            assert(spec_str_le(v@[picked[k1]]@, v@[picked[k2]]@));
        }
        assert forall|k: int| 0 <= k < out@.len() implies spec_has_name(
            v@,
            (#[trigger] out@[k])@,
        ) by {
            let j = picked[k];
            assert(0 <= j < v@.len());
            assert((v@[j])@ == out@[k]@);
        }
    }
    out
}

/// The distinct project names over a set of packages, sorted: the list the
/// query response reports beside the packages themselves.
#[verifier::rlimit(30)]
pub fn unique_sorted_projects(packages: &Vec<PackageInfo>) -> (r: Vec<String>)
    ensures
        forall|k1: int, k2: int|
            0 <= k1 < k2 < r@.len() ==> spec_str_le((#[trigger] r@[k1])@, (#[trigger] r@[k2])@),
        forall|k: int| 0 <= k < r@.len() - 1 ==> (#[trigger] r@[k])@ != r@[k + 1]@,
        forall|k: int| 0 <= k < r@.len() ==> spec_has_project(packages@, (#[trigger] r@[k])@),
        forall|j: int|
            0 <= j < packages@.len() ==> spec_has_name(r@, (#[trigger] packages@[j]).project@),
{
    broadcast use vstd::seq_lib::group_to_multiset_ensures;

    let mut names: Vec<String> = Vec::new();
    let mut i: usize = 0;
    while i < packages.len()
        invariant
            i <= packages@.len(),
            names@.len() == i,
            forall|j: int| 0 <= j < i ==> (#[trigger] names@[j]) == packages@[j].project,
        decreases packages@.len() - i,
    {
        names.push(packages[i].project.clone());
        i = i + 1;
    }
    let ghost collected = names@;
    sort_strings(&mut names);
    proof {
        assert forall|k: int| 0 <= k < names@.len() implies spec_has_project(
            packages@,
            (#[trigger] names@[k])@,
        ) by {
            assert(names@.contains(names@[k]));
            assert(collected.to_multiset().count(names@[k]) > 0);
            assert(collected.contains(names@[k]));
            let j = choose|j: int| 0 <= j < collected.len() && collected[j] == names@[k];
            assert((packages@[j]).project@ == names@[k]@);
        }
        assert forall|j: int| 0 <= j < packages@.len() implies spec_has_name(
            names@,
            (#[trigger] packages@[j]).project@,
        ) by {
            assert(collected[j] == packages@[j].project);
            assert(collected.contains(collected[j]));
            assert(names@.to_multiset().count(collected[j]) > 0);
            assert(names@.contains(collected[j]));
            let k = choose|k: int| 0 <= k < names@.len() && names@[k] == collected[j];
            assert((names@[k])@ == packages@[j].project@);
        }
    }
    let ghost sorted = names@;
    let out = dedup_sorted(&names);
    proof {
        assert forall|k: int| 0 <= k < out@.len() implies spec_has_project(
            packages@,
            (#[trigger] out@[k])@,
        ) by {
            assert(spec_has_name(sorted, out@[k]@));
            let j1 = choose|j1: int| 0 <= j1 < sorted.len() && (#[trigger] sorted[j1])@ == out@[k]@;
            assert(spec_has_project(packages@, sorted[j1]@));
            let j2 = choose|j2: int|
                0 <= j2 < packages@.len() && (#[trigger] packages@[j2]).project@ == sorted[j1]@;
            assert((packages@[j2]).project@ == out@[k]@);
        }
        assert forall|j: int| 0 <= j < packages@.len() implies spec_has_name(
            out@,
            (#[trigger] packages@[j]).project@,
        ) by {
            assert(spec_has_name(sorted, packages@[j].project@));
            let k1 = choose|k1: int|
                0 <= k1 < sorted.len() && (#[trigger] sorted[k1])@ == packages@[j].project@;
            assert(spec_has_name(out@, sorted[k1]@));
            let k2 = choose|k2: int| 0 <= k2 < out@.len() && (#[trigger] out@[k2])@ == sorted[k1]@;
            assert((out@[k2])@ == packages@[j].project@);
        }
    }
    out
}

/// The fields the conversion of one index feature reads, already decoded to
/// plain strings. The numeric attributes (size, resolution, area) are
/// display values the caller keeps; they play no part in acceptance.
#[derive(Debug, Clone, PartialEq)]
pub struct FeatureFields {
    /// The feature's package name attribute.
    pub package: Option<String>,
    /// The feature's download link attribute, an HTML anchor.
    pub download_link: Option<String>,
    /// The feature's project attribute.
    pub project: Option<String>,
    /// The feature carried a geometry.
    pub has_geometry: bool,
}

/// A feature the conversion accepts: a nonempty name, a nonempty link that
/// yields a URL, and a geometry.
pub open spec fn spec_feature_accepted(f: FeatureFields) -> bool {
    &&& match f.package {
        Some(n) => n@.len() > 0,
        None => false,
    }
    &&& match f.download_link {
        Some(h) => h@.len() > 0 && spec_extract_download_url(h@) is Some,
        None => false,
    }
    &&& f.has_geometry
}

/// Converts one index feature into a package: features without a usable
/// name, download link or geometry are skipped (`None`); otherwise the
/// package carries the name, the URL out of the link's anchor, the project
/// (empty when absent) and the project's year range.
pub fn feature_to_package(f: &FeatureFields) -> (r: Option<PackageInfo>)
    ensures
        (r is Some) <==> spec_feature_accepted(*f),
        match r {
            Some(p) => {
                &&& match f.package {
                    Some(n) => p.package_name == n,
                    None => false,
                }
                &&& match f.download_link {
                    Some(h) => spec_extract_download_url(h@) == Some(p.download_url@),
                    None => false,
                }
                &&& p.project@ == match f.project {
                    Some(pr) => pr@,
                    None => Seq::<char>::empty(),
                }
                &&& match f.project {
                    Some(pr) => match p.year_range {
                        Some(y) => spec_extract_year_range(pr@) == Some(y@),
                        None => spec_extract_year_range(pr@) is None,
                    },
                    None => p.year_range is None,
                }
            },
            None => true,
        },
{
    let package_name: String = match &f.package {
        Some(n) => {
            if n.as_str().is_empty() {
                return None;
            }
            n.clone()
        },
        None => {
            return None;
        },
    };
    let download_url: String = match &f.download_link {
        Some(h) => {
            if h.as_str().is_empty() {
                return None;
            }
            match extract_download_url(h.as_str()) {
                Some(url) => url,
                None => {
                    return None;
                },
            }
        },
        None => {
            return None;
        },
    };
    if !f.has_geometry {
        return None;
    }
    let project: String = match &f.project {
        Some(pr) => pr.clone(),
        None => String::new(),
    };
    let year_range: Option<String> = match &f.project {
        Some(pr) => extract_year_range(pr.as_str()),
        None => None,
    };
    Some(PackageInfo { package_name, download_url, project, year_range })
}

} // verus!
