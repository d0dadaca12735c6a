//! The data types the orchestrator works on: package identity, progress
//! events, and the pure text functions that derive package fields from the
//! index's raw attribute strings.

use vstd::prelude::*;
use crate::strutil::{
    chars_vec,
    chars_range_to_string,
    find_at,
    find_char,
    skip_ws,
    spec_find_at,
    spec_find_char,
    spec_skip_ws,
    push_char,
};

verus! {

/// The identity of one terrain package, as the orchestrator needs it: its
/// name, its direct download URL, and the project it came from. Physical
/// attributes (size, resolution, coverage) matter only for display and stay
/// with the HTTP layer.
#[derive(Debug, Clone, PartialEq)]
pub struct PackageInfo {
    /// The package name (e.g., "Cochrane A").
    pub package_name: String,
    /// Direct download URL for the archive.
    pub download_url: String,
    /// The project name (e.g., "OMAFRA Lidar 2016-18").
    pub project: String,
    /// Year range extracted from the project name (e.g., "2016-18").
    pub year_range: Option<String>,
}

/// The default spatial reference for queries: Web Mercator.
pub fn default_spatial_reference() -> (r: u32)
    ensures
        r == 3857,
{
    3857
}

/// Response to a request that started a download job.
#[derive(Debug, Clone, PartialEq)]
pub struct DownloadStartResponse {
    pub download_id: String,
}

/// A progress report for one package's download or extraction.
///
/// Rates are reported as whole numbers: `percentage` in whole percentage
/// points (0 to 100, rounded down) and `speed_bps` in whole bytes per second.
#[derive(Debug, Clone, PartialEq)]
pub struct DownloadProgressEvent {
    pub package_name: String,
    pub bytes_downloaded: u64,
    pub total_bytes: u64,
    pub percentage: u64,
    pub speed_bps: u64,
    pub eta_seconds: Option<u64>,
    pub status: String,
}

/// A progress report for a processing stage of a job.
#[derive(Debug, Clone, PartialEq)]
pub struct ProcessingProgressEvent {
    pub stage: String,
    pub percentage: u8,
    pub message: String,
}

/// One event on a job's progress stream.
#[derive(Debug, Clone, PartialEq)]
pub enum ProgressEvent {
    Download(DownloadProgressEvent),
    Processing(ProcessingProgressEvent),
    Complete { output_filename: String },
    Error { message: String },
}

/// The URL inside an HTML anchor's `href` attribute: what stands between the
/// quotes that follow the first `href`, an `=` and an opening quote (double
/// or single), each optionally preceded by whitespace.
pub open spec fn spec_extract_download_url(s: Seq<char>) -> Option<Seq<char>> {
    match spec_find_at(s, "href"@, 0) {
        None => None,
        Some(h) => {
            let a = spec_skip_ws(s, h + 4);
            if a >= s.len() || s[a] != '=' {
                None
            } else {
                let b = spec_skip_ws(s, a + 1);
                if b < s.len() && (s[b] == '"' || s[b] == '\'') {
                    match spec_find_char(s, s[b], b + 1) {
                        Some(e) => Some(s.subrange(b + 1, e)),
                        None => None,
                    }
                } else {
                    None
                }
            }
        },
    }
}

/// Extracts the download URL from an HTML anchor tag. Both double- and
/// single-quoted `href` attributes are handled, with optional whitespace
/// around the `=`.
pub fn extract_download_url(html: &str) -> (r: Option<String>)
    ensures
        match r {
            Some(url) => spec_extract_download_url(html@) == Some(url@),
            None => spec_extract_download_url(html@) is None,
        },
{
    let cs = chars_vec(html);
    let pat = chars_vec("href");
    proof {
        reveal_strlit("href");
    }
    let h = match find_at(&cs, &pat, 0) {
        Some(h) => h,
        None => {
            return None;
        },
    };
    let a = skip_ws(&cs, h + 4);
    if a == cs.len() {
        return None;
    }
    if cs[a] != '=' {
        return None;
    }
    let b = skip_ws(&cs, a + 1);
    if b == cs.len() {
        return None;
    }
    let q = cs[b];
    if q != '"' && q != '\'' {
        return None;
    }
    match find_char(&cs, q, b + 1) {
        Some(e) => Some(chars_range_to_string(&cs, b + 1, e)),
        None => None,
    }
}

/// A decimal digit.
pub open spec fn spec_is_digit(c: char) -> bool {
    '0' <= c && c <= '9'
}

/// A word character for the purpose of year boundaries: ASCII alphanumeric
/// or `_`.
pub open spec fn spec_is_word_char(c: char) -> bool {
    ||| ('a' <= c && c <= 'z')
    ||| ('A' <= c && c <= 'Z')
    ||| spec_is_digit(c)
    ||| c == '_'
}

fn is_digit_char(c: char) -> (r: bool)
    ensures
        r == spec_is_digit(c),
{
    '0' <= c && c <= '9'
}

fn is_word_char(c: char) -> (r: bool)
    ensures
        r == spec_is_word_char(c),
{
    ('a' <= c && c <= 'z') || ('A' <= c && c <= 'Z') || is_digit_char(c) || c == '_'
}

/// A four-digit year beginning `19` or `20` stands at position `i`.
pub open spec fn spec_year4_at(s: Seq<char>, i: int) -> bool {
    &&& 0 <= i
    &&& i + 4 <= s.len()
    &&& ((s[i] == '1' && s[i + 1] == '9') || (s[i] == '2' && s[i + 1] == '0'))
    &&& spec_is_digit(s[i + 2])
    &&& spec_is_digit(s[i + 3])
}

/// No word character stands right before position `i`.
pub open spec fn spec_boundary_before(s: Seq<char>, i: int) -> bool {
    i == 0 || !spec_is_word_char(s[i - 1])
}

/// No word character stands at position `e`.
pub open spec fn spec_boundary_after(s: Seq<char>, e: int) -> bool {
    e >= s.len() || !spec_is_word_char(s[e])
}

/// Where a year range starting at `i` ends, if one starts there: a four-
/// digit year at a word boundary, preferring a tail of whitespace, a dash
/// (`-` or the en dash), whitespace, and a four- or two-digit year ending at
/// a word boundary; without a usable tail the year must end at a word
/// boundary by itself.
pub open spec fn spec_year_match_end(s: Seq<char>, i: int) -> Option<int> {
    if spec_boundary_before(s, i) && spec_year4_at(s, i) {
        let j = spec_skip_ws(s, i + 4);
        let tail: Option<int> = if j < s.len() && (s[j] == '-' || s[j] == '\u{2013}') {
            let k = spec_skip_ws(s, j + 1);
            if spec_year4_at(s, k) && spec_boundary_after(s, k + 4) {
                Some(k + 4)
            } else if k + 2 <= s.len() && spec_is_digit(s[k]) && spec_is_digit(s[k + 1])
                && spec_boundary_after(s, k + 2) {
                Some(k + 2)
            } else {
                None
            }
        } else {
            None
        };
        if tail is Some {
            tail
        } else if spec_boundary_after(s, i + 4) {
            Some(i + 4)
        } else {
            None
        }
    } else {
        None
    }
}

/// The first position with a year range, scanning left to right, and where
/// that range ends.
pub open spec fn spec_first_year_match(s: Seq<char>, from: int) -> Option<(int, int)>
    decreases s.len() - from,
{
    if from < 0 || from >= s.len() {
        None
    } else {
        match spec_year_match_end(s, from) {
            Some(e) => Some((from, e)),
            None => spec_first_year_match(s, from + 1),
        }
    }
}

/// The characters of a match with every plain space removed.
pub open spec fn spec_remove_spaces(s: Seq<char>) -> Seq<char>
    decreases s.len(),
{
    if s.len() == 0 {
        Seq::empty()
    } else {
        let rest = spec_remove_spaces(s.drop_last());
        if s.last() == ' ' {
            rest
        } else {
            rest.push(s.last())
        }
    }
}

/// The year range of a project name: the first year of this century or the
/// last, optionally continued by a dash and a second year, with any spaces
/// removed.
pub open spec fn spec_extract_year_range(s: Seq<char>) -> Option<Seq<char>> {
    match spec_first_year_match(s, 0) {
        Some(m) => Some(spec_remove_spaces(s.subrange(m.0, m.1))),
        None => None,
    }
}

fn year4_at(cs: &Vec<char>, i: usize) -> (r: bool)
    requires
        i <= cs@.len(),
    ensures
        r == spec_year4_at(cs@, i as int),
{
    let n = cs.len();
    if n - i < 4 {
        return false;
    }
    ((cs[i] == '1' && cs[i + 1] == '9') || (cs[i] == '2' && cs[i + 1] == '0')) && is_digit_char(
        cs[i + 2],
    ) && is_digit_char(cs[i + 3])
}

fn boundary_after(cs: &Vec<char>, e: usize) -> (r: bool)
    requires
        e <= cs@.len(),
    ensures
        r == spec_boundary_after(cs@, e as int),
{
    e == cs.len() || !is_word_char(cs[e])
}

fn year_match_end(cs: &Vec<char>, i: usize) -> (r: Option<usize>)
    requires
        i < cs@.len(),
    ensures
        match r {
            Some(e) => i < e <= cs@.len() && spec_year_match_end(cs@, i as int) == Some(e as int),
            None => spec_year_match_end(cs@, i as int) is None,
        },
{
    let n = cs.len();
    let bb = i == 0 || !is_word_char(cs[i - 1]);
    if !bb || !year4_at(cs, i) {
        return None;
    }
    let j = skip_ws(cs, i + 4);
    if j < n && (cs[j] == '-' || cs[j] == '\u{2013}') {
        let k = skip_ws(cs, j + 1);
        if year4_at(cs, k) && boundary_after(cs, k + 4) {
            return Some(k + 4);
        }
        if n - k >= 2 && is_digit_char(cs[k]) && is_digit_char(cs[k + 1]) && boundary_after(
            cs,
            k + 2,
        ) {
            return Some(k + 2);
        }
    }
    if boundary_after(cs, i + 4) {
        Some(i + 4)
    } else {
        None
    }
}

/// Extracts the year range from a project name: the first `19xx` or `20xx`
/// year, continued when possible by a dash and a second two- or four-digit
/// year, spaces around the dash removed.
pub fn extract_year_range(project: &str) -> (r: Option<String>)
    ensures
        match r {
            Some(y) => spec_extract_year_range(project@) == Some(y@),
            None => spec_extract_year_range(project@) is None,
        },
{
    let cs = chars_vec(project);
    let mut i: usize = 0;
    while i < cs.len()
        invariant
            i <= cs@.len(),
            cs@ == project@,
            spec_first_year_match(cs@, 0) == spec_first_year_match(cs@, i as int),
        decreases cs@.len() - i,
    {
        match year_match_end(&cs, i) {
            Some(e) => {
                let mut out = String::new();
                let mut j: usize = i;
                while j < e
                    invariant
                        i <= j <= e <= cs@.len(),
                        out@ == spec_remove_spaces(cs@.subrange(i as int, j as int)),
                    decreases e - j,
                {
                    proof {
                        assert(cs@.subrange(i as int, j + 1).drop_last() =~= cs@.subrange(
                            i as int,
                            j as int,
                        ));
                        assert(cs@.subrange(i as int, j + 1).last() == cs@[j as int]);
                    }
                    if cs[j] != ' ' {
                        push_char(&mut out, cs[j]);
                    }
                    j = j + 1;
                }
                return Some(out);
            },
            None => {},
        }
        i = i + 1;
    }
    None
}

} // verus!
