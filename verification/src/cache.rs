//! Content-addressed cache keys and the on-disk paths derived from them.
//!
//! A package's downloads and extractions are cached under a key built from
//! its sanitized name and a fixed-width hash of its download URL, so repeated
//! jobs naming the same package reuse prior work.

use vstd::prelude::*;
use crate::api_types::PackageInfo;
use crate::strutil::{push_char, push_str, chars_vec, u64_to_hex16, spec_hex16};

verus! {

/// A character that may appear in a cache path: ASCII alphanumeric, `-` or `_`.
pub open spec fn spec_path_char_ok(c: char) -> bool {
    ||| ('a' <= c && c <= 'z')
    ||| ('A' <= c && c <= 'Z')
    ||| ('0' <= c && c <= '9')
    ||| c == '-'
    ||| c == '_'
}

/// The sanitized form of a name: every character outside the allowed set is
/// replaced, one for one, by `_`.
pub open spec fn spec_sanitize(s: Seq<char>) -> Seq<char> {
    Seq::new(s.len(), |i: int| if spec_path_char_ok(s[i]) { s[i] } else { '_' })
}

fn path_char_ok(c: char) -> (r: bool)
    ensures
        r == spec_path_char_ok(c),
{
    ('a' <= c && c <= 'z') || ('A' <= c && c <= 'Z') || ('0' <= c && c <= '9') || c == '-'
        || c == '_'
}

/// Replaces every character that is not ASCII alphanumeric, `-` or `_` by `_`,
/// keeping the length.
pub fn sanitize_for_path(input: &str) -> (r: String)
    ensures
        r@ == spec_sanitize(input@),
{
    let cs = chars_vec(input);
    let mut out = String::new();
    let mut i: usize = 0;
    while i < cs.len()
        invariant
            i <= cs@.len(),
            cs@ == input@,
            out@ == spec_sanitize(input@).take(i as int),
        decreases cs@.len() - i,
    {
        let c = cs[i];
        if path_char_ok(c) {
            push_char(&mut out, c);
        } else {
            push_char(&mut out, '_');
        }
        proof {
            assert(out@ =~= spec_sanitize(input@).take(i + 1));
        }
        i = i + 1;
    }
    proof {
        assert(out@ =~= spec_sanitize(input@));
    }
    out
}

/// Law: sanitizing keeps the length, yields only allowed characters, and
/// replaces each disallowed character one for one with `_`.
pub proof fn lemma_sanitize_shape(s: Seq<char>)
    ensures
        spec_sanitize(s).len() == s.len(),
        forall|i: int|
            0 <= i < s.len() ==> spec_path_char_ok(#[trigger] spec_sanitize(s)[i]),
        forall|i: int|
            0 <= i < s.len() ==> #[trigger] spec_sanitize(s)[i] == (if spec_path_char_ok(s[i]) {
                s[i]
            } else {
                '_'
            }),
{
}

/// What the fixed-key hasher of `std` yields for the characters of a URL: a
/// pure function of the string.
pub uninterp spec fn url_hash_of(url: Seq<char>) -> u64;

/// Relies on `std::collections::hash_map::DefaultHasher`: every hasher made
/// by `DefaultHasher::new` is documented to be the same, so feeding it the
/// same string always yields the same 64-bit digest.
#[verifier::external_body]
fn url_hash64(url: &str) -> (r: u64)
    ensures
        r == url_hash_of(url@),
{
    let mut hasher = std::collections::hash_map::DefaultHasher::new();
    std::hash::Hash::hash(url, &mut hasher);
    std::hash::Hasher::finish(&hasher)
}

/// The cache key for a package: its sanitized name, `_`, and the 16-digit
/// hexadecimal hash of its download URL.
pub open spec fn spec_cache_key(name: Seq<char>, url: Seq<char>) -> Seq<char> {
    spec_sanitize(name) + "_"@ + spec_hex16(url_hash_of(url))
}

/// Derives the content-addressed cache key for a package.
pub fn package_cache_key(pkg: &PackageInfo) -> (r: String)
    ensures
        r@ == spec_cache_key(pkg.package_name@, pkg.download_url@),
{
    let mut key = sanitize_for_path(pkg.package_name.as_str());
    push_str(&mut key, "_");
    let hex = u64_to_hex16(url_hash64(pkg.download_url.as_str()));
    push_str(&mut key, hex.as_str());
    proof {
        assert(key@ =~= spec_cache_key(pkg.package_name@, pkg.download_url@));
    }
    key
}

/// Law: the cache key is a pure function of the package's name and download
/// URL — two packages that agree on both get the same key.
pub proof fn lemma_cache_key_deterministic(a: PackageInfo, b: PackageInfo)
    requires
        a.package_name@ == b.package_name@,
        a.download_url@ == b.download_url@,
    ensures
        spec_cache_key(a.package_name@, a.download_url@) == spec_cache_key(
            b.package_name@,
            b.download_url@,
        ),
{
}

/// The path of a package's cached archive under the archive cache directory.
pub fn zip_path_for(zip_cache_dir: &str, cache_key: &str) -> (r: String)
    ensures
        r@ == zip_cache_dir@ + "/"@ + cache_key@ + ".zip"@,
{
    let mut p = zip_cache_dir.to_owned();
    push_str(&mut p, "/");
    push_str(&mut p, cache_key);
    push_str(&mut p, ".zip");
    proof {
        assert(p@ =~= zip_cache_dir@ + "/"@ + cache_key@ + ".zip"@);
    }
    p
}

/// The directory a package's archive is extracted into under the extraction
/// cache directory.
pub fn extract_dir_for(extract_cache_dir: &str, cache_key: &str) -> (r: String)
    ensures
        r@ == extract_cache_dir@ + "/"@ + cache_key@,
{
    let mut p = extract_cache_dir.to_owned();
    push_str(&mut p, "/");
    push_str(&mut p, cache_key);
    proof {
        assert(p@ =~= extract_cache_dir@ + "/"@ + cache_key@);
    }
    p
}

/// The output filename for a job: a fixed stem, the first eight characters of
/// the job id, and the raster extension.
pub fn output_filename_for(download_id: &str) -> (r: String)
    requires
        download_id@.len() >= 8,
    ensures
        r@ == "dtm_output_"@ + download_id@.take(8) + ".tif"@,
{
    let cs = chars_vec(download_id);
    let mut name: String = "dtm_output_".to_owned();
    let mut i: usize = 0;
    while i < 8
        invariant
            i <= 8,
            cs@ == download_id@,
            cs@.len() >= 8,
            name@ == "dtm_output_"@ + download_id@.take(i as int),
        decreases 8 - i,
    {
        push_char(&mut name, cs[i]);
        proof {
            assert(name@ =~= "dtm_output_"@ + download_id@.take(i + 1));
        }
        i = i + 1;
    }
    push_str(&mut name, ".tif");
    name
}

/// The `Content-Disposition` header value that attaches the output file under
/// its filename.
pub fn content_disposition_for(filename: &str) -> (r: String)
    ensures
        r@ == "attachment; filename=\""@ + filename@ + "\""@,
{
    let mut h: String = "attachment; filename=\"".to_owned();
    push_str(&mut h, filename);
    push_str(&mut h, "\"");
    proof {
        assert(h@ =~= "attachment; filename=\""@ + filename@ + "\""@);
    }
    h
}

} // verus!
