//! The idempotent extraction core: given the archive's member list and what
//! is already on disk, decide whether extraction is already done, what to do
//! with each member, and which output files are raster inputs for the merge.
//!
//! The archive reader and the filesystem stay with the caller: it walks the
//! archive once, resolves each member's output path, reads on-disk sizes, and
//! hands this module one plain record per member.

use vstd::prelude::*;
use crate::api_types::DownloadProgressEvent;

verus! {

/// One archive member, reduced to what the extraction decisions read.
#[derive(Debug, Clone, PartialEq)]
pub struct ArchiveMember {
    /// The member's resolved output path; meaningful only when `enclosed`.
    pub path: String,
    /// The member's name resolved safely under the target directory. A
    /// member that does not is skipped silently, to keep crafted names from
    /// escaping the directory.
    pub enclosed: bool,
    /// The member is a directory entry.
    pub is_dir: bool,
    /// The member's declared uncompressed size in bytes.
    pub size: u64,
    /// The size of the file now at `path`, absent when no file exists.
    pub disk_size: Option<u64>,
}

/// The files extraction reports back: the members with a raster extension.
#[derive(Debug, Clone, PartialEq)]
pub struct ExtractedFiles {
    pub tiff_files: Vec<String>,
}

/// The position of the last occurrence of `c`, if any.
pub open spec fn spec_last_pos(s: Seq<char>, c: char) -> Option<int>
    decreases s.len(),
{
    if s.len() == 0 {
        None
    } else if s.last() == c {
        Some(s.len() - 1)
    } else {
        spec_last_pos(s.drop_last(), c)
    }
}

fn last_pos(cs: &Vec<char>, c: char) -> (r: Option<usize>)
    ensures
        match r {
            Some(i) => i < cs@.len() && spec_last_pos(cs@, c) == Some(i as int),
            None => spec_last_pos(cs@, c) is None,
        },
{
    let mut i: usize = cs.len();
    proof {
        assert(cs@.take(i as int) =~= cs@);
    }
    while i > 0
        invariant
            i <= cs@.len(),
            spec_last_pos(cs@, c) == spec_last_pos(cs@.take(i as int), c),
        decreases i,
    {
        if cs[i - 1] == c {
            proof {
                assert(cs@.take(i as int).last() == c);
            }
            return Some(i - 1);
        }
        proof {
            assert(cs@.take(i as int).drop_last() =~= cs@.take(i - 1));
        }
        i = i - 1;
    }
    None
}

/// The extension of a path, as the filesystem sees it: what follows the last
/// `.` of the final path segment, absent when the segment has no `.` or only
/// a leading one.
pub open spec fn spec_extension(path: Seq<char>) -> Option<Seq<char>> {
    let name_start: int = match spec_last_pos(path, '/') {
        Some(i) => i + 1,
        None => 0,
    };
    match spec_last_pos(path, '.') {
        Some(d) => if d > name_start {
            Some(path.skip(d + 1))
        } else {
            None
        },
        None => None,
    }
}

/// A path that names a raster file: extension `tif` or `tiff`.
pub open spec fn spec_is_raster(path: Seq<char>) -> bool {
    spec_extension(path) == Some("tif"@) || spec_extension(path) == Some("tiff"@)
}

/// Whether a path carries a raster extension.
pub fn is_raster_path(path: &str) -> (r: bool)
    ensures
        r == spec_is_raster(path@),
{
    proof {
        reveal_strlit("tif");
        reveal_strlit("tiff");
    }
    let cs = crate::strutil::chars_vec(path);
    let n = cs.len();
    let name_start: usize = match last_pos(&cs, '/') {
        Some(i) => i + 1,
        None => 0,
    };
    match last_pos(&cs, '.') {
        Some(d) => {
            if d <= name_start {
                return false;
            }
            let ext_len = n - (d + 1);
            if ext_len == 3 && cs[d + 1] == 't' && cs[d + 2] == 'i' && cs[d + 3] == 'f' {
                proof {
                    assert(cs@.skip(d + 1) =~= "tif"@);
                }
                true
            } else if ext_len == 4 && cs[d + 1] == 't' && cs[d + 2] == 'i' && cs[d + 3] == 'f'
                && cs[d + 4] == 'f' {
                proof {
                    assert(cs@.skip(d + 1) =~= "tiff"@);
                }
                true
            } else {
                proof {
                    let ext = cs@.skip(d + 1);
                    assert(ext.len() == ext_len);
                    if ext == "tif"@ {
                        assert(ext[0] == 't' && ext[1] == 'i' && ext[2] == 'f');
                        assert(cs@[d + 1] == 't' && cs@[d + 2] == 'i' && cs@[d + 3] == 'f');
                    }
                    if ext == "tiff"@ {
                        assert(ext[0] == 't' && ext[1] == 'i' && ext[2] == 'f' && ext[3] == 'f');
                        assert(cs@[d + 1] == 't' && cs@[d + 2] == 'i' && cs@[d + 3] == 'f'
                            && cs@[d + 4] == 'f');
                    }
                }
                false
            }
        },
        None => false,
    }
}

/// A member the completeness check accepts without work: directories count
/// as done; a file must have resolved safely and sit on disk at exactly its
/// declared size.
pub open spec fn spec_member_ok(m: ArchiveMember) -> bool {
    m.is_dir || (m.enclosed && m.disk_size == Some(m.size))
}

/// Every member of the archive is already materialized correctly.
pub open spec fn spec_all_members_ok(ms: Seq<ArchiveMember>) -> bool {
    forall|i: int| 0 <= i < ms.len() ==> spec_member_ok(#[trigger] ms[i])
}

/// A member whose output path extraction reports to the caller: a safely
/// resolved file with a raster extension.
pub open spec fn spec_member_reported(m: ArchiveMember) -> bool {
    !m.is_dir && m.enclosed && spec_is_raster(m.path@)
}

/// The output paths extraction reports, in member order.
pub open spec fn spec_raster_outputs(ms: Seq<ArchiveMember>) -> Seq<String>
    decreases ms.len(),
{
    if ms.len() == 0 {
        Seq::empty()
    } else {
        let rest = spec_raster_outputs(ms.drop_last());
        if spec_member_reported(ms.last()) {
            rest.push(ms.last().path)
        } else {
            rest
        }
    }
}

/// The completeness check run before any extraction work: when every member
/// is already on disk at its declared size and at least one raster output
/// exists, extraction is already done and the raster outputs are returned
/// without touching the archive's data.
pub fn check_extraction_complete(members: &Vec<ArchiveMember>) -> (r: Option<ExtractedFiles>)
    ensures
        (r is Some) <==> (spec_all_members_ok(members@) && spec_raster_outputs(members@).len()
            > 0),
        match r {
            Some(found) => found.tiff_files@ == spec_raster_outputs(members@),
            None => true,
        },
{
    let mut tiffs: Vec<String> = Vec::new();
    let mut i: usize = 0;
    while i < members.len()
        invariant
            i <= members@.len(),
            forall|j: int| 0 <= j < i ==> spec_member_ok(#[trigger] members@[j]),
            tiffs@ == spec_raster_outputs(members@.take(i as int)),
        decreases members@.len() - i,
    {
        let m = &members[i];
        if !m.is_dir {
            if !m.enclosed {
                return None;
            }
            match m.disk_size {
                Some(ds) => {
                    if ds != m.size {
                        return None;
                    }
                },
                None => {
                    return None;
                },
            }
            if is_raster_path(m.path.as_str()) {
                tiffs.push(m.path.clone());
            }
        }
        proof {
            assert(members@.take(i + 1).drop_last() =~= members@.take(i as int));
            assert(members@.take(i + 1).last() == members@[i as int]);
        }
        i = i + 1;
    }
    proof {
        assert(members@.take(i as int) =~= members@);
    }
    if tiffs.is_empty() {
        None
    } else {
        Some(ExtractedFiles { tiff_files: tiffs })
    }
}

/// What extraction does with one member.
#[derive(Debug, Clone, Copy, PartialEq, Eq, Structural)]
pub enum MemberAction {
    /// The member's name does not resolve safely: skipped silently.
    Skip,
    /// A directory entry: create the directory.
    MakeDir,
    /// The file is already on disk at its declared size: left untouched.
    KeepExisting,
    /// The file is absent or has a stale size: write it fully.
    Write,
}

/// The action extraction takes for a member.
pub open spec fn spec_member_action(m: ArchiveMember) -> MemberAction {
    if !m.enclosed {
        MemberAction::Skip
    } else if m.is_dir {
        MemberAction::MakeDir
    } else if m.disk_size == Some(m.size) {
        MemberAction::KeepExisting
    } else {
        MemberAction::Write
    }
}

/// Decides what to do with one member during a full extraction pass.
pub fn plan_member(m: &ArchiveMember) -> (r: MemberAction)
    ensures
        r == spec_member_action(*m),
{
    if !m.enclosed {
        MemberAction::Skip
    } else if m.is_dir {
        MemberAction::MakeDir
    } else {
        let matches_size = match m.disk_size {
            Some(ds) => ds == m.size,
            None => false,
        };
        if matches_size {
            MemberAction::KeepExisting
        } else {
            MemberAction::Write
        }
    }
}

/// The output paths a full extraction pass reports: every safely resolved
/// file member with a raster extension, written or kept.
pub fn extraction_outputs(members: &Vec<ArchiveMember>) -> (r: Vec<String>)
    ensures
        r@ == spec_raster_outputs(members@),
{
    let mut tiffs: Vec<String> = Vec::new();
    let mut i: usize = 0;
    while i < members.len()
        invariant
            i <= members@.len(),
            tiffs@ == spec_raster_outputs(members@.take(i as int)),
        decreases members@.len() - i,
    {
        let m = &members[i];
        if !m.is_dir && m.enclosed && is_raster_path(m.path.as_str()) {
            tiffs.push(m.path.clone());
        }
        proof {
            assert(members@.take(i + 1).drop_last() =~= members@.take(i as int));
            assert(members@.take(i + 1).last() == members@[i as int]);
        }
        i = i + 1;
    }
    proof {
        assert(members@.take(i as int) =~= members@);
    }
    tiffs
}

/// Two walks of the same archive see the same names: only the on-disk sizes
/// may differ between runs.
pub open spec fn spec_same_archive(a: Seq<ArchiveMember>, b: Seq<ArchiveMember>) -> bool {
    &&& a.len() == b.len()
    &&& forall|i: int|
        0 <= i < a.len() ==> {
            &&& (#[trigger] b[i]).path == a[i].path
            &&& b[i].enclosed == a[i].enclosed
            &&& b[i].is_dir == a[i].is_dir
            &&& b[i].size == a[i].size
        }
}

proof fn lemma_same_archive_same_outputs(a: Seq<ArchiveMember>, b: Seq<ArchiveMember>)
    requires
        spec_same_archive(a, b),
    ensures
        spec_raster_outputs(a) == spec_raster_outputs(b),
    decreases a.len(),
{
    if a.len() > 0 {
        assert(spec_same_archive(a.drop_last(), b.drop_last()));
        lemma_same_archive_same_outputs(a.drop_last(), b.drop_last());
        assert(spec_raster_outputs(a) == spec_raster_outputs(b));
    }
}

/// Law: extraction is idempotent. After a run that left every safely
/// resolved file member on disk at its declared size, a second walk of the
/// same archive plans no write at all, and reports exactly the raster
/// outputs of the first run.
pub proof fn lemma_extraction_idempotent(first: Seq<ArchiveMember>, second: Seq<ArchiveMember>)
    requires
        spec_same_archive(first, second),
        forall|i: int|
            0 <= i < second.len() && !(#[trigger] second[i]).is_dir && second[i].enclosed
                ==> second[i].disk_size == Some(second[i].size),
    ensures
        forall|i: int|
            0 <= i < second.len() ==> spec_member_action(#[trigger] second[i])
                != MemberAction::Write,
        spec_raster_outputs(second) == spec_raster_outputs(first),
{
    lemma_same_archive_same_outputs(first, second);
}

/// The percentage of members finished, in whole points rounded down.
pub open spec fn spec_extract_percentage(completed: int, total: int) -> int {
    completed * 100 / total
}

/// Whether a member-count progress event is due: the percentage advanced at
/// least five points past the last reported one, or this was the final
/// member.
pub open spec fn spec_should_report_extraction(
    completed: int,
    total: int,
    last_reported_pct: int,
) -> bool {
    spec_extract_percentage(completed, total) >= last_reported_pct + 5 || completed == total
}

/// Decides whether to emit an extraction progress event after a member.
pub fn should_report_extraction(completed: usize, total: usize, last_reported_pct: u64) -> (r:
    bool)
    requires
        0 < total,
        completed <= total,
    ensures
        r == spec_should_report_extraction(
            completed as int,
            total as int,
            last_reported_pct as int,
        ),
{
    let pct: u128 = (completed as u128) * 100 / (total as u128);
    proof {
        assert(completed * 100 / (total as int) <= 100) by (nonlinear_arith)
            requires
                0 < total,
                completed <= total,
        ;
    }
    (pct as u64) >= last_reported_pct.saturating_add(5) || completed == total
}

/// The progress event for `completed` of `total` members finished.
pub fn extraction_progress_event(package_name: &str, completed: usize, total: usize) -> (r:
    DownloadProgressEvent)
    requires
        0 < total,
        completed <= total,
    ensures
        r.package_name@ == package_name@,
        r.bytes_downloaded == completed,
        r.total_bytes == total,
        r.percentage == spec_extract_percentage(completed as int, total as int),
        r.speed_bps == 0,
        r.eta_seconds is None,
        r.status@ == "Extracting..."@,
{
    let pct: u128 = (completed as u128) * 100 / (total as u128);
    proof {
        assert(completed * 100 / (total as int) <= 100) by (nonlinear_arith)
            requires
                0 < total,
                completed <= total,
        ;
    }
    DownloadProgressEvent {
        package_name: package_name.to_owned(),
        bytes_downloaded: completed as u64,
        total_bytes: total as u64,
        percentage: pct as u64,
        speed_bps: 0,
        eta_seconds: None,
        status: "Extracting...".to_owned(),
    }
}

/// The event that reports a skipped extraction: everything was already on
/// disk, reported as one completed unit.
pub fn already_extracted_event(package_name: &str) -> (r: DownloadProgressEvent)
    ensures
        r.package_name@ == package_name@,
        r.bytes_downloaded == 1,
        r.total_bytes == 1,
        r.percentage == 100,
        r.speed_bps == 0,
        r.eta_seconds is None,
        r.status@ == "already extracted"@,
{
    DownloadProgressEvent {
        package_name: package_name.to_owned(),
        bytes_downloaded: 1,
        total_bytes: 1,
        percentage: 100,
        speed_bps: 0,
        eta_seconds: None,
        status: "already extracted".to_owned(),
    }
}

} // verus!
