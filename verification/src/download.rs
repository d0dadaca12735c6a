//! The resumable-fetch core: deciding, from the remote size and the local
//! file size, whether a download is already complete, resumable, or must be
//! fetched fresh; and the per-attempt session bookkeeping that turns byte
//! arrivals into throttled progress events.
//!
//! The network and the filesystem stay with the caller: it probes the remote
//! size, reads the local size, streams the body, and hands this module plain
//! numbers. Every decision and every reported figure is computed here.

use vstd::prelude::*;
use crate::api_types::DownloadProgressEvent;
use crate::strutil::push_str;

verus! {

/// Errors a download can end in.
#[derive(Debug, Clone, PartialEq)]
pub enum DownloadError {
    /// The HTTP request failed; the transport's message.
    HttpError(String),
    /// A local filesystem operation failed; the OS message.
    IoError(String),
    /// The archive could not be opened or read; the reader's message.
    ZipError(String),
    /// A directory could not be created; the OS message.
    DirectoryError(String),
    /// The server rejected the range request of a resumed fetch.
    RangeNotSupported,
}

impl DownloadError {
    /// The human-readable message attached to a job's Error event.
    pub fn describe(&self) -> (r: String)
        ensures
            r@ == match self {
                DownloadError::HttpError(m) => "HTTP request failed: "@ + m@,
                DownloadError::IoError(m) => "IO error: "@ + m@,
                DownloadError::ZipError(m) => "ZIP extraction failed: "@ + m@,
                DownloadError::DirectoryError(m) => "Directory error: "@ + m@,
                DownloadError::RangeNotSupported => "Server does not support range requests"@,
            },
    {
        match self {
            DownloadError::HttpError(m) => {
                let mut s: String = "HTTP request failed: ".to_owned();
                push_str(&mut s, m.as_str());
                s
            },
            DownloadError::IoError(m) => {
                let mut s: String = "IO error: ".to_owned();
                push_str(&mut s, m.as_str());
                s
            },
            DownloadError::ZipError(m) => {
                let mut s: String = "ZIP extraction failed: ".to_owned();
                push_str(&mut s, m.as_str());
                s
            },
            DownloadError::DirectoryError(m) => {
                let mut s: String = "Directory error: ".to_owned();
                push_str(&mut s, m.as_str());
                s
            },
            DownloadError::RangeNotSupported => "Server does not support range requests".to_owned(),
        }
    }
}

/// What a fetch attempt should do, given the remote and local sizes.
#[derive(Debug, Clone, Copy, PartialEq, Eq, Structural)]
pub enum FetchPlan {
    /// The local file already has exactly the expected size: do nothing but
    /// report completion.
    AlreadyComplete,
    /// A partial file exists and is strictly smaller than the known remote
    /// size: request the bytes from `offset` on and append.
    Resume { offset: u64 },
    /// No usable partial file: fetch the whole body into a fresh file,
    /// first deleting a stale partial if one exists.
    Fresh { delete_partial: bool },
}

/// The fetch decision. `expected_size` is the remote size from the probe
/// (zero when unknown); `local_size` is the size of the file at the
/// destination (zero when absent or empty).
pub open spec fn spec_fetch_plan(expected_size: u64, local_size: u64) -> FetchPlan {
    if expected_size > 0 && local_size == expected_size {
        FetchPlan::AlreadyComplete
    } else if expected_size > 0 && local_size > 0 && local_size < expected_size {
        FetchPlan::Resume { offset: local_size }
    } else {
        FetchPlan::Fresh { delete_partial: local_size > 0 }
    }
}

/// Decides how to fetch: short-circuit on an exact size match, resume a
/// strictly smaller partial file when the remote size is known, and fetch
/// fresh otherwise.
pub fn plan_fetch(expected_size: u64, local_size: u64) -> (r: FetchPlan)
    ensures
        r == spec_fetch_plan(expected_size, local_size),
{
    if expected_size > 0 && local_size == expected_size {
        FetchPlan::AlreadyComplete
    } else if expected_size > 0 && local_size > 0 && local_size < expected_size {
        FetchPlan::Resume { offset: local_size }
    } else {
        FetchPlan::Fresh { delete_partial: local_size > 0 }
    }
}

/// Law: a local file that already matches the known remote size exactly is
/// never fetched — the plan is to do nothing but report completion, and the
/// event reported for it says 100 percent, "already downloaded".
pub proof fn lemma_exact_match_short_circuits(expected_size: u64, local_size: u64)
    requires
        expected_size > 0,
        local_size == expected_size,
    ensures
        spec_fetch_plan(expected_size, local_size) == FetchPlan::AlreadyComplete,
{
}

/// The percentage, in whole points rounded down, that `done` is of `total`;
/// zero when the total is unknown. A value beyond the integer range is pinned
/// at the maximum.
pub open spec fn spec_percentage(done: u64, total: u64) -> u64 {
    if total > 0 {
        if done * 100 / (total as int) <= u64::MAX {
            (done * 100 / (total as int)) as u64
        } else {
            u64::MAX
        }
    } else {
        0
    }
}

/// Bytes per second: the bytes of the current attempt over the milliseconds
/// since it began; zero while no time has passed. A value beyond the integer
/// range is pinned at the maximum.
pub open spec fn spec_speed_bps(session_bytes: u64, elapsed_ms: u64) -> u64 {
    if elapsed_ms > 0 {
        if session_bytes * 1000 / (elapsed_ms as int) <= u64::MAX {
            (session_bytes * 1000 / (elapsed_ms as int)) as u64
        } else {
            u64::MAX
        }
    } else {
        0
    }
}

/// The estimated seconds remaining: the bytes still owed over the current
/// speed; absent when the speed is zero or nothing is owed.
pub open spec fn spec_eta_seconds(done: u64, total: u64, speed_bps: u64) -> Option<u64> {
    if speed_bps > 0 && total > done {
        Some(((total - done) / (speed_bps as int)) as u64)
    } else {
        None
    }
}

fn percentage(done: u64, total: u64) -> (r: u64)
    ensures
        r == spec_percentage(done, total),
{
    if total > 0 {
        let wide: u128 = (done as u128) * 100 / (total as u128);
        if wide <= u64::MAX as u128 {
            wide as u64
        } else {
            u64::MAX
        }
    } else {
        0
    }
}

fn speed_bps(session_bytes: u64, elapsed_ms: u64) -> (r: u64)
    ensures
        r == spec_speed_bps(session_bytes, elapsed_ms),
{
    if elapsed_ms > 0 {
        let wide: u128 = (session_bytes as u128) * 1000 / (elapsed_ms as u128);
        if wide <= u64::MAX as u128 {
            wide as u64
        } else {
            u64::MAX
        }
    } else {
        0
    }
}

fn eta_seconds(done: u64, total: u64, speed: u64) -> (r: Option<u64>)
    ensures
        r == spec_eta_seconds(done, total, speed),
{
    if speed > 0 && total > done {
        Some((total - done) / speed)
    } else {
        None
    }
}

/// One download attempt in flight: how far it is, where it started, and when
/// it last reported. Times are milliseconds on the caller's monotonic clock.
pub struct FetchSession {
    pub package_name: String,
    /// The expected total in bytes; zero when unknown.
    pub total_bytes: u64,
    /// The byte offset the attempt started at: zero for a fresh fetch, the
    /// partial size for a resumed one.
    pub start_offset: u64,
    /// Bytes of the destination file so far, the starting offset included.
    pub downloaded: u64,
    /// When the attempt began.
    pub start_ms: u64,
    /// When a progress event was last emitted.
    pub last_update_ms: u64,
}

impl FetchSession {
    /// The session's bookkeeping is consistent.
    pub open spec fn wf(&self) -> bool {
        &&& self.downloaded >= self.start_offset
        &&& self.last_update_ms >= self.start_ms
    }

    /// Whether a progress event is due after a chunk: at least 100ms have
    /// passed since the last emission, or the final byte has arrived.
    pub open spec fn spec_should_emit(last_update_ms: u64, now_ms: u64, done: u64, total: u64) -> bool {
        now_ms - last_update_ms > 100 || done == total
    }

    /// Starts the bookkeeping for a fresh fetch and gives the opening event:
    /// zero bytes, "downloading".
    pub fn begin_fresh(package_name: &str, total_bytes: u64, now_ms: u64) -> (r: (
        FetchSession,
        DownloadProgressEvent,
    ))
        ensures
            r.0.package_name@ == package_name@,
            r.0.total_bytes == total_bytes,
            r.0.start_offset == 0,
            r.0.downloaded == 0,
            r.0.start_ms == now_ms,
            r.0.last_update_ms == now_ms,
            r.0.wf(),
            r.1.package_name@ == package_name@,
            r.1.bytes_downloaded == 0,
            r.1.total_bytes == total_bytes,
            r.1.percentage == 0,
            r.1.speed_bps == 0,
            r.1.eta_seconds is None,
            r.1.status@ == "downloading"@,
    {
        let session = FetchSession {
            package_name: package_name.to_owned(),
            total_bytes,
            start_offset: 0,
            downloaded: 0,
            start_ms: now_ms,
            last_update_ms: now_ms,
        };
        let event = DownloadProgressEvent {
            package_name: package_name.to_owned(),
            bytes_downloaded: 0,
            total_bytes,
            percentage: 0,
            speed_bps: 0,
            eta_seconds: None,
            status: "downloading".to_owned(),
        };
        (session, event)
    }

    /// Starts the bookkeeping for a resumed fetch and gives the opening
    /// event: the partial size already on disk, "resuming".
    pub fn begin_resume(package_name: &str, partial_size: u64, total_bytes: u64, now_ms: u64) -> (r: (
        FetchSession,
        DownloadProgressEvent,
    ))
        requires
            0 < partial_size < total_bytes,
        ensures
            r.0.package_name@ == package_name@,
            r.0.total_bytes == total_bytes,
            r.0.start_offset == partial_size,
            r.0.downloaded == partial_size,
            r.0.start_ms == now_ms,
            r.0.last_update_ms == now_ms,
            r.0.wf(),
            r.1.package_name@ == package_name@,
            r.1.bytes_downloaded == partial_size,
            r.1.total_bytes == total_bytes,
            r.1.percentage == spec_percentage(partial_size, total_bytes),
            r.1.speed_bps == 0,
            r.1.eta_seconds is None,
            r.1.status@ == "resuming"@,
    {
        let session = FetchSession {
            package_name: package_name.to_owned(),
            total_bytes,
            start_offset: partial_size,
            downloaded: partial_size,
            start_ms: now_ms,
            last_update_ms: now_ms,
        };
        let event = DownloadProgressEvent {
            package_name: package_name.to_owned(),
            bytes_downloaded: partial_size,
            total_bytes,
            percentage: percentage(partial_size, total_bytes),
            speed_bps: 0,
            eta_seconds: None,
            status: "resuming".to_owned(),
        };
        (session, event)
    }

    /// Accounts for one arrived chunk. Emits a progress event when one is
    /// due — throttled to at most one per 100ms except for the final byte —
    /// with the percentage, speed and ETA of this attempt.
    pub fn on_chunk(&mut self, chunk_len: u64, now_ms: u64) -> (r: Option<DownloadProgressEvent>)
        requires
            old(self).wf(),
            old(self).downloaded + chunk_len <= u64::MAX,
            now_ms >= old(self).last_update_ms,
        ensures
            final(self).package_name@ == old(self).package_name@,
            final(self).total_bytes == old(self).total_bytes,
            final(self).start_offset == old(self).start_offset,
            final(self).start_ms == old(self).start_ms,
            final(self).downloaded == old(self).downloaded + chunk_len,
            final(self).wf(),
            ({
                let done = (old(self).downloaded + chunk_len) as u64;
                let emit = Self::spec_should_emit(
                    old(self).last_update_ms,
                    now_ms,
                    done,
                    old(self).total_bytes,
                );
                &&& final(self).last_update_ms == if emit {
                    now_ms
                } else {
                    old(self).last_update_ms
                }
                &&& match r {
                    Some(e) => {
                        let speed = spec_speed_bps(
                            (done - old(self).start_offset) as u64,
                            (now_ms - old(self).start_ms) as u64,
                        );
                        &&& emit
                        &&& e.package_name@ == old(self).package_name@
                        &&& e.bytes_downloaded == done
                        &&& e.total_bytes == old(self).total_bytes
                        &&& e.percentage == spec_percentage(done, old(self).total_bytes)
                        &&& e.speed_bps == speed
                        &&& e.eta_seconds == spec_eta_seconds(done, old(self).total_bytes, speed)
                        &&& e.status@ == "downloading"@
                    },
                    None => !emit,
                }
            }),
    {
        self.downloaded = self.downloaded + chunk_len;
        let emit = now_ms - self.last_update_ms > 100 || self.downloaded == self.total_bytes;
        if emit {
            let elapsed_ms = now_ms - self.start_ms;
            let speed = speed_bps(self.downloaded - self.start_offset, elapsed_ms);
            let event = DownloadProgressEvent {
                package_name: self.package_name.clone(),
                bytes_downloaded: self.downloaded,
                total_bytes: self.total_bytes,
                percentage: percentage(self.downloaded, self.total_bytes),
                speed_bps: speed,
                eta_seconds: eta_seconds(self.downloaded, self.total_bytes, speed),
                status: "downloading".to_owned(),
            };
            self.last_update_ms = now_ms;
            Some(event)
        } else {
            None
        }
    }

    /// The closing event of a successful attempt: everything transferred,
    /// 100 percent, "completed".
    pub fn finish(&self) -> (r: DownloadProgressEvent)
        ensures
            r.package_name@ == self.package_name@,
            r.bytes_downloaded == self.downloaded,
            r.total_bytes == self.downloaded,
            r.percentage == 100,
            r.speed_bps == 0,
            r.eta_seconds is None,
            r.status@ == "completed"@,
    {
        DownloadProgressEvent {
            package_name: self.package_name.clone(),
            bytes_downloaded: self.downloaded,
            total_bytes: self.downloaded,
            percentage: 100,
            speed_bps: 0,
            eta_seconds: None,
            status: "completed".to_owned(),
        }
    }
}

/// The event that reports a short-circuited fetch: the file was already
/// complete, so the transfer is reported as done in one event.
pub fn already_downloaded_event(package_name: &str, expected_size: u64) -> (r: DownloadProgressEvent)
    ensures
        r.package_name@ == package_name@,
        r.bytes_downloaded == expected_size,
        r.total_bytes == expected_size,
        r.percentage == 100,
        r.speed_bps == 0,
        r.eta_seconds is None,
        r.status@ == "already downloaded"@,
{
    DownloadProgressEvent {
        package_name: package_name.to_owned(),
        bytes_downloaded: expected_size,
        total_bytes: expected_size,
        percentage: 100,
        speed_bps: 0,
        eta_seconds: None,
        status: "already downloaded".to_owned(),
    }
}

/// The sum of the lengths of a run of chunks.
pub open spec fn spec_sum_chunks(chunks: Seq<u64>) -> int
    decreases chunks.len(),
{
    if chunks.len() == 0 {
        0
    } else {
        spec_sum_chunks(chunks.drop_last()) + chunks.last()
    }
}

/// The byte count a session reaches after a run of chunks.
pub open spec fn spec_downloaded_after(start: u64, chunks: Seq<u64>) -> int {
    start + spec_sum_chunks(chunks)
}

/// Law: a resumed fetch that receives exactly the bytes still owed ends with
/// the file at the remote size, and a complete file is reported as 100
/// percent — so the final event of such a resume says 100.
pub proof fn lemma_resume_reaches_total(partial_size: u64, total_bytes: u64, chunks: Seq<u64>)
    requires
        0 < partial_size < total_bytes,
        spec_sum_chunks(chunks) == total_bytes - partial_size,
    ensures
        spec_downloaded_after(partial_size, chunks) == total_bytes,
        spec_percentage(total_bytes, total_bytes) == 100,
{
    assert(total_bytes * 100 / (total_bytes as int) == 100) by (nonlinear_arith)
        requires
            total_bytes > 0,
    ;
}

} // verus!
