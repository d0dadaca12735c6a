//! The job registry: the concurrency-safe map from job identifier to job
//! state lives here as its sequential core — a registry value with exact
//! register and lookup contracts. The caller serializes access (a short
//! exclusive section to register, shared sections to look up).

use vstd::prelude::*;
use crate::api_types::ProgressEvent;

verus! {

/// Relies on `uuid::Uuid::new_v4` and its hyphenated `Display` form: a fresh
/// random identifier always renders as 36 characters. Nothing else is
/// promised of the value — it is random.
#[verifier::external_body]
pub(crate) fn fresh_job_id() -> (r: String)
    ensures
        r@.len() == 36,
{
    uuid::Uuid::new_v4().to_string()
}

/// One client-initiated assembly job: where its output goes, what the file
/// is called, and the sending half of its progress bus.
pub struct DownloadJob {
    pub output_path: String,
    pub filename: String,
    pub sender: tokio::sync::broadcast::Sender<ProgressEvent>,
}

/// Allocates a fresh job identity: a globally unique, opaque identifier and
/// the output filename derived from it.
pub fn create_job_identity() -> (r: (String, String))
    ensures
        r.0@.len() == 36,
        r.1@ == "dtm_output_"@ + r.0@.take(8) + ".tif"@,
{
    let id = fresh_job_id();
    let filename = crate::cache::output_filename_for(id.as_str());
    (id, filename)
}

/// Builds a job record around a fresh progress bus, buffering up to 64
/// events for slow subscribers.
pub fn make_job(output_path: String, filename: String) -> (r: DownloadJob)
    ensures
        r.output_path == output_path,
        r.filename == filename,
{
    let sender = crate::progress::new_progress_sender(64);
    DownloadJob { output_path, filename, sender }
}

/// The map a run of registrations builds: later entries win.
pub open spec fn as_map(entries: Seq<(String, DownloadJob)>) -> Map<Seq<char>, DownloadJob>
    decreases entries.len(),
{
    if entries.len() == 0 {
        Map::empty()
    } else {
        as_map(entries.drop_last()).insert(entries.last().0@, entries.last().1)
    }
}

/// The mapping from job identifier to job state. Jobs are never evicted:
/// they stay queryable until the process ends.
pub struct JobRegistry {
    entries: Vec<(String, DownloadJob)>,
}

impl View for JobRegistry {
    type V = Map<Seq<char>, DownloadJob>;

    closed spec fn view(&self) -> Map<Seq<char>, DownloadJob> {
        as_map(self.entries@)
    }
}

impl JobRegistry {
    /// A registry with no jobs.
    pub fn new() -> (r: JobRegistry)
        ensures
            r@ == Map::<Seq<char>, DownloadJob>::empty(),
    {
        JobRegistry { entries: Vec::new() }
    }

    /// Stores a job under an identifier; a job already stored under the same
    /// identifier is replaced.
    pub fn register(&mut self, id: String, job: DownloadJob)
        ensures
            final(self)@ == old(self)@.insert(id@, job),
    {
        let ghost prev = self.entries@;
        let ghost id_view = id@;
        let ghost job_snapshot = job;
        self.entries.push((id, job));
        proof {
            assert(self.entries@.drop_last() =~= prev);
            assert(self@ == as_map(prev).insert(id_view, job_snapshot));
        }
    }

    /// Finds the job stored under an identifier; not-found exactly when no
    /// registration ever stored that identifier.
    pub fn lookup(&self, id: &String) -> (r: Option<&DownloadJob>)
        ensures
            (r is Some) <==> self@.contains_key(id@),
            match r {
                Some(job) => self@.contains_key(id@) && *job == self@[id@],
                None => true,
            },
    {
        let mut i: usize = self.entries.len();
        proof {
            assert(self.entries@.take(i as int) =~= self.entries@);
        }
        while i > 0
            invariant
                i <= self.entries@.len(),
                self@ == as_map(self.entries@),
                as_map(self.entries@).contains_key(id@) == as_map(
                    self.entries@.take(i as int),
                ).contains_key(id@),
                as_map(self.entries@).contains_key(id@) ==> as_map(self.entries@)[id@] == as_map(
                    self.entries@.take(i as int),
                )[id@],
            decreases i,
        {
            proof {
                assert(self.entries@.take(i as int).drop_last() =~= self.entries@.take(i - 1));
                assert(self.entries@.take(i as int).last() == self.entries@[i - 1]);
            }
            if crate::strutil::str_eq(self.entries[i - 1].0.as_str(), id.as_str()) {
                return Some(&self.entries[i - 1].1);
            }
            i = i - 1;
        }
        proof {
            assert(self.entries@.take(0) =~= Seq::<(String, DownloadJob)>::empty());
        }
        None
    }
}

/// Law: an identifier never returned by a registration is not found. A fresh
/// registry's map holds nothing, and a registration inserts its own
/// identifier alone, leaving every other identifier's presence unchanged.
pub proof fn lemma_unregistered_id_stays_absent(
    jobs: Map<Seq<char>, DownloadJob>,
    registered_id: Seq<char>,
    other_id: Seq<char>,
    job: DownloadJob,
)
    requires
        other_id != registered_id,
        !jobs.contains_key(other_id),
    ensures
        !Map::<Seq<char>, DownloadJob>::empty().contains_key(other_id),
        !jobs.insert(registered_id, job).contains_key(other_id),
{
}

} // verus!
