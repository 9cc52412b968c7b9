//! The segment watcher: on each tick it reads a stream's manifest and hands
//! out the segments it has not seen yet for transcription.

use vstd::prelude::*;
use crate::layout::{joined, transcript_name, transcript_name_of};
use crate::manifest::{fresh_entries, lemma_fresh_entries, manifest_entries, new_entries, parse_manifest, views};

verus! {

/// One segment to transcribe, and where its transcript goes.
pub struct SegmentJob {
    pub segment: String,
    pub transcript: String,
}

/// `job` is the transcription of segment `name` of the stream in `dir`.
pub open spec fn job_for(dir: Seq<char>, name: Seq<char>, job: SegmentJob) -> bool {
    &&& job.segment@ == joined(dir, name)
    &&& job.transcript@ == joined(dir, transcript_name_of(name))
}

/// Watches one stream directory while a recording runs.
pub struct SegmentWatcher {
    dir: String,
    seen: Vec<String>,
    stop_seen: bool,
    finished: bool,
}

impl SegmentWatcher {
    pub closed spec fn dir_view(&self) -> Seq<char> {
        self.dir@
    }

    /// The segment names handed out so far, in the order they were.
    pub closed spec fn seen(&self) -> Seq<Seq<char>> {
        views(self.seen@)
    }

    /// Whether a tick has observed the order to stop.
    pub closed spec fn stop_seen(&self) -> bool {
        self.stop_seen
    }

    /// Whether the watcher is done: the tick after the one that observed the
    /// order to stop has run.
    pub closed spec fn finished(&self) -> bool {
        self.finished
    }

    /// A watcher of the stream directory `dir` that has seen nothing yet.
    pub fn new(dir: &str) -> (r: SegmentWatcher)
        ensures
            r.dir_view() == dir@,
            r.seen() == Seq::<Seq<char>>::empty(),
            !r.stop_seen(),
            !r.finished(),
    {
        let w = SegmentWatcher { dir: String::from_str(dir), seen: Vec::new(), stop_seen: false, finished: false };
        assert(views(w.seen@) =~= Seq::<Seq<char>>::empty());
        w
    }

    /// Whether the watcher is done.
    pub fn is_finished(&self) -> (r: bool)
        ensures
            r == self.finished(),
    {
        self.finished
    }

    /// One tick: `manifest` is the manifest's text now, `shutdown` whether
    /// the recording has been told to stop. Hands out the segments listed for
    /// the first time, in manifest order. The tick that first observes
    /// `shutdown` is followed by one more, which still hands out segments and
    /// then finishes the watcher; a finished watcher hands out nothing.
    pub fn tick(&mut self, manifest: &str, shutdown: bool) -> (r: Vec<SegmentJob>)
        ensures
            final(self).dir_view() == old(self).dir_view(),
            old(self).finished() ==> r@.len() == 0 && *final(self) == *old(self),
            !old(self).finished() ==> {
                let fresh = fresh_entries(old(self).seen(), manifest_entries(manifest@));
                &&& r@.len() == fresh.len()
                &&& forall|i: int|
                    0 <= i < r@.len() ==> job_for(old(self).dir_view(), fresh[i], #[trigger] r@[i])
                &&& final(self).seen() == old(self).seen() + fresh
                &&& old(self).seen().no_duplicates() ==> final(self).seen().no_duplicates()
                &&& final(self).finished() == old(self).stop_seen()
                &&& final(self).stop_seen() == (old(self).stop_seen() || shutdown)
            },
    {
        if self.finished {
            return Vec::new();
        }
        let entries = parse_manifest(manifest);
        let fresh = new_entries(&self.seen, &entries);
        let mut jobs: Vec<SegmentJob> = Vec::new();
        let mut i: usize = 0;
        while i < fresh.len()
            invariant
                i <= fresh.len(),
                self.dir@ == old(self).dir@,
                self.seen@ == old(self).seen@,
                self.stop_seen == old(self).stop_seen,
                !self.finished,
                jobs@.len() == i,
                forall|k: int| 0 <= k < i ==> job_for(self.dir@, fresh@[k]@, #[trigger] jobs@[k]),
            decreases fresh.len() - i,
        {
            let name = &fresh[i];
            let segment = crate::layout::stream_file(self.dir.as_str(), name.as_str());
            let tname = transcript_name(name.as_str());
            let transcript = crate::layout::stream_file(self.dir.as_str(), tname.as_str());
            jobs.push(SegmentJob { segment, transcript });
            assert(job_for(self.dir@, fresh@[i as int]@, jobs@[i as int]));
            i = i + 1;
        }
        let mut k: usize = 0;
        let ghost before = views(self.seen@);
        while k < fresh.len()
            invariant
                k <= fresh.len(),
                views(self.seen@) == before + views(fresh@).take(k as int),
                self.dir@ == old(self).dir@,
                self.stop_seen == old(self).stop_seen,
                !self.finished,
            decreases fresh.len() - k,
        {
            let ghost prev = views(self.seen@);
            self.seen.push(fresh[k].clone());
            assert(views(self.seen@) =~= prev.push(fresh@[k as int]@));
            assert(views(fresh@).take(k + 1) =~= views(fresh@).take(k as int).push(fresh@[k as int]@));
            assert(views(self.seen@) =~= before + views(fresh@).take(k + 1));
            k = k + 1;
        }
        assert(views(fresh@).take(fresh.len() as int) =~= views(fresh@));
        proof {
            if before.no_duplicates() {
                lemma_each_segment_once(before, manifest_entries(manifest@));
            }
        }
        self.finished = self.stop_seen;
        self.stop_seen = self.stop_seen || shutdown;
        jobs
    }
}

/// Each segment is handed out once: where the names seen so far are
/// distinct, so are they with a tick's new names added.
pub proof fn lemma_each_segment_once(seen: Seq<Seq<char>>, entries: Seq<Seq<char>>)
    requires
        seen.no_duplicates(),
    ensures
        (seen + fresh_entries(seen, entries)).no_duplicates(),
{
    let f = fresh_entries(seen, entries);
    lemma_fresh_entries(seen, entries);
    let all = seen + f;
    assert forall|i: int, j: int| 0 <= i < all.len() && 0 <= j < all.len() && i != j implies all[i]
        != all[j] by {
        if i < seen.len() && j >= seen.len() {
            assert(all[j] == f[j - seen.len()]);
            assert(!seen.contains(f[j - seen.len()]));
        } else if j < seen.len() && i >= seen.len() {
            assert(all[i] == f[i - seen.len()]);
            assert(!seen.contains(f[i - seen.len()]));
        } else if i >= seen.len() && j >= seen.len() {
            assert(all[i] == f[i - seen.len()]);
            assert(all[j] == f[j - seen.len()]);
        }
    }
}

} // verus!
