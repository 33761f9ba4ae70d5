use vstd::prelude::*;

verus! {

/// One fetchable piece of a track.
pub struct Segment {
    pub uri: String,
    pub duration_ms: u64,
}

/// Sum of the durations of `segs`, in milliseconds.
pub open spec fn sum_durations(segs: Seq<Segment>) -> int
    decreases segs.len(),
{
    if segs.len() == 0 {
        0
    } else {
        sum_durations(segs.drop_last()) + segs.last().duration_ms
    }
}

/// Length of a track: the sum of its segments' durations, capped at `u64::MAX`.
pub fn total_duration_ms(segments: &Vec<Segment>) -> (r: u64)
    ensures
        r == if sum_durations(segments@) > u64::MAX { u64::MAX as int } else { sum_durations(segments@) },
{
    let mut total: u64 = 0;
    let mut i: usize = 0;
    while i < segments.len()
        invariant
            i <= segments@.len(),
            total == if sum_durations(segments@.take(i as int)) > u64::MAX {
                u64::MAX as int
            } else {
                sum_durations(segments@.take(i as int))
            },
        decreases segments@.len() - i,
    {
        proof {
            let t = segments@.take(i as int + 1);
            assert(t.drop_last() =~= segments@.take(i as int));
            assert(t.last() == segments@[i as int]);
            lemma_sum_nonneg(segments@.take(i as int));
        }
        total = total.saturating_add(segments[i].duration_ms);
        i = i + 1;
    }
    assert(segments@.take(i as int) =~= segments@);
    total
}

proof fn lemma_sum_nonneg(segs: Seq<Segment>)
    ensures
        sum_durations(segs) >= 0,
    decreases segs.len(),
{
    if segs.len() > 0 {
        lemma_sum_nonneg(segs.drop_last());
    }
}

/// Where the fetcher stands.
#[derive(Debug, Clone, Copy, PartialEq, Eq, Structural)]
pub enum Phase {
    /// Fetching the segment at the current index.
    Fetching,
    /// A segment fetch failed: the segment list is being fetched again.
    Resolving,
    /// No more chunks will come.
    Done,
}

/// What the fetcher asks for next.
#[derive(Debug, Clone, Copy, PartialEq, Eq, Structural)]
pub enum FetchStep {
    /// Fetch the segment at this index of the current list.
    Fetch(usize),
    /// Fetch the track's segment list again.
    ReResolve,
    /// Stop: close the chunk channel.
    Stop,
}

pub struct FetcherModel {
    pub segments: Seq<Segment>,
    /// Index of the next segment to fetch; every segment before it has been delivered.
    pub index: usize,
    pub phase: Phase,
    /// The index at which the list was last fetched again, if any.
    pub resolved_at: Option<usize>,
}

impl FetcherModel {
    pub open spec fn wf(self) -> bool {
        self.phase == Phase::Fetching ==> self.index <= self.segments.len()
    }

    pub open spec fn next_step(self) -> FetchStep {
        match self.phase {
            Phase::Fetching => if self.index < self.segments.len() {
                FetchStep::Fetch(self.index)
            } else {
                FetchStep::Stop
            },
            Phase::Resolving => FetchStep::ReResolve,
            Phase::Done => FetchStep::Stop,
        }
    }

    /// The segment at the current index was fetched (`ok`) or not.
    pub open spec fn fetched(self, ok: bool) -> FetcherModel {
        if ok {
            FetcherModel { index: (self.index + 1) as usize, ..self }
        } else if self.resolved_at == Some(self.index) {
            FetcherModel { phase: Phase::Done, ..self }
        } else {
            FetcherModel { phase: Phase::Resolving, ..self }
        }
    }

    /// The segment list came back (`Some`) or could not be fetched.
    pub open spec fn resolved(self, list: Option<Seq<Segment>>) -> FetcherModel {
        match list {
            Some(l) => FetcherModel {
                segments: l,
                index: self.index,
                phase: if self.index <= l.len() { Phase::Fetching } else { Phase::Done },
                resolved_at: Some(self.index),
            },
            None => FetcherModel { phase: Phase::Done, ..self },
        }
    }
}

/// Decides, segment by segment, what the chunk source fetches: segments in increasing
/// index order, and on a failed fetch one new fetch of the segment list, from which it
/// resumes at the same index.
pub struct SegmentFetcher {
    segments: Vec<Segment>,
    index: usize,
    phase: Phase,
    resolved_at: Option<usize>,
}

impl View for SegmentFetcher {
    type V = FetcherModel;

    closed spec fn view(&self) -> FetcherModel {
        FetcherModel {
            segments: self.segments@,
            index: self.index,
            phase: self.phase,
            resolved_at: self.resolved_at,
        }
    }
}

impl SegmentFetcher {
    pub fn new(segments: Vec<Segment>) -> (r: SegmentFetcher)
        ensures
            r@ == (FetcherModel { segments: segments@, index: 0, phase: Phase::Fetching, resolved_at: None }),
            r@.wf(),
    {
        SegmentFetcher { segments, index: 0, phase: Phase::Fetching, resolved_at: None }
    }

    pub fn next_step(&self) -> (r: FetchStep)
        ensures
            r == self@.next_step(),
    {
        match self.phase {
            Phase::Fetching => if self.index < self.segments.len() {
                FetchStep::Fetch(self.index)
            } else {
                FetchStep::Stop
            },
            Phase::Resolving => FetchStep::ReResolve,
            Phase::Done => FetchStep::Stop,
        }
    }

    /// Address of the segment at `index`.
    pub fn uri(&self, index: usize) -> (r: &str)
        requires
            index < self@.segments.len(),
        ensures
            r@ == self@.segments[index as int].uri@,
    {
        self.segments[index].uri.as_str()
    }

    /// Number of chunks delivered so far.
    pub fn delivered(&self) -> (r: usize)
        ensures
            r == self@.index,
    {
        self.index
    }

    /// Report the fetch that `next_step` asked for.
    pub fn fetched(&mut self, ok: bool)
        requires
            old(self)@.wf(),
            old(self)@.next_step() is Fetch,
        ensures
            final(self)@ == old(self)@.fetched(ok),
            final(self)@.wf(),
    {
        if ok {
            proof {
                assert(self.segments.len() == self.segments@.len());
            }
            self.index = self.index + 1;
        } else if self.resolved_at == Some(self.index) {
            self.phase = Phase::Done;
        } else {
            self.phase = Phase::Resolving;
        }
    }

    /// Report the new fetch of the segment list that `next_step` asked for.
    pub fn resolved(&mut self, list: Option<Vec<Segment>>)
        requires
            old(self)@.wf(),
        ensures
            final(self)@ == old(self)@.resolved(
                match list {
                    Some(l) => Some(l@),
                    None => None,
                },
            ),
            final(self)@.wf(),
    {
        match list {
            Some(l) => {
                if self.index <= l.len() {
                    self.phase = Phase::Fetching;
                } else {
                    self.phase = Phase::Done;
                }
                self.segments = l;
                self.resolved_at = Some(self.index);
            },
            None => {
                self.phase = Phase::Done;
            },
        }
    }

    /// The receiver of the chunks is gone: nothing more is wanted.
    pub fn receiver_gone(&mut self)
        ensures
            final(self)@ == (FetcherModel { phase: Phase::Done, ..old(self)@ }),
    {
        self.phase = Phase::Done;
    }
}

/// When fetching segment `i` fails once and fetching the segment list again succeeds,
/// delivery resumes at index `i` of the new list: no earlier chunk is delivered again,
/// and no chunk for `i` was delivered from the failed attempt.
pub proof fn lemma_resume_after_reresolve(f: FetcherModel, list: Seq<Segment>)
    requires
        f.wf(),
        f.phase == Phase::Fetching,
        f.index < f.segments.len(),
        f.resolved_at != Some(f.index),
        f.index < list.len(),
    ensures
        f.fetched(false).index == f.index,
        f.fetched(false).next_step() == FetchStep::ReResolve,
        f.fetched(false).resolved(Some(list)).next_step() == FetchStep::Fetch(f.index),
        f.fetched(false).resolved(Some(list)).segments == list,
        f.fetched(false).resolved(Some(list)).index == f.index,
{
}

/// A second failure at the same index, after the list was fetched again there, ends the
/// track; so does a failure to fetch the list again.
pub proof fn lemma_second_failure_stops(f: FetcherModel, list: Seq<Segment>)
    requires
        f.wf(),
        f.phase == Phase::Fetching,
        f.index < f.segments.len(),
        f.resolved_at != Some(f.index),
        f.index < list.len(),
    ensures
        f.fetched(false).resolved(Some(list)).fetched(false).next_step() == FetchStep::Stop,
        f.fetched(false).resolved(None).next_step() == FetchStep::Stop,
{
}

} // verus!
