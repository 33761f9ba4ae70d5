use vstd::prelude::*;

verus! {

/// One decoded frame: interleaved 16-bit samples, channel count and sample rate.
pub struct Frame {
    pub data: Vec<i16>,
    pub channels: u16,
    pub sample_rate: u32,
}

pub struct FrameModel {
    pub data: Seq<i16>,
    pub channels: u16,
    pub sample_rate: u32,
}

impl View for Frame {
    type V = FrameModel;

    open spec fn view(&self) -> FrameModel {
        FrameModel { data: self.data@, channels: self.channels, sample_rate: self.sample_rate }
    }
}

/// The one-frame read-ahead cache between the decoding worker and the sample consumer.
pub struct FrameSlot {
    pub frame: Option<Frame>,
    /// Set once the worker can produce no more frames (end of stream or decode error).
    pub closed: bool,
}

pub struct SlotModel {
    pub frame: Option<FrameModel>,
    pub closed: bool,
}

impl FrameModel {
    /// A frame that an executable `Vec` can hold.
    pub open spec fn wf(self) -> bool {
        self.data.len() <= usize::MAX
    }
}

impl SlotModel {
    pub open spec fn wf(self) -> bool {
        self.frame matches Some(f) ==> f.wf()
    }
}

impl View for FrameSlot {
    type V = SlotModel;

    open spec fn view(&self) -> SlotModel {
        SlotModel {
            frame: match self.frame {
                Some(f) => Some(f@),
                None => None,
            },
            closed: self.closed,
        }
    }
}

impl FrameSlot {
    pub fn new() -> (r: FrameSlot)
        ensures
            r@ == (SlotModel { frame: None, closed: false }),
    {
        FrameSlot { frame: None, closed: false }
    }

    pub fn is_occupied(&self) -> (r: bool)
        ensures
            r == self.frame.is_some(),
    {
        self.frame.is_some()
    }

    /// Offer a decoded frame. It is handed back when the slot is occupied or closed:
    /// the worker then waits and offers it again.
    pub fn put(&mut self, frame: Frame) -> (r: Result<(), Frame>)
        ensures
            old(self).frame.is_none() && !old(self).closed ==> r is Ok && final(self)@ == (SlotModel {
                frame: Some(frame@),
                closed: false,
            }),
            old(self).frame.is_some() || old(self).closed ==> r == Err::<(), Frame>(frame)
                && final(self)@ == old(self)@,
    {
        if self.frame.is_some() || self.closed {
            Err(frame)
        } else {
            self.frame = Some(frame);
            Ok(())
        }
    }

    /// The worker will produce no more frames.
    pub fn close(&mut self)
        ensures
            final(self)@ == (SlotModel { closed: true, ..old(self)@ }),
    {
        self.closed = true;
    }
}

/// What the consumer gets for one sample request.
#[derive(Debug, Clone, Copy, PartialEq, Eq, Structural)]
pub enum Sample {
    Value(i16),
    /// No decoded sample is available yet: play silence, position unchanged.
    Silence,
    /// The track is over. `signal` is set on the one call that must raise the
    /// track's "finished" signal.
    End { signal: bool },
}

/// The track could not be started.
#[derive(Debug, Clone, Copy, PartialEq, Eq, Structural)]
pub enum DecodeError {
    /// The stream ended before a first frame could be decoded.
    NoInitialFrame,
}

pub struct DecoderModel {
    pub frame: FrameModel,
    pub offset: usize,
    pub elapsed: usize,
    pub finished: bool,
}

pub open spec fn sat_add(a: usize, b: usize) -> usize {
    if a + b > usize::MAX { usize::MAX } else { (a + b) as usize }
}

impl DecoderModel {
    pub open spec fn wf(self) -> bool {
        &&& self.frame.wf()
        &&& self.offset <= self.frame.data.len()
    }

    /// Samples played so far: whole prior frames plus the offset into the current one.
    pub open spec fn samples(self) -> usize {
        sat_add(self.elapsed, self.offset)
    }

    /// One sample request, against the slot as the worker has left it.
    pub open spec fn next(self, slot: SlotModel) -> (DecoderModel, SlotModel, Sample) {
        if self.finished {
            (self, slot, Sample::End { signal: false })
        } else if self.offset < self.frame.data.len() {
            (
                DecoderModel { offset: (self.offset + 1) as usize, ..self },
                slot,
                Sample::Value(self.frame.data[self.offset as int]),
            )
        } else {
            match slot.frame {
                Some(f) => {
                    let elapsed = sat_add(self.elapsed, self.offset);
                    let emptied = SlotModel { frame: None, ..slot };
                    if f.data.len() > 0 {
                        (
                            DecoderModel { frame: f, offset: 1, elapsed, finished: false },
                            emptied,
                            Sample::Value(f.data[0]),
                        )
                    } else {
                        (DecoderModel { frame: f, offset: 0, elapsed, finished: false }, emptied, Sample::Silence)
                    }
                },
                None => if slot.closed {
                    (DecoderModel { finished: true, ..self }, slot, Sample::End { signal: true })
                } else {
                    (self, slot, Sample::Silence)
                },
            }
        }
    }
}

/// The consuming side of a track's frame decoder: the frame being played, the
/// position in it, and the samples of the frames before it.
pub struct HlsDecoder {
    current_frame: Frame,
    current_frame_offset: usize,
    elapsed: usize,
    finished: bool,
}

impl View for HlsDecoder {
    type V = DecoderModel;

    closed spec fn view(&self) -> DecoderModel {
        DecoderModel {
            frame: self.current_frame@,
            offset: self.current_frame_offset,
            elapsed: self.elapsed,
            finished: self.finished,
        }
    }
}

impl HlsDecoder {
    #[verifier::type_invariant]
    closed spec fn inv(self) -> bool {
        self@.wf()
    }

    /// Start on the first decoded frame; without one the track cannot start.
    pub fn new(first: Option<Frame>) -> (r: Result<HlsDecoder, DecodeError>)
        ensures
            first is None ==> r == Err::<HlsDecoder, DecodeError>(DecodeError::NoInitialFrame),
            first matches Some(f) ==> r matches Ok(d) && d@ == (DecoderModel {
                frame: f@,
                offset: 0,
                elapsed: 0,
                finished: false,
            }),
    {
        match first {
            None => Err(DecodeError::NoInitialFrame),
            Some(f) => {
                proof {
                    assert(f.data.len() == f.data@.len());
                }
                Ok(HlsDecoder { current_frame: f, current_frame_offset: 0, elapsed: 0, finished: false })
            },
        }
    }

    pub fn samples(&self) -> (r: usize)
        ensures
            r == self@.samples(),
    {
        self.elapsed.saturating_add(self.current_frame_offset)
    }

    pub fn current_frame_len(&self) -> (r: usize)
        ensures
            r == self@.frame.data.len(),
    {
        self.current_frame.data.len()
    }

    pub fn channels(&self) -> (r: u16)
        ensures
            r == self@.frame.channels,
    {
        self.current_frame.channels
    }

    pub fn sample_rate(&self) -> (r: u32)
        ensures
            r == self@.frame.sample_rate,
    {
        self.current_frame.sample_rate
    }

    pub fn is_finished(&self) -> (r: bool)
        ensures
            r == self@.finished,
    {
        self.finished
    }

    /// Produce the next sample, swapping in the read-ahead frame at a frame boundary.
    pub fn next(&mut self, slot: &mut FrameSlot) -> (r: Sample)
        ensures
            (final(self)@, final(slot)@, r) == old(self)@.next(old(slot)@),
            final(self)@.samples() >= old(self)@.samples(),
    {
        proof {
            use_type_invariant(&*self);
        }
        if self.finished {
            return Sample::End { signal: false };
        }
        if self.current_frame_offset < self.current_frame.data.len() {
            let v = self.current_frame.data[self.current_frame_offset];
            self.current_frame_offset = self.current_frame_offset + 1;
            return Sample::Value(v);
        }
        let taken = slot.frame.take();
        match taken {
            Some(f) => {
                proof {
                    assert(f.data.len() == f.data@.len());
                }
                self.elapsed = self.elapsed.saturating_add(self.current_frame_offset);
                self.current_frame_offset = 0;
                self.current_frame = f;
                if self.current_frame.data.len() > 0 {
                    self.current_frame_offset = 1;
                    Sample::Value(self.current_frame.data[0])
                } else {
                    Sample::Silence
                }
            },
            None => {
                if slot.closed {
                    self.finished = true;
                    Sample::End { signal: true }
                } else {
                    Sample::Silence
                }
            },
        }
    }
}

impl DecoderModel {
    /// The decoder after one sample request per entry of `slots`, each made against the
    /// slot as the worker left it, and how many of those requests raised the finished signal.
    pub open spec fn run(self, slots: Seq<SlotModel>) -> (DecoderModel, nat)
        decreases slots.len(),
    {
        if slots.len() == 0 {
            (self, 0)
        } else {
            let (d, _s, r) = self.next(slots[0]);
            let (d2, n) = d.run(slots.drop_first());
            (d2, n + if r == (Sample::End { signal: true }) { 1nat } else { 0nat })
        }
    }
}

proof fn lemma_next_monotonic(d: DecoderModel, slot: SlotModel)
    requires
        d.wf(),
        slot.wf(),
    ensures
        d.next(slot).0.samples() >= d.samples(),
        d.next(slot).0.wf(),
{
    let e = sat_add(d.elapsed, d.offset);
    if !d.finished && d.offset >= d.frame.data.len() {
        if let Some(f) = slot.frame {
            if f.data.len() > 0 {
                assert(sat_add(e, 1) >= e);
            } else {
                assert(sat_add(e, 0) == e);
            }
        }
    }
}

/// Within a track the reported position never decreases, whatever the worker does to the
/// read-ahead slot between requests; a new track starts at position 0.
pub proof fn lemma_position_monotonic(d: DecoderModel, slots: Seq<SlotModel>, first: FrameModel)
    requires
        d.wf(),
        forall|i: int| 0 <= i < slots.len() ==> (#[trigger] slots[i]).wf(),
    ensures
        d.run(slots).0.samples() >= d.samples(),
        d.run(slots).0.wf(),
        (DecoderModel { frame: first, offset: 0, elapsed: 0, finished: false }).samples() == 0,
    decreases slots.len(),
{
    if slots.len() > 0 {
        let d1 = d.next(slots[0]).0;
        lemma_next_monotonic(d, slots[0]);
        lemma_position_monotonic(d1, slots.drop_first(), first);
    }
}

/// The finished signal is raised at most once per track, and exactly once when the track
/// reaches its end: a request at a frame boundary that finds the slot empty and closed.
pub proof fn lemma_finish_once(d: DecoderModel, slots: Seq<SlotModel>)
    ensures
        d.run(slots).1 <= 1,
        d.run(slots).1 == 1 <==> (!d.finished && d.run(slots).0.finished),
        d.finished ==> d.run(slots).0.finished,
    decreases slots.len(),
{
    if slots.len() > 0 {
        let (d1, _s, _r) = d.next(slots[0]);
        lemma_finish_once(d1, slots.drop_first());
    }
}

/// A request at the end of the current frame, with the slot empty and closed, ends the
/// track and raises the finished signal, unless it was raised before.
pub proof fn lemma_exhaustion_finishes(d: DecoderModel, slot: SlotModel)
    requires
        d.wf(),
        d.offset == d.frame.data.len(),
        slot.frame is None,
        slot.closed,
    ensures
        d.next(slot).0.finished,
        d.next(slot).2 == (Sample::End { signal: !d.finished }),
{
}

} // verus!
