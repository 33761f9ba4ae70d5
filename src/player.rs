use vstd::prelude::*;

use crate::model::{Looping, PlayerState, Playing, SongId};

verus! {

/// Gain of a freshly created output, in thousandths of full scale.
pub const FULL_VOLUME: u32 = 1000;

/// A command sent to the player's control loop.
pub enum Command {
    Pause,
    Resume,
    SkipAll,
    SkipOne,
    /// New gain, in thousandths of full scale.
    Volume(u32),
    Queue(SongId),
    QueueMany(Vec<SongId>),
    Looping(Looping),
}

/// What the control loop asks its surroundings to do, in order.
#[derive(Debug, Clone, Copy, PartialEq, Eq, Structural)]
pub enum Effect {
    /// Pause the output sink.
    PauseSink,
    /// Start or resume the output sink.
    PlaySink,
    /// Replace the output sink by a fresh, empty one with this gain.
    ResetSink { volume: u32 },
    /// Apply this gain to the current output sink.
    SetVolume { volume: u32 },
    /// Republish the queue's contents.
    PublishQueue,
    /// Republish the current track.
    PublishCurSong(Option<SongId>),
    /// Post `Command::SkipOne` to the control loop's own mailbox.
    SkipOne,
    /// Fetch the segment list of `song`, which stands at `index` in the queue.
    Load { index: usize, song: SongId },
    /// Consume a stale "finished" signal, if one is pending.
    DrainFinished,
    /// Start the fetch and decode pipeline of `song`.
    StartPipeline { song: SongId },
}

/// The mathematical state of the control loop.
pub struct PlayerModel {
    pub queue: Seq<SongId>,
    pub index: Option<usize>,
    pub looping: Looping,
    pub volume: u32,
    pub state: PlayerState,
}

/// The queue index that follows `index` in a queue of `len` entries.
pub open spec fn next_index(index: Option<usize>, len: nat, looping: Looping) -> Option<usize> {
    match index {
        None => if len > 0 { Some(0usize) } else { None },
        Some(i) => match looping {
            Looping::Off => if i + 1 < len { Some((i + 1) as usize) } else { None },
            Looping::LoopOne => Some(i),
            Looping::Loop => if i + 1 < len { Some((i + 1) as usize) } else { Some(0usize) },
        },
    }
}

impl PlayerModel {
    pub open spec fn wf(self) -> bool {
        &&& self.index matches Some(i) ==> i < self.queue.len()
        &&& self.state.looping == self.looping
    }

    pub open spec fn initial() -> PlayerModel {
        PlayerModel {
            queue: Seq::empty(),
            index: None,
            looping: Looping::LoopOne,
            volume: FULL_VOLUME,
            state: PlayerState::initial(),
        }
    }

    /// Advance to the next track by the loop policy, or fall idle.
    pub open spec fn skip_one(self) -> (PlayerModel, Seq<Effect>) {
        let next = next_index(self.index, self.queue.len(), self.looping);
        match next {
            Some(i) => (
                PlayerModel { index: next, ..self },
                seq![Effect::Load { index: i, song: self.queue[i as int] }],
            ),
            None => (
                PlayerModel {
                    index: None,
                    state: PlayerState { queue_pos_index: None, cur_song: None, ..self.state },
                    ..self
                },
                seq![Effect::ResetSink { volume: self.volume }, Effect::PublishCurSong(None)],
            ),
        }
    }

    /// One command; `sink_empty` says whether the output sink had nothing queued.
    pub open spec fn control(self, cmd: Command, sink_empty: bool) -> (PlayerModel, Seq<Effect>) {
        match cmd {
            Command::Pause => (
                PlayerModel { state: PlayerState { playing: Playing::Paused, ..self.state }, ..self },
                seq![Effect::PauseSink],
            ),
            Command::Resume => (
                PlayerModel { state: PlayerState { playing: Playing::Playing, ..self.state }, ..self },
                seq![Effect::PlaySink],
            ),
            Command::SkipAll => (self, seq![Effect::ResetSink { volume: self.volume }]),
            Command::SkipOne => self.skip_one(),
            Command::Queue(id) => {
                let q = self.queue.push(id);
                (
                    PlayerModel { queue: q, ..self },
                    if q.len() == 1 && sink_empty {
                        seq![Effect::PublishQueue, Effect::SkipOne]
                    } else {
                        seq![Effect::PublishQueue]
                    },
                )
            },
            Command::QueueMany(ids) => (
                PlayerModel { queue: self.queue + ids@, ..self },
                if sink_empty {
                    seq![Effect::PublishQueue, Effect::SkipOne]
                } else {
                    seq![Effect::PublishQueue]
                },
            ),
            Command::Volume(v) => (PlayerModel { volume: v, ..self }, seq![Effect::SetVolume { volume: v }]),
            Command::Looping(m) => (
                PlayerModel { looping: m, state: PlayerState { looping: m, ..self.state }, ..self },
                seq![],
            ),
        }
    }

    /// The segment list of the selected track came back; its length is `total_ms`.
    pub open spec fn track_ready(self, index: usize, song: SongId, total_ms: u64) -> (PlayerModel, Seq<Effect>) {
        (
            PlayerModel {
                state: PlayerState {
                    queue_pos_index: Some(index),
                    cur_song: Some(song),
                    total_ms: total_ms,
                    pos: 0,
                    ..self.state
                },
                ..self
            },
            seq![
                Effect::ResetSink { volume: self.volume },
                Effect::DrainFinished,
                Effect::PublishCurSong(Some(song)),
                Effect::StartPipeline { song },
            ],
        )
    }
}

/// The single owner of the playback state: queue, loop mode, gain and the published snapshot.
pub struct PlayerCore {
    pub queue: Vec<SongId>,
    pub queue_pos_index: Option<usize>,
    pub looping: Looping,
    pub volume: u32,
    pub state: PlayerState,
}

impl View for PlayerCore {
    type V = PlayerModel;

    open spec fn view(&self) -> PlayerModel {
        PlayerModel {
            queue: self.queue@,
            index: self.queue_pos_index,
            looping: self.looping,
            volume: self.volume,
            state: self.state,
        }
    }
}

impl PlayerCore {
    pub fn new() -> (r: PlayerCore)
        ensures
            r@ == PlayerModel::initial(),
            r@.wf(),
    {
        PlayerCore {
            queue: Vec::new(),
            queue_pos_index: None,
            looping: Looping::LoopOne,
            volume: FULL_VOLUME,
            state: PlayerState::default(),
        }
    }

    /// Move the queue index on by the loop policy and return it.
    pub fn next_track(&mut self) -> (r: Option<usize>)
        requires
            old(self)@.wf(),
        ensures
            r == next_index(old(self).queue_pos_index, old(self).queue@.len(), old(self).looping),
            final(self)@ == (PlayerModel { index: r, ..old(self)@ }),
            final(self)@.wf(),
    {
        match self.queue_pos_index {
            None => {
                if self.queue.len() != 0 {
                    self.queue_pos_index = Some(0);
                }
            },
            Some(i) => {
                let len = self.queue.len();
                match self.looping {
                    Looping::Off => {
                        if i + 1 >= len {
                            self.queue_pos_index = None;
                        } else {
                            self.queue_pos_index = Some(i + 1);
                        }
                    },
                    Looping::LoopOne => {},
                    Looping::Loop => {
                        if i + 1 >= len {
                            self.queue_pos_index = Some(0);
                        } else {
                            self.queue_pos_index = Some(i + 1);
                        }
                    },
                }
            },
        }
        self.queue_pos_index
    }

    pub fn skip_one(&mut self) -> (r: Vec<Effect>)
        requires
            old(self)@.wf(),
        ensures
            (final(self)@, r@) == old(self)@.skip_one(),
            final(self)@.wf(),
    {
        match self.next_track() {
            Some(index) => {
                let song = self.queue[index];
                vec![Effect::Load { index, song }]
            },
            None => {
                self.state.queue_pos_index = None;
                self.state.cur_song = None;
                vec![Effect::ResetSink { volume: self.volume }, Effect::PublishCurSong(None)]
            },
        }
    }

    /// Serve one command. `sink_empty` says whether the output sink had nothing queued
    /// when the command arrived.
    pub fn handle_control(&mut self, cmd: Command, sink_empty: bool) -> (r: Vec<Effect>)
        requires
            old(self)@.wf(),
        ensures
            (final(self)@, r@) == old(self)@.control(cmd, sink_empty),
            final(self)@.wf(),
    {
        match cmd {
            Command::Pause => {
                self.state.playing = Playing::Paused;
                vec![Effect::PauseSink]
            },
            Command::Resume => {
                self.state.playing = Playing::Playing;
                vec![Effect::PlaySink]
            },
            Command::SkipAll => vec![Effect::ResetSink { volume: self.volume }],
            Command::SkipOne => self.skip_one(),
            Command::Queue(id) => {
                self.queue.push(id);
                if self.queue.len() == 1 && sink_empty {
                    vec![Effect::PublishQueue, Effect::SkipOne]
                } else {
                    vec![Effect::PublishQueue]
                }
            },
            Command::QueueMany(ids) => {
                let mut ids = ids;
                let ghost before = self.queue@;
                let ghost added = ids@;
                self.queue.append(&mut ids);
                assert(self.queue@ =~= before + added);
                if sink_empty {
                    vec![Effect::PublishQueue, Effect::SkipOne]
                } else {
                    vec![Effect::PublishQueue]
                }
            },
            Command::Volume(v) => {
                self.volume = v;
                vec![Effect::SetVolume { volume: v }]
            },
            Command::Looping(m) => {
                self.looping = m;
                self.state.looping = m;
                Vec::new()
            },
        }
    }

    /// The segment list of the track that `Effect::Load` named came back, `total_ms` long.
    pub fn track_ready(&mut self, index: usize, song: SongId, total_ms: u64) -> (r: Vec<Effect>)
        requires
            old(self)@.wf(),
        ensures
            (final(self)@, r@) == old(self)@.track_ready(index, song, total_ms),
            final(self)@.wf(),
    {
        self.state.queue_pos_index = Some(index);
        self.state.cur_song = Some(song);
        self.state.total_ms = total_ms;
        self.state.pos = 0;
        vec![
            Effect::ResetSink { volume: self.volume },
            Effect::DrainFinished,
            Effect::PublishCurSong(Some(song)),
            Effect::StartPipeline { song },
        ]
    }

    /// The pipeline produced its first frame and was attached to the sink.
    pub fn track_started(&self) -> (r: Vec<Effect>)
        ensures
            r@ == seq![Effect::PlaySink],
    {
        vec![Effect::PlaySink]
    }

    /// The selected track could not be started: its segment list could not be fetched,
    /// or no first frame could be decoded. The player moves on.
    pub fn track_failed(&self) -> (r: Vec<Effect>)
        ensures
            r@ == seq![Effect::SkipOne],
    {
        vec![Effect::SkipOne]
    }

    /// The decoder signalled that the current track is exhausted.
    pub fn finished(&self) -> (r: Vec<Effect>)
        ensures
            r@ == seq![Effect::SkipOne],
    {
        vec![Effect::SkipOne]
    }

    /// Periodic telemetry from the sample stream of the playing track.
    pub fn report_progress(&mut self, sample_rate: usize, pos: u64)
        requires
            old(self)@.wf(),
        ensures
            final(self)@ == (PlayerModel {
                state: PlayerState { playing: Playing::Playing, sample_rate, pos, ..old(self).state },
                ..old(self)@
            }),
            final(self)@.wf(),
    {
        self.state.playing = Playing::Playing;
        self.state.sample_rate = sample_rate;
        self.state.pos = pos;
    }
}

/// One input of the control loop: a command (with whether the sink was empty), or the
/// arrival of a selected track's segment list.
pub enum Input {
    Control(Command, bool),
    Ready(usize, SongId, u64),
}

impl PlayerModel {
    pub open spec fn step(self, input: Input) -> (PlayerModel, Seq<Effect>) {
        match input {
            Input::Control(cmd, sink_empty) => self.control(cmd, sink_empty),
            Input::Ready(index, song, total_ms) => self.track_ready(index, song, total_ms),
        }
    }

    /// The state after `inputs`, and every effect they asked for, in order.
    pub open spec fn run(self, inputs: Seq<Input>) -> (PlayerModel, Seq<Effect>)
        decreases inputs.len(),
    {
        if inputs.len() == 0 {
            (self, Seq::empty())
        } else {
            let (m, e) = self.step(inputs[0]);
            let (m2, e2) = m.run(inputs.drop_first());
            (m2, e + e2)
        }
    }
}

pub open spec fn is_volume_input(input: Input) -> bool {
    input matches Input::Control(Command::Volume(_), _)
}

pub open spec fn resets_carry(effects: Seq<Effect>, v: u32) -> bool {
    forall|j: int| 0 <= j < effects.len() ==> (#[trigger] effects[j] matches Effect::ResetSink { volume } ==> volume == v)
}

/// Queueing two tracks into an idle player that does not loop starts the first one without
/// a skip; one skip then starts the second, and a further skip leaves the player idle with
/// no current track.
pub proof fn lemma_queue_then_skip(
    c0: PlayerModel,
    ids: Vec<SongId>,
    a: SongId,
    b: SongId,
    total_a: u64,
    total_b: u64,
)
    requires
        c0.wf(),
        c0.queue.len() == 0,
        c0.index is None,
        c0.looping == Looping::Off,
        ids@ == seq![a, b],
    ensures
        ({
            let (c1, e1) = c0.control(Command::QueueMany(ids), true);
            let (c2, e2) = c1.control(Command::SkipOne, true);
            let (c3, e3) = c2.track_ready(0, a, total_a);
            let (c4, e4) = c3.control(Command::SkipOne, false);
            let (c5, e5) = c4.track_ready(1, b, total_b);
            let (c6, e6) = c5.control(Command::SkipOne, false);
            &&& e1 == seq![Effect::PublishQueue, Effect::SkipOne]
            &&& e2 == seq![Effect::Load { index: 0, song: a }]
            &&& c3.state.cur_song == Some(a)
            &&& e4 == seq![Effect::Load { index: 1, song: b }]
            &&& c5.state.cur_song == Some(b)
            &&& e6 == seq![Effect::ResetSink { volume: c0.volume }, Effect::PublishCurSong(None)]
            &&& c6.state.cur_song is None
            &&& c6.state.queue_pos_index is None
            &&& c6.index is None
        }),
{
    let (c1, e1) = c0.control(Command::QueueMany(ids), true);
    assert(c1.queue =~= seq![a, b]);
}

/// Inputs other than a gain change keep the gain, and every output sink they recreate
/// is given that gain.
pub proof fn lemma_run_keeps_volume(c: PlayerModel, inputs: Seq<Input>)
    requires
        forall|i: int| 0 <= i < inputs.len() ==> !is_volume_input(#[trigger] inputs[i]),
    ensures
        c.run(inputs).0.volume == c.volume,
        resets_carry(c.run(inputs).1, c.volume),
    decreases inputs.len(),
{
    if inputs.len() > 0 {
        assert(!is_volume_input(inputs[0]));
        let (m, e) = c.step(inputs[0]);
        lemma_run_keeps_volume(m, inputs.drop_first());
        let (m2, e2) = m.run(inputs.drop_first());
        assert forall|j: int| 0 <= j < (e + e2).len() implies
            (#[trigger] (e + e2)[j] matches Effect::ResetSink { volume } ==> volume == c.volume) by {
            if j >= e.len() {
                assert((e + e2)[j] == e2[j - e.len()]);
            }
        }
    }
}

/// After the gain is set to `v`, any inputs other than a gain change leave it at `v`, and
/// every output sink recreated meanwhile (on a skip, a track change or a reset) gets `v`.
pub proof fn lemma_volume_persists(c: PlayerModel, v: u32, sink_empty: bool, inputs: Seq<Input>)
    requires
        forall|i: int| 0 <= i < inputs.len() ==> !is_volume_input(#[trigger] inputs[i]),
    ensures
        ({
            let (c1, e1) = c.control(Command::Volume(v), sink_empty);
            let (c2, e2) = c1.run(inputs);
            &&& e1 == seq![Effect::SetVolume { volume: v }]
            &&& c2.volume == v
            &&& resets_carry(e2, v)
        }),
{
    let (c1, e1) = c.control(Command::Volume(v), sink_empty);
    lemma_run_keeps_volume(c1, inputs);
}

} // verus!
