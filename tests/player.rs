use audio::player::{Command, Effect, PlayerCore, FULL_VOLUME};
use audio::{Looping, PlayerState, Playing};

fn core_with(queue: &[i64], index: Option<usize>, looping: Looping) -> PlayerCore {
    let mut c = PlayerCore::new();
    c.handle_control(Command::QueueMany(queue.to_vec()), false);
    c.handle_control(Command::Looping(looping), false);
    c.queue_pos_index = index;
    c
}

#[test]
fn new_player_is_idle() {
    let c = PlayerCore::new();
    assert!(c.queue.is_empty());
    assert_eq!(c.queue_pos_index, None);
    assert_eq!(c.looping, Looping::LoopOne);
    assert_eq!(c.volume, FULL_VOLUME);
    assert_eq!(c.state, PlayerState::default());
    assert_eq!(c.state.sample_rate, 44100);
    assert_eq!(c.state.playing, Playing::Paused);
}

#[test]
fn next_track_off_advances() {
    let mut c = core_with(&[1, 2, 3], Some(1), Looping::Off);
    assert_eq!(c.next_track(), Some(2));
    assert_eq!(c.queue_pos_index, Some(2));
}

#[test]
fn next_track_off_falls_off_the_end() {
    let mut c = core_with(&[1, 2, 3], Some(2), Looping::Off);
    assert_eq!(c.next_track(), None);
    assert_eq!(c.queue, vec![1, 2, 3]);
}

#[test]
fn next_track_loop_wraps() {
    let mut c = core_with(&[1, 2, 3], Some(2), Looping::Loop);
    assert_eq!(c.next_track(), Some(0));
    let mut c = core_with(&[1, 2, 3], Some(1), Looping::Loop);
    assert_eq!(c.next_track(), Some(2));
}

#[test]
fn next_track_loop_one_stays() {
    let mut c = core_with(&[1, 2, 3], Some(1), Looping::LoopOne);
    assert_eq!(c.next_track(), Some(1));
    assert_eq!(c.next_track(), Some(1));
}

#[test]
fn next_track_without_index_starts_at_zero() {
    let mut c = core_with(&[1, 2, 3], None, Looping::Off);
    assert_eq!(c.next_track(), Some(0));
    let mut empty = PlayerCore::new();
    assert_eq!(empty.next_track(), None);
}

#[test]
fn user_skip_in_loop_one_replays_the_same_entry() {
    let mut c = core_with(&[10, 20], Some(0), Looping::LoopOne);
    assert_eq!(c.handle_control(Command::SkipOne, false), vec![Effect::Load { index: 0, song: 10 }]);
}

#[test]
fn queue_then_skip_end_to_end() {
    let mut c = PlayerCore::new();
    c.handle_control(Command::Looping(Looping::Off), true);
    let e = c.handle_control(Command::QueueMany(vec![100, 200]), true);
    assert_eq!(e, vec![Effect::PublishQueue, Effect::SkipOne]);
    let e = c.handle_control(Command::SkipOne, true);
    assert_eq!(e, vec![Effect::Load { index: 0, song: 100 }]);
    let e = c.track_ready(0, 100, 5000);
    assert_eq!(
        e,
        vec![
            Effect::ResetSink { volume: FULL_VOLUME },
            Effect::DrainFinished,
            Effect::PublishCurSong(Some(100)),
            Effect::StartPipeline { song: 100 },
        ]
    );
    assert_eq!(c.state.cur_song, Some(100));
    assert_eq!(c.state.total_ms, 5000);
    let e = c.handle_control(Command::SkipOne, false);
    assert_eq!(e, vec![Effect::Load { index: 1, song: 200 }]);
    c.track_ready(1, 200, 7000);
    assert_eq!(c.state.cur_song, Some(200));
    assert_eq!(c.state.queue_pos_index, Some(1));
    let e = c.handle_control(Command::SkipOne, false);
    assert_eq!(e, vec![Effect::ResetSink { volume: FULL_VOLUME }, Effect::PublishCurSong(None)]);
    assert_eq!(c.state.cur_song, None);
    assert_eq!(c.state.queue_pos_index, None);
    assert_eq!(c.queue_pos_index, None);
}

#[test]
fn volume_persists_across_sink_resets() {
    let mut c = PlayerCore::new();
    c.handle_control(Command::Looping(Looping::Loop), true);
    assert_eq!(c.handle_control(Command::Volume(300), true), vec![Effect::SetVolume { volume: 300 }]);
    c.handle_control(Command::QueueMany(vec![1, 2]), true);
    c.handle_control(Command::SkipOne, true);
    let e = c.track_ready(0, 1, 10);
    assert_eq!(e[0], Effect::ResetSink { volume: 300 });
    c.handle_control(Command::SkipOne, false);
    let e = c.track_ready(1, 2, 10);
    assert_eq!(e[0], Effect::ResetSink { volume: 300 });
    assert_eq!(c.handle_control(Command::SkipAll, false), vec![Effect::ResetSink { volume: 300 }]);
    assert_eq!(c.volume, 300);
}

#[test]
fn pause_and_resume_publish_playing() {
    let mut c = PlayerCore::new();
    assert_eq!(c.handle_control(Command::Resume, false), vec![Effect::PlaySink]);
    assert_eq!(c.state.playing, Playing::Playing);
    assert_eq!(c.handle_control(Command::Pause, false), vec![Effect::PauseSink]);
    assert_eq!(c.state.playing, Playing::Paused);
}

#[test]
fn queue_one_starts_only_when_first_and_sink_empty() {
    let mut c = PlayerCore::new();
    assert_eq!(c.handle_control(Command::Queue(5), false), vec![Effect::PublishQueue]);
    assert_eq!(c.handle_control(Command::Queue(6), true), vec![Effect::PublishQueue]);
    let mut d = PlayerCore::new();
    assert_eq!(d.handle_control(Command::Queue(5), true), vec![Effect::PublishQueue, Effect::SkipOne]);
    assert_eq!(d.queue, vec![5]);
}

#[test]
fn queue_many_starts_when_sink_empty() {
    let mut c = PlayerCore::new();
    c.handle_control(Command::Queue(1), false);
    assert_eq!(c.handle_control(Command::QueueMany(vec![2, 3]), true), vec![Effect::PublishQueue, Effect::SkipOne]);
    assert_eq!(c.handle_control(Command::QueueMany(vec![4]), false), vec![Effect::PublishQueue]);
    assert_eq!(c.queue, vec![1, 2, 3, 4]);
}

#[test]
fn looping_is_published() {
    let mut c = PlayerCore::new();
    assert!(c.handle_control(Command::Looping(Looping::Loop), false).is_empty());
    assert_eq!(c.looping, Looping::Loop);
    assert_eq!(c.state.looping, Looping::Loop);
}

#[test]
fn start_failure_and_finish_skip_on() {
    let c = PlayerCore::new();
    assert_eq!(c.track_failed(), vec![Effect::SkipOne]);
    assert_eq!(c.finished(), vec![Effect::SkipOne]);
    assert_eq!(c.track_started(), vec![Effect::PlaySink]);
}

#[test]
fn progress_is_published() {
    let mut c = PlayerCore::new();
    c.report_progress(48000, 1234);
    assert_eq!(c.state.playing, Playing::Playing);
    assert_eq!(c.state.sample_rate, 48000);
    assert_eq!(c.state.pos, 1234);
}

#[test]
fn skip_on_empty_queue_goes_idle() {
    let mut c = PlayerCore::new();
    let e = c.handle_control(Command::SkipOne, true);
    assert_eq!(e, vec![Effect::ResetSink { volume: FULL_VOLUME }, Effect::PublishCurSong(None)]);
    assert_eq!(c.state.cur_song, None);
}
