use audio::chunk_channel::{ChunkChannel, RecvResult, SendResult, DOWNLOAD_AHEAD};
use audio::chunk_source::{total_duration_ms, FetchStep, Segment, SegmentFetcher};
use audio::decoder::{DecodeError, Frame, FrameSlot, HlsDecoder, Sample};
use audio::stream_buffer::{ChunkPoll, HlsReader, ReadPoll, STORE_LOW_MARK};

fn frame(data: &[i16]) -> Frame {
    Frame { data: data.to_vec(), channels: 2, sample_rate: 44100 }
}

fn segs(names: &[&str]) -> Vec<Segment> {
    names.iter().map(|n| Segment { uri: n.to_string(), duration_ms: 1000 }).collect()
}

#[test]
fn reader_conserves_bytes_across_unaligned_reads() {
    let mut r = HlsReader::new();
    let chunks: Vec<Vec<u8>> = vec![vec![1, 2, 3], vec![], vec![4, 5, 6, 7, 8], vec![9]];
    let mut out = Vec::new();
    let sizes = [2usize, 4, 1, 0, 7];
    for (i, c) in chunks.iter().enumerate() {
        r.append(c.clone());
        out.extend(r.take(sizes[i]));
    }
    out.extend(r.take(sizes[4]));
    assert_eq!(out, vec![1, 2, 3, 4, 5, 6, 7, 8, 9]);
    assert_eq!(r.len(), 0);
}

#[test]
fn reader_poll_read_paths() {
    let mut r = HlsReader::new();
    assert!(r.needs_fill());
    assert!(matches!(r.poll_read(Some(ChunkPoll::Pending), 4), ReadPoll::Pending));
    match r.poll_read(Some(ChunkPoll::Chunk(vec![1, 2, 3, 4, 5, 6])), 4) {
        ReadPoll::Ready(b) => assert_eq!(b, vec![1, 2, 3, 4]),
        ReadPoll::Pending => panic!("expected bytes"),
    }
    match r.poll_read(None, 10) {
        ReadPoll::Ready(b) => assert_eq!(b, vec![5, 6]),
        ReadPoll::Pending => panic!("expected bytes"),
    }
    match r.poll_read(Some(ChunkPoll::Closed), 10) {
        ReadPoll::Ready(b) => assert!(b.is_empty()),
        ReadPoll::Pending => panic!("expected end of stream"),
    }
}

#[test]
fn reader_low_water_mark() {
    let mut r = HlsReader::new();
    r.append(vec![0; STORE_LOW_MARK - 1]);
    assert!(r.needs_fill());
    r.append(vec![0]);
    assert!(!r.needs_fill());
}

#[test]
fn channel_applies_backpressure() {
    let mut ch = ChunkChannel::new(DOWNLOAD_AHEAD);
    for i in 0..DOWNLOAD_AHEAD {
        assert!(matches!(ch.try_send(vec![i as u8]), SendResult::Sent));
    }
    assert_eq!(ch.len(), DOWNLOAD_AHEAD);
    match ch.try_send(vec![99]) {
        SendResult::Full(c) => assert_eq!(c, vec![99]),
        _ => panic!("a full channel must refuse"),
    }
    assert!(matches!(ch.try_recv(), RecvResult::Chunk(c) if c == vec![0]));
    assert!(matches!(ch.try_send(vec![99]), SendResult::Sent));
    assert_eq!(ch.len(), DOWNLOAD_AHEAD);
}

#[test]
fn channel_order_and_closing() {
    let mut ch = ChunkChannel::new(2);
    assert!(matches!(ch.try_recv(), RecvResult::Empty));
    ch.try_send(vec![1]);
    ch.try_send(vec![2]);
    ch.close_sender();
    assert!(matches!(ch.try_recv(), RecvResult::Chunk(c) if c == vec![1]));
    assert!(matches!(ch.try_recv(), RecvResult::Chunk(c) if c == vec![2]));
    assert!(matches!(ch.try_recv(), RecvResult::Closed));
    let mut gone = ChunkChannel::new(1);
    gone.close_receiver();
    assert!(matches!(gone.try_send(vec![7]), SendResult::Gone(c) if c == vec![7]));
}

#[test]
fn fetcher_resumes_at_failed_index_with_new_list() {
    let mut f = SegmentFetcher::new(segs(&["a0", "a1", "a2", "a3", "a4"]));
    let mut delivered = Vec::new();
    for i in 0..3 {
        assert_eq!(f.next_step(), FetchStep::Fetch(i));
        delivered.push(f.uri(i).to_string());
        f.fetched(true);
    }
    assert_eq!(f.next_step(), FetchStep::Fetch(3));
    f.fetched(false);
    assert_eq!(f.next_step(), FetchStep::ReResolve);
    f.resolved(Some(segs(&["b0", "b1", "b2", "b3", "b4"])));
    assert_eq!(f.delivered(), 3);
    while let FetchStep::Fetch(i) = f.next_step() {
        delivered.push(f.uri(i).to_string());
        f.fetched(true);
    }
    assert_eq!(delivered, vec!["a0", "a1", "a2", "b3", "b4"]);
    assert_eq!(f.next_step(), FetchStep::Stop);
}

#[test]
fn fetcher_stops_on_repeated_failure_or_failed_list() {
    let mut f = SegmentFetcher::new(segs(&["a0", "a1"]));
    f.fetched(false);
    f.resolved(Some(segs(&["b0", "b1"])));
    assert_eq!(f.next_step(), FetchStep::Fetch(0));
    f.fetched(false);
    assert_eq!(f.next_step(), FetchStep::Stop);

    let mut g = SegmentFetcher::new(segs(&["a0"]));
    g.fetched(false);
    g.resolved(None);
    assert_eq!(g.next_step(), FetchStep::Stop);

    let mut h = SegmentFetcher::new(segs(&["a0", "a1"]));
    h.fetched(true);
    h.receiver_gone();
    assert_eq!(h.next_step(), FetchStep::Stop);
}

#[test]
fn total_duration_sums_and_saturates() {
    let mut s = segs(&["a", "b", "c"]);
    s[1].duration_ms = 2500;
    assert_eq!(total_duration_ms(&s), 4500);
    assert_eq!(total_duration_ms(&Vec::new()), 0);
    s[2].duration_ms = u64::MAX;
    assert_eq!(total_duration_ms(&s), u64::MAX);
}

#[test]
fn decoder_needs_a_first_frame() {
    assert!(matches!(HlsDecoder::new(None), Err(DecodeError::NoInitialFrame)));
}

#[test]
fn decoder_position_is_monotonic_and_finishes_once() {
    let mut d = HlsDecoder::new(Some(frame(&[1, 2]))).ok().unwrap();
    let mut slot = FrameSlot::new();
    assert_eq!(d.samples(), 0);
    assert_eq!(d.channels(), 2);
    assert_eq!(d.sample_rate(), 44100);
    assert_eq!(d.current_frame_len(), 2);
    assert!(slot.put(frame(&[3, 4, 5])).is_ok());
    assert!(slot.put(frame(&[6])).is_err());
    let mut last = 0;
    let mut got = Vec::new();
    let mut signals = 0;
    for step in 0..12 {
        if step == 6 {
            slot.close();
        }
        match d.next(&mut slot) {
            Sample::Value(v) => got.push(v),
            Sample::Silence => {}
            Sample::End { signal } => {
                if signal {
                    signals += 1;
                }
            }
        }
        assert!(d.samples() >= last);
        last = d.samples();
    }
    assert_eq!(got, vec![1, 2, 3, 4, 5]);
    assert_eq!(signals, 1);
    assert_eq!(d.samples(), 5);
    assert!(d.is_finished());
}

#[test]
fn decoder_plays_silence_while_slot_is_empty() {
    let mut d = HlsDecoder::new(Some(frame(&[7]))).ok().unwrap();
    let mut slot = FrameSlot::new();
    assert_eq!(d.next(&mut slot), Sample::Value(7));
    assert_eq!(d.next(&mut slot), Sample::Silence);
    assert_eq!(d.samples(), 1);
    slot.put(frame(&[])).ok().unwrap();
    assert_eq!(d.next(&mut slot), Sample::Silence);
    slot.put(frame(&[8])).ok().unwrap();
    assert_eq!(d.next(&mut slot), Sample::Value(8));
    assert_eq!(d.samples(), 2);
}

#[test]
fn new_track_starts_at_position_zero() {
    let mut d = HlsDecoder::new(Some(frame(&[1, 2, 3]))).ok().unwrap();
    let mut slot = FrameSlot::new();
    d.next(&mut slot);
    d.next(&mut slot);
    assert_eq!(d.samples(), 2);
    let d2 = HlsDecoder::new(Some(frame(&[9]))).ok().unwrap();
    assert_eq!(d2.samples(), 0);
}
