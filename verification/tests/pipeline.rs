use ip_talkie::codec::{decode_sample, encode, SAMPLE_ONE, SAMPLE_UNIT};
use ip_talkie::lifecycle::{CancelToken, RunState};
use ip_talkie::pipeline::{
    capture_callback, fill_from_samples, fill_silence, next_phase, playback_callback, DuplexLink,
    PipelinePhase,
};

fn to_fixed(x: f32) -> i32 {
    (x * SAMPLE_ONE as f32) as i32
}

#[test]
fn capture_running_sends_encoded_buffer() {
    let token = CancelToken::new();
    let buffer = vec![to_fixed(0.5), to_fixed(-0.5), to_fixed(0.0)];
    let sent = capture_callback(&token, &buffer);
    assert_eq!(sent, Some(vec![191, 64, 128]));
    assert_eq!(sent.unwrap(), encode(&buffer));
}

#[test]
fn capture_after_stop_drops_buffer() {
    let mut token = CancelToken::new();
    token.signal_stop();
    let buffer = vec![100, 200, 300];
    assert_eq!(capture_callback(&token, &buffer), None);
}

#[test]
fn duplex_exchange_scenario() {
    // One full exchange: capture [0.5, -0.5, 0.0], send the datagram, feed
    // the same bytes to playback, and check every rendered sample lies
    // within one quantization step of the original.
    let token = CancelToken::new();
    let captured = vec![to_fixed(0.5), to_fixed(-0.5), to_fixed(0.0)];
    let datagram = capture_callback(&token, &captured).expect("running link must send");
    assert_eq!(datagram.len(), captured.len());

    let mut out: Vec<i32> = vec![0; 3];
    playback_callback(&token, Some(&datagram), &mut out);
    for (rendered, original) in out.iter().zip(captured.iter()) {
        assert!((rendered - original).abs() <= SAMPLE_UNIT);
    }
}

#[test]
fn oversized_packet_copies_prefix_only() {
    // Output capacity 256 samples, incoming decoded buffer 1024 samples:
    // exactly the first 256 are copied, the rest is discarded, no crash.
    let token = CancelToken::new();
    let packet: Vec<u8> = vec![200; 1024];
    let mut out: Vec<i32> = vec![7; 256];
    playback_callback(&token, Some(&packet), &mut out);
    assert_eq!(out.len(), 256);
    let expected = decode_sample(200);
    assert!(out.iter().all(|&s| s == expected));
}

#[test]
fn short_packet_leaves_tail_as_prefilled() {
    let token = CancelToken::new();
    let packet: Vec<u8> = vec![191, 64];
    let mut out: Vec<i32> = vec![7; 4];
    playback_callback(&token, Some(&packet), &mut out);
    assert_eq!(out, vec![decode_sample(191), decode_sample(64), 7, 7]);
}

#[test]
fn underrun_renders_silence() {
    let token = CancelToken::new();
    let mut out: Vec<i32> = vec![7; 8];
    playback_callback(&token, None, &mut out);
    assert_eq!(out, vec![0; 8]);
}

#[test]
fn playback_after_stop_leaves_buffer() {
    let mut token = CancelToken::new();
    token.signal_stop();
    let mut out: Vec<i32> = vec![7; 4];
    playback_callback(&token, Some(&vec![1, 2, 3, 4]), &mut out);
    assert_eq!(out, vec![7; 4]);
    playback_callback(&token, None, &mut out);
    assert_eq!(out, vec![7; 4]);
}

#[test]
fn fill_from_samples_truncates_and_keeps_tail() {
    let mut out: Vec<i32> = vec![1, 2, 3];
    fill_from_samples(&mut out, &vec![10, 20, 30, 40, 50]);
    assert_eq!(out, vec![10, 20, 30]);
    let mut out2: Vec<i32> = vec![1, 2, 3];
    fill_from_samples(&mut out2, &vec![10]);
    assert_eq!(out2, vec![10, 2, 3]);
}

#[test]
fn fill_silence_zeroes_everything() {
    let mut out: Vec<i32> = vec![5, -5, 9];
    fill_silence(&mut out);
    assert_eq!(out, vec![0, 0, 0]);
}

#[test]
fn signal_stop_is_idempotent() {
    let mut token = CancelToken::new();
    assert!(token.is_running());
    assert_eq!(token.state, RunState::Running);
    token.signal_stop();
    assert!(!token.is_running());
    token.signal_stop();
    assert!(!token.is_running());
    assert_eq!(token.state, RunState::Stopping);
}

#[test]
fn shutdown_stops_phase_within_two_ticks() {
    let mut token = CancelToken::new();
    token.signal_stop();
    for start in [
        PipelinePhase::Idle,
        PipelinePhase::Running,
        PipelinePhase::Draining,
        PipelinePhase::Stopped,
    ] {
        let once = next_phase(start, &token);
        let twice = next_phase(once, &token);
        assert_eq!(twice, PipelinePhase::Stopped);
    }
}

#[test]
fn duplex_shutdown_stops_both_loops() {
    let running = CancelToken::new();
    let mut link = DuplexLink::new();
    link.capture_tick(&running);
    link.playback_tick(&running);
    assert_eq!(link.capture, PipelinePhase::Running);
    assert_eq!(link.playback, PipelinePhase::Running);
    assert!(!link.both_stopped());

    let mut token = running;
    token.signal_stop();
    link.capture_tick(&token);
    link.playback_tick(&token);
    link.capture_tick(&token);
    link.playback_tick(&token);
    assert!(link.both_stopped());
}

#[test]
fn shutdown_during_idle_playback() {
    // No datagram ever arrives; playback only ever sees `None`.  Stopping
    // must still terminate the playback loop within two callbacks.
    let mut token = CancelToken::new();
    let mut link = DuplexLink::new();
    link.playback_tick(&token);
    let mut out: Vec<i32> = vec![7; 16];
    playback_callback(&token, None, &mut out); // degrades to silence, returns
    assert_eq!(out, vec![0; 16]);

    token.signal_stop();
    link.playback_tick(&token);
    link.playback_tick(&token);
    assert_eq!(link.playback, PipelinePhase::Stopped);
}

#[test]
fn phase_never_moves_backward() {
    fn rank(p: PipelinePhase) -> u32 {
        match p {
            PipelinePhase::Idle => 0,
            PipelinePhase::Running => 1,
            PipelinePhase::Draining => 2,
            PipelinePhase::Stopped => 3,
        }
    }
    let running = CancelToken::new();
    let mut stopped = CancelToken::new();
    stopped.signal_stop();
    for p in [
        PipelinePhase::Idle,
        PipelinePhase::Running,
        PipelinePhase::Draining,
        PipelinePhase::Stopped,
    ] {
        assert!(rank(next_phase(p, &running)) >= rank(p));
        assert!(rank(next_phase(p, &stopped)) >= rank(p));
    }
    assert_eq!(next_phase(PipelinePhase::Stopped, &running), PipelinePhase::Stopped);
}

#[test]
fn playback_stall_leaves_capture_path_untouched() {
    // The playback pipeline stalls in Draining while capture keeps going:
    // ticking one never moves the other's phase, and capture still sends.
    let token = CancelToken::new();
    let mut link = DuplexLink {
        capture: PipelinePhase::Running,
        playback: PipelinePhase::Draining,
    };
    link.playback_tick(&token);
    assert_eq!(link.capture, PipelinePhase::Running);
    link.capture_tick(&token);
    assert_eq!(link.playback, PipelinePhase::Stopped);
    assert_eq!(link.capture, PipelinePhase::Running);

    let sent = capture_callback(&token, &vec![0, 1, 2]);
    assert!(sent.is_some());
}
