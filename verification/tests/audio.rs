use holler::audio::{
    frame_layout, output_capacity, resampling_for, trim_window, vad_frames, vad_trim,
    voiced_span, AudioError, ChunkCursor, Resampling, VAD_FRAME,
};

#[test]
fn frames_lie_one_after_another() {
    assert_eq!(frame_layout(4, 2), (2, 2));
    assert_eq!(frame_layout(3, 1), (1, 3));
    // An incomplete last frame is left out.
    assert_eq!(frame_layout(5, 2), (2, 2));
    assert_eq!(frame_layout(5, 0), (1, 5));
}

#[test]
fn a_clip_at_the_target_rate_is_left_alone() {
    assert_eq!(resampling_for(3, 16_000), Resampling::Passthrough);
    assert_eq!(resampling_for(48_000, 48_000), Resampling::Convert);
    assert_eq!(resampling_for(0, 48_000), Resampling::Empty);
}

#[test]
fn chunks_are_fed_to_the_end() {
    let c = ChunkCursor::start(10);
    assert!(c.has_chunk(10) && !c.has_chunk(11));
    let c = c.advance(6, 2).unwrap();
    assert_eq!((c.input_offset, c.output_offset, c.left), (6, 2, 4));
    assert_eq!(c.advance(5, 1), None);
    assert_eq!(c.advance(4, usize::MAX), None);
}

#[test]
fn the_delay_is_cut_off() {
    assert_eq!(output_capacity(100), Some(4296));
    assert_eq!(output_capacity(usize::MAX), None);
    assert_eq!(trim_window(10, 50, 100), (10, 60));
    assert_eq!(trim_window(10, 500, 100), (10, 100));
    assert_eq!(trim_window(200, 50, 100), (100, 100));
}

#[test]
fn silence_is_trimmed_off_the_ends() {
    let len = 5 * VAD_FRAME + 7;
    assert_eq!(vad_frames(len), 6);
    let speech = vec![false, true, false, true, false, false];
    assert_eq!(voiced_span(&speech, len), (VAD_FRAME, 4 * VAD_FRAME));
    // Speech in the incomplete last stretch is kept to the end.
    let speech = vec![false, true, false, true, false, true];
    assert_eq!(voiced_span(&speech, len), (VAD_FRAME, len));
    assert_eq!(voiced_span(&vec![true; 6], len), (0, len));
    assert_eq!(voiced_span(&vec![false; 6], len), (0, 0));
    assert_eq!(voiced_span(&vec![], 0), (0, 0));
}

#[test]
fn audio_errors_say_what_failed() {
    let m = || "x".to_string();
    assert_eq!(
        AudioError::NoInputDevice.message(),
        "no default input (microphone) device available"
    );
    assert_eq!(AudioError::Config(m()).message(), "audio config error: x");
    assert_eq!(AudioError::BuildStream(m()).message(), "failed to build input stream: x");
    assert_eq!(AudioError::PlayStream(m()).message(), "failed to start input stream: x");
    assert_eq!(AudioError::Resample(m()).message(), "resampling failed: x");
}

/// Silence, a sound like speech, silence: a second each, at 16 kHz.
fn clip() -> Vec<i16> {
    (0..48_000)
        .map(|i| {
            if (16_000..32_000).contains(&i) {
                let t = i as f64 / 16_000.0 * std::f64::consts::TAU;
                (((t * 300.0).sin() + (t * 900.0).sin()) * 0.4 * i16::MAX as f64) as i16
            } else {
                0
            }
        })
        .collect()
}

#[test]
fn silence_around_speech_is_trimmed() {
    let (start, end) = vad_trim(&clip());
    // The speech is there in full, and most of the silence is gone.
    assert!(start <= 16_000 && 32_000 <= end, "{start}..{end}");
    assert!(start > 8_000 && end < 40_000, "{start}..{end}");
    assert_eq!(start % VAD_FRAME, 0);
}

#[test]
fn of_silence_nothing_is_left() {
    assert_eq!(vad_trim(&vec![0; 16_000]), (0, 0));
    assert_eq!(vad_trim(&vec![]), (0, 0));
}

#[test]
fn speech_in_an_incomplete_last_stretch_stays() {
    let mut speech = clip()[16_000..32_000].to_vec();
    speech.truncate(16 * VAD_FRAME + 100);
    assert_eq!(vad_trim(&speech).1, speech.len());
}
