use gadaj::audio::capture::{downmix_first_channel, TARGET_SAMPLE_RATE};
use gadaj::audio::vad::{frame_count, speech_chunks, VadDetector};

#[test]
fn vad_frame_is_thirty_ms() {
    assert_eq!(VadDetector::new(16000).frame_size(), 480);
    assert_eq!(VadDetector::new(44100).frame_size(), 1323);
    assert_eq!(VadDetector::new(33).frame_size(), 0);
}

#[test]
fn vad_needs_three_of_five() {
    let mut vad = VadDetector::new(16000);
    assert!(!vad.observe(true));
    assert!(!vad.observe(true));
    assert!(vad.observe(true));
    assert!(vad.observe(false));
    assert!(vad.observe(false));
    // window now: T T T F F -> the oldest T drops out
    assert!(!vad.observe(false));
    assert!(!vad.observe(true));
}

#[test]
fn vad_silence_stays_silent() {
    let mut vad = VadDetector::new(16000);
    for _ in 0..10 {
        assert!(!vad.observe(false));
    }
}

#[test]
fn vad_speech_chunks_keep_speech_frames() {
    // 10 frames of 480 samples and a short last frame of 100
    let n = 10 * 480 + 100;
    assert_eq!(frame_count(n, 480), 11);
    let loud = vec![false, false, true, true, true, true, false, false, false, false, true];
    let kept = speech_chunks(n, 16000, &loud);
    assert_eq!(
        kept,
        vec![(4 * 480, 5 * 480), (5 * 480, 6 * 480), (6 * 480, 7 * 480), (7 * 480, 8 * 480)]
    );
}

#[test]
fn vad_last_short_frame_is_kept() {
    let n = 3 * 480 + 7;
    let loud = vec![true, true, true, true];
    let kept = speech_chunks(n, 16000, &loud);
    assert_eq!(kept, vec![(960, 1440), (1440, 1447)]);
}

#[test]
fn downmix_takes_first_channel() {
    let buf = [1i16, 2, 3, 4, 5, 6, 7];
    assert_eq!(downmix_first_channel(&buf, 2), vec![1, 3, 5, 7]);
    assert_eq!(downmix_first_channel(&buf, 3), vec![1, 4, 7]);
    assert_eq!(downmix_first_channel(&buf, 1), buf.to_vec());
    assert_eq!(downmix_first_channel(&buf, 0), buf.to_vec());
    assert_eq!(downmix_first_channel(&[], 2), Vec::<i16>::new());
    assert_eq!(TARGET_SAMPLE_RATE, 16_000);
}

#[test]
fn vad_kept_ranges_are_ordered_and_inside() {
    let n = 25 * 480 + 3;
    let loud: Vec<bool> = (0..26).map(|i| i % 7 != 0).collect();
    let kept = speech_chunks(n, 16000, &loud);
    assert!(!kept.is_empty());
    let mut last_end = 0;
    for (start, end) in kept {
        assert!(start < end && end <= n);
        assert!(last_end <= start);
        last_end = end;
    }
}
