use gadaj::stt::parakeet::{MockEngine, PARAKEET_V3_FILENAME, PARAKEET_V3_SIZE_BYTES};
use gadaj::stt::resample::tail_outputs;
use gadaj::stt::wav::{audio_of_read, decode_wav, WavError};

#[test]
fn resample_tail_outputs() {
    assert_eq!(tail_outputs(100, 48000, 16000, 1024), 33);
    assert_eq!(tail_outputs(1000, 16000, 48000, 1024), 1024);
}

#[test]
fn mock_engine_load_unload() {
    let mut eng = MockEngine::default();
    assert!(!eng.is_loaded());
    assert!(eng.model_path().is_none());
    assert!(eng.load("/tmp/fake_model.gguf".to_string()).is_ok());
    assert!(eng.is_loaded());
    assert_eq!(eng.model_path().as_deref(), Some("/tmp/fake_model.gguf"));
    assert_eq!(eng.backend_name(), "mock");
    eng.unload();
    assert!(!eng.is_loaded());
    assert!(eng.model_path().is_none());
}

#[test]
fn model_file_constants() {
    assert_eq!(PARAKEET_V3_SIZE_BYTES, 188_743_680);
    assert!(PARAKEET_V3_FILENAME.ends_with(".gguf"));
}

fn wav_bytes(channels: u16, rate: u32, samples: &[i16]) -> Vec<u8> {
    let data_len = (samples.len() * 2) as u32;
    let mut b = Vec::new();
    b.extend_from_slice(b"RIFF");
    b.extend_from_slice(&(36 + data_len).to_le_bytes());
    b.extend_from_slice(b"WAVE");
    b.extend_from_slice(b"fmt ");
    b.extend_from_slice(&16u32.to_le_bytes());
    b.extend_from_slice(&1u16.to_le_bytes());
    b.extend_from_slice(&channels.to_le_bytes());
    b.extend_from_slice(&rate.to_le_bytes());
    b.extend_from_slice(&(rate * channels as u32 * 2).to_le_bytes());
    b.extend_from_slice(&(channels * 2).to_le_bytes());
    b.extend_from_slice(&16u16.to_le_bytes());
    b.extend_from_slice(b"data");
    b.extend_from_slice(&data_len.to_le_bytes());
    for s in samples {
        b.extend_from_slice(&s.to_le_bytes());
    }
    b
}

#[test]
fn wav_decodes_stereo() {
    let bytes = wav_bytes(2, 8000, &[10, -10, 20, -20, 30, -30]);
    let audio = decode_wav(&bytes).unwrap();
    assert_eq!(audio.channels, 2);
    assert_eq!(audio.sample_rate, 8000);
    assert_eq!(audio.samples, vec![10, -10, 20, -20, 30, -30]);
    assert_eq!(audio.mono(), vec![10, 20, 30]);
}

#[test]
fn wav_rejects_garbage() {
    match decode_wav(b"definitely not a wave file") {
        Err(WavError::Invalid(msg)) => assert!(!msg.is_empty()),
        _ => panic!("garbage accepted"),
    }
    // a sample count that is not a multiple of the channel count is refused
    let bytes = wav_bytes(2, 8000, &[1, 2, 3]);
    assert!(matches!(decode_wav(&bytes), Err(WavError::Invalid(_))));
}

#[test]
fn wav_samples_too_wide_fail_to_decode() {
    // a 24-bit file: the header is accepted, but no sample fits 16 bits
    let data: [u8; 6] = [1, 0, 0, 2, 0, 0];
    let mut b = Vec::new();
    b.extend_from_slice(b"RIFF");
    b.extend_from_slice(&(36u32 + 6).to_le_bytes());
    b.extend_from_slice(b"WAVE");
    b.extend_from_slice(b"fmt ");
    b.extend_from_slice(&16u32.to_le_bytes());
    b.extend_from_slice(&1u16.to_le_bytes());
    b.extend_from_slice(&1u16.to_le_bytes());
    b.extend_from_slice(&8000u32.to_le_bytes());
    b.extend_from_slice(&(8000u32 * 3).to_le_bytes());
    b.extend_from_slice(&3u16.to_le_bytes());
    b.extend_from_slice(&24u16.to_le_bytes());
    b.extend_from_slice(b"data");
    b.extend_from_slice(&6u32.to_le_bytes());
    b.extend_from_slice(&data);
    match decode_wav(&b) {
        Err(WavError::Decode(msg)) => assert!(!msg.is_empty()),
        other => panic!("expected a decode error, got {:?}", other.err()),
    }
}

#[test]
fn wav_audio_of_read_maps_each_outcome() {
    match audio_of_read(Err(hound::Error::FormatError("no RIFF tag found"))) {
        Err(WavError::Invalid(msg)) => assert_eq!(msg, "Ill-formed WAVE file: no RIFF tag found"),
        _ => panic!("expected Invalid"),
    }
    match audio_of_read(Ok((1, 16000, Err(hound::Error::TooWide)))) {
        Err(WavError::Decode(_)) => {}
        _ => panic!("expected Decode"),
    }
    let a = audio_of_read(Ok((2, 44100, Ok(vec![5, 6, 7, 8])))).unwrap();
    assert_eq!(a.channels, 2);
    assert_eq!(a.sample_rate, 44100);
    assert_eq!(a.samples, vec![5, 6, 7, 8]);
    assert_eq!(a.mono(), vec![5, 7]);
}
