//! Decoding WAV files given to the recogniser, by the `hound` crate.
use vstd::prelude::*;

use crate::audio::capture::{downmix_first_channel, mono_of};

verus! {

#[verifier::external_type_specification]
#[verifier::external_body]
pub struct ExHoundError(hound::Error);

/// Whether `hound::WavReader::new` accepts `bytes` as a WAV file: a RIFF/WAVE
/// header, a format chunk it supports, and a data chunk of whole samples for every
/// channel.
pub uninterp spec fn wav_header_valid(bytes: Seq<u8>) -> bool;

/// The channel count and sample rate that `hound::WavReader::spec` reports for a
/// file whose header `hound` accepts.
pub uninterp spec fn wav_format(bytes: Seq<u8>) -> (u16, u32);

/// The interleaved samples that `hound::WavReader::samples::<i16>` yields for a
/// file whose header `hound` accepts, or `None` when one of them cannot be read as
/// 16-bit integer audio.
pub uninterp spec fn wav_samples(bytes: Seq<u8>) -> Option<Seq<i16>>;

/// Reads a WAV file held in memory with `hound`: `hound::WavReader::new` on the
/// bytes, then `spec` for the channel count and sample rate, then
/// `samples::<i16>` collected into a vector (the first error ends the read).
/// Claimed: the reader opens exactly on the bytes that `wav_header_valid` accepts,
/// and what `spec` and `samples` give is `wav_format` and `wav_samples` of the
/// bytes. All three are functions of the bytes alone: the reader reads a byte slice
/// from its start, and `hound` consults nothing else.
#[verifier::external_body]
fn read_wav(bytes: &[u8]) -> (r: Result<(u16, u32, Result<Vec<i16>, hound::Error>), hound::Error>)
    ensures
        r is Ok <==> wav_header_valid(bytes@),
        r matches Ok(t) ==> (
            (t.0, t.1) == wav_format(bytes@)
            && (t.2 is Ok <==> wav_samples(bytes@) is Some)
            && (t.2 matches Ok(v) ==> wav_samples(bytes@) == Some(v@))
        ),
{
    let mut reader = hound::WavReader::new(bytes)?;
    let spec = reader.spec();
    Ok((spec.channels, spec.sample_rate, reader.samples::<i16>().collect()))
}

/// The text of a `hound::Error`, through its `Display` implementation. Nothing is
/// claimed of it.
#[verifier::external_body]
fn error_message(e: &hound::Error) -> String {
    e.to_string()
}

/// Why a WAV file could not be used, with `hound`'s explanation.
#[derive(Debug)]
pub enum WavError {
    /// The header is not that of a WAV file `hound` can read.
    Invalid(String),
    /// A sample could not be decoded as 16-bit integer audio.
    Decode(String),
}

/// Decoded 16-bit WAV audio: interleaved samples.
pub struct WavAudio {
    pub channels: u16,
    pub sample_rate: u32,
    pub samples: Vec<i16>,
}

impl WavAudio {
    /// The mono signal: the first channel when there are several.
    pub fn mono(&self) -> (m: Vec<i16>)
        ensures
            m@ == mono_of(self.samples@, self.channels),
    {
        downmix_first_channel(self.samples.as_slice(), self.channels)
    }
}

/// The audio, or the error, that a read of a WAV file gives: `Invalid` when the
/// header was refused, `Decode` when a sample could not be read, and otherwise the
/// format and samples as read.
pub fn audio_of_read(read: Result<(u16, u32, Result<Vec<i16>, hound::Error>), hound::Error>) -> (r: Result<WavAudio, WavError>)
    ensures
        (r matches Err(WavError::Invalid(_))) <==> read is Err,
        (r matches Err(WavError::Decode(_))) <==> (read matches Ok(t) && t.2 is Err),
        r is Ok <==> (read matches Ok(t) && t.2 is Ok),
        r matches Ok(a) ==> (read matches Ok(t) && t.2 matches Ok(v) && a.channels == t.0
            && a.sample_rate == t.1 && a.samples@ == v@),
{
    match read {
        Err(e) => Err(WavError::Invalid(error_message(&e))),
        Ok((_, _, Err(e))) => Err(WavError::Decode(error_message(&e))),
        Ok((channels, sample_rate, Ok(samples))) => Ok(WavAudio { channels, sample_rate, samples }),
    }
}

/// Decodes a WAV file held in memory into 16-bit samples: the channel count,
/// sample rate and interleaved samples that `hound` reads from the bytes. Fails
/// with `Invalid` exactly when `hound` refuses the header, and with `Decode`
/// exactly when the header is accepted but a sample cannot be read as 16-bit
/// integer audio.
pub fn decode_wav(bytes: &[u8]) -> (r: Result<WavAudio, WavError>)
    ensures
        (r matches Err(WavError::Invalid(_))) <==> !wav_header_valid(bytes@),
        (r matches Err(WavError::Decode(_))) <==> (wav_header_valid(bytes@) && wav_samples(bytes@) is None),
        r is Ok <==> (wav_header_valid(bytes@) && wav_samples(bytes@) is Some),
        r matches Ok(a) ==> ((a.channels, a.sample_rate) == wav_format(bytes@)
            && wav_samples(bytes@) == Some(a.samples@)),
{
    audio_of_read(read_wav(bytes))
}

} // verus!
