use crate::audio::{AudioError, DecodedAudio, SampleFormat, StreamDescriptor};
use crate::demux::{channel_of, demux};
use vstd::prelude::*;

verus! {

/// What a WAV header declares about the stream.
#[derive(Debug, Clone, Copy, PartialEq, Eq, Structural)]
pub struct WavFormat {
    pub sample_rate: u32,
    pub channels: u16,
}

/// The header that hound reads from a WAV file's bytes, if it accepts it.
pub uninterp spec fn wav_format_of(bytes: Seq<u8>) -> Option<WavFormat>;

/// Every sample of a WAV file's data chunk, interleaved, read as 16-bit
/// integers by hound, if the file is well formed and its samples fit.
pub uninterp spec fn wav_samples_of(bytes: Seq<u8>) -> Option<Seq<i16>>;

/// Relies on hound::WavReader::new and WavReader::spec: parses the RIFF
/// header; a header with zero channels is refused.
#[verifier::external_body]
fn read_wav_format(bytes: &[u8]) -> (r: Option<WavFormat>)
    ensures
        r == wav_format_of(bytes@),
        r matches Some(f) ==> f.channels > 0,
{
    match hound::WavReader::new(bytes) {
        Ok(reader) => {
            let spec = reader.spec();
            Some(WavFormat { sample_rate: spec.sample_rate, channels: spec.channels })
        },
        Err(_) => None,
    }
}

/// Relies on hound::WavReader::samples::<i16>: yields the data chunk's
/// samples in file order, failing when a sample does not fit in 16 bits.
#[verifier::external_body]
fn read_wav_samples(bytes: &[u8]) -> (r: Option<Vec<i16>>)
    ensures
        match r {
            Some(v) => wav_samples_of(bytes@) == Some(v@),
            None => wav_samples_of(bytes@) is None,
        },
        r is Some ==> wav_format_of(bytes@) is Some,
{
    let mut reader = hound::WavReader::new(bytes).ok()?;
    reader.samples::<i16>().collect::<Result<Vec<i16>, hound::Error>>().ok()
}

/// The descriptor of a WAV stream with the given header.
pub open spec fn wav_descriptor(f: WavFormat) -> StreamDescriptor {
    StreamDescriptor {
        sample_rate: f.sample_rate,
        channel_count: f.channels as u32,
        sample_format: SampleFormat::Int16,
    }
}

/// `d` holds, for each declared channel, exactly that channel's samples of `s`.
pub open spec fn holds_channels_of<T>(d: DecodedAudio<T>, s: Seq<T>) -> bool {
    &&& d.channels.len() == d.descriptor.channel_count
    &&& forall|c: int|
        0 <= c < d.channels.len() ==> #[trigger] d.channels[c]@ == channel_of(
            s,
            d.descriptor.channel_count as nat,
            c as nat,
        )
}

/// Decodes a WAV file held in memory into one 16-bit sample buffer per channel.
pub fn decode(bytes: &[u8]) -> (r: Result<DecodedAudio<i16>, AudioError>)
    ensures
        match r {
            Ok(d) => {
                &&& wav_format_of(bytes@) matches Some(f)
                &&& wav_samples_of(bytes@) matches Some(s)
                &&& d.descriptor == wav_descriptor(f)
                &&& holds_channels_of(d, s)
                &&& d.wf()
            },
            Err(e) => {
                ||| wav_format_of(bytes@) is None && e == AudioError::MalformedContainer
                ||| wav_format_of(bytes@) is Some && wav_samples_of(bytes@) is None && e
                    == AudioError::CodecError
            },
        },
        wav_format_of(bytes@) is Some && wav_samples_of(bytes@) is Some ==> r is Ok,
{
    let format = match read_wav_format(bytes) {
        Some(f) => f,
        None => return Err(AudioError::MalformedContainer),
    };
    let samples = match read_wav_samples(bytes) {
        Some(s) => s,
        None => return Err(AudioError::CodecError),
    };
    let k = format.channels as usize;
    let channels = demux(&samples, k);
    let d = DecodedAudio {
        descriptor: StreamDescriptor {
            sample_rate: format.sample_rate,
            channel_count: format.channels as u32,
            sample_format: SampleFormat::Int16,
        },
        channels,
    };
    assert forall|c: int| 0 <= c < d.channels.len() implies #[trigger] d.channels[c].len()
        == d.channels[0].len() by {
        assert(d.channels[c]@ == channel_of(samples@, k as nat, c as nat));
        assert(d.channels[0]@ == channel_of(samples@, k as nat, 0));
    }
    Ok(d)
}

} // verus!
