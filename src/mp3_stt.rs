use crate::audio::{AudioError, DecodedAudio, SampleFormat, StreamDescriptor};
use crate::demux::{append_demuxed, channel_of, empty_buffers, joined_channel, lemma_joined_same_length};
use vstd::prelude::*;

verus! {

/// One decoded MP3 frame: interleaved samples and the frame's header values.
pub struct Mp3Frame {
    pub data: Vec<i16>,
    pub sample_rate: i32,
    pub channels: usize,
}

/// A frame as plain values: its samples, sample rate and channel count.
pub open spec fn frame_view(f: Mp3Frame) -> (Seq<i16>, i32, usize) {
    (f.data@, f.sample_rate, f.channels)
}

pub open spec fn frames_view(v: Seq<Mp3Frame>) -> Seq<(Seq<i16>, i32, usize)> {
    v.map_values(|f: Mp3Frame| frame_view(f))
}

/// The frames that minimp3 decodes from an MP3 file's bytes, in order, up to
/// the end of the input; `None` if decoding stops on an error of another kind.
pub uninterp spec fn mp3_frames_of(bytes: Seq<u8>) -> Option<Seq<(Seq<i16>, i32, usize)>>;

/// Relies on minimp3::Decoder::next_frame, called until it reports
/// `Error::Eof`: each call yields the next frame of the input, skipping data
/// that is no frame.
#[verifier::external_body]
fn read_mp3_frames(bytes: &[u8]) -> (r: Option<Vec<Mp3Frame>>)
    ensures
        match r {
            Some(v) => mp3_frames_of(bytes@) == Some(frames_view(v@)),
            None => mp3_frames_of(bytes@) is None,
        },
{
    let mut decoder = minimp3::Decoder::new(bytes);
    let mut frames = Vec::new();
    loop {
        match decoder.next_frame() {
            Ok(f) => frames.push(Mp3Frame { data: f.data, sample_rate: f.sample_rate, channels: f.channels }),
            Err(minimp3::Error::Eof) => return Some(frames),
            Err(_) => return None,
        }
    }
}

/// The descriptor that a first frame with these header values gives.
pub open spec fn frame_descriptor(sample_rate: i32, channels: usize) -> StreamDescriptor {
    StreamDescriptor {
        sample_rate: sample_rate as u32,
        channel_count: channels as u32,
        sample_format: SampleFormat::Int16,
    }
}

/// Whether a first frame's header values describe a usable stream.
pub open spec fn frame_header_valid(sample_rate: i32, channels: usize) -> bool {
    sample_rate > 0 && 0 < channels <= u32::MAX
}

/// Reads the stream descriptor off the first decoded frame.
pub fn describe_frame(frame: &Mp3Frame) -> (r: Result<StreamDescriptor, AudioError>)
    ensures
        frame_header_valid(frame.sample_rate, frame.channels) ==> r == Ok::<
            StreamDescriptor,
            AudioError,
        >(frame_descriptor(frame.sample_rate, frame.channels)),
        !frame_header_valid(frame.sample_rate, frame.channels) ==> r == Err::<
            StreamDescriptor,
            AudioError,
        >(AudioError::MalformedContainer),
{
    if frame.sample_rate > 0 && frame.channels > 0 && frame.channels <= u32::MAX as usize {
        Ok(
            StreamDescriptor {
                sample_rate: frame.sample_rate as u32,
                channel_count: frame.channels as u32,
                sample_format: SampleFormat::Int16,
            },
        )
    } else {
        Err(AudioError::MalformedContainer)
    }
}

/// Appends a frame's samples to the channel buffers, deinterleaved. A frame
/// whose channel count differs from the stream's is a decode fault and
/// leaves the buffers as they were.
pub fn absorb_frame(buffers: &mut Vec<Vec<i16>>, frame: &Mp3Frame) -> (r: Result<(), AudioError>)
    requires
        old(buffers).len() > 0,
    ensures
        final(buffers).len() == old(buffers).len(),
        frame.channels == old(buffers).len() ==> r is Ok && forall|c: int|
            0 <= c < old(buffers).len() ==> #[trigger] final(buffers)[c]@ == old(buffers)[c]@
                + channel_of(frame.data@, frame.channels as nat, c as nat),
        frame.channels != old(buffers).len() ==> r == Err::<(), AudioError>(
            AudioError::CodecError,
        ) && *final(buffers) == *old(buffers),
{
    if frame.channels != buffers.len() {
        return Err(AudioError::CodecError);
    }
    append_demuxed(buffers, frame.data.as_slice(), frame.data.len());
    assert(frame.data@.take(frame.data@.len() as int) =~= frame.data@);
    Ok(())
}

/// The samples of each frame, in order.
pub open spec fn frame_blocks(fs: Seq<(Seq<i16>, i32, usize)>) -> Seq<Seq<i16>> {
    fs.map_values(|f: (Seq<i16>, i32, usize)| f.0)
}

/// There is a first frame, and its header describes a usable stream.
pub open spec fn first_header_valid(fs: Seq<(Seq<i16>, i32, usize)>) -> bool {
    fs.len() > 0 && frame_header_valid(fs[0].1, fs[0].2)
}

/// Every frame has the first frame's channel count.
pub open spec fn channels_stable(fs: Seq<(Seq<i16>, i32, usize)>) -> bool {
    forall|i: int| 0 <= i < fs.len() ==> #[trigger] fs[i].2 == fs[0].2
}

/// What decoding the frames `fs` gives: a missing or unusable first header is
/// a malformed container; a frame whose channel count differs from the first
/// is a decode fault; else the first frame fixes the descriptor and channel
/// `c` holds channel `c` of every frame, the first included, in order.
pub open spec fn decodes_frames(r: Result<DecodedAudio<i16>, AudioError>, fs: Seq<(Seq<i16>, i32, usize)>) -> bool {
    if !first_header_valid(fs) {
        r == Err::<DecodedAudio<i16>, AudioError>(AudioError::MalformedContainer)
    } else if !channels_stable(fs) {
        r == Err::<DecodedAudio<i16>, AudioError>(AudioError::CodecError)
    } else {
        &&& r matches Ok(d)
        &&& d.descriptor == frame_descriptor(fs[0].1, fs[0].2)
        &&& d.channels.len() == fs[0].2
        &&& forall|c: int|
            0 <= c < d.channels.len() ==> #[trigger] d.channels[c]@ == joined_channel(
                frame_blocks(fs),
                fs[0].2 as nat,
                c as nat,
            )
        &&& d.wf()
    }
}

/// Turns the decoded frames of an MP3 file into one 16-bit sample buffer per
/// channel.
pub fn decode_frames(frames: &Vec<Mp3Frame>) -> (r: Result<DecodedAudio<i16>, AudioError>)
    ensures
        decodes_frames(r, frames_view(frames@)),
{
    let ghost fs = frames_view(frames@);
    if frames.len() == 0 {
        return Err(AudioError::MalformedContainer);
    }
    let descriptor = describe_frame(&frames[0])?;
    let k = frames[0].channels;
    let mut buffers: Vec<Vec<i16>> = empty_buffers(k);
    let mut i: usize = 0;
    while i < frames.len()
        invariant
            fs == frames_view(frames@),
            first_header_valid(fs),
            k == fs[0].2,
            descriptor == frame_descriptor(fs[0].1, fs[0].2),
            0 <= i <= frames.len(),
            buffers.len() == k,
            forall|j: int| 0 <= j < i ==> #[trigger] fs[j].2 == k,
            forall|c: int|
                0 <= c < k ==> #[trigger] buffers[c]@ == joined_channel(
                    frame_blocks(fs.take(i as int)),
                    k as nat,
                    c as nat,
                ),
        decreases frames.len() - i,
    {
        let ghost before = buffers@;
        let ghost blocks = frame_blocks(fs.take(i as int));
        let ghost blocks2 = frame_blocks(fs.take(i + 1));
        assert(blocks2.drop_last() =~= blocks);
        assert(blocks2.last() == frames[i as int].data@);
        if frames[i].channels != k {
            assert(!channels_stable(fs)) by {
                assert(fs[i as int].2 != fs[0].2);
            }
            return Err(AudioError::CodecError);
        }
        absorb_frame(&mut buffers, &frames[i]);
        i = i + 1;
    }
    assert(fs.take(frames.len() as int) =~= fs);
    proof {
        assert(channels_stable(fs));
    }
    let d = DecodedAudio { descriptor, channels: buffers };
    assert forall|c: int| 0 <= c < d.channels.len() implies #[trigger] d.channels[c].len()
        == d.channels[0].len() by {
        lemma_joined_same_length(frame_blocks(fs), k as nat, c as nat, 0);
    }
    Ok(d)
}

/// Decodes an MP3 file held in memory into one 16-bit sample buffer per
/// channel: the frames that minimp3 yields, as `decodes_frames` says, or a
/// decode fault when minimp3 stops on an error other than the end of input.
pub fn decode(bytes: &[u8]) -> (r: Result<DecodedAudio<i16>, AudioError>)
    ensures
        match mp3_frames_of(bytes@) {
            None => r == Err::<DecodedAudio<i16>, AudioError>(AudioError::CodecError),
            Some(fs) => decodes_frames(r, fs),
        },
{
    match read_mp3_frames(bytes) {
        None => Err(AudioError::CodecError),
        Some(frames) => decode_frames(&frames),
    }
}

} // verus!
