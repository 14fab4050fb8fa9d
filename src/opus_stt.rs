use crate::audio::{AudioError, SampleFormat, StreamDescriptor};
use crate::demux::{append_demuxed, channel_of};
use vstd::prelude::*;

verus! {

/// The length, in samples, of the buffer that each read of the Opus decoder
/// fills: the longest Opus frame at the usual rates.
pub const READ_BUFFER_LEN: usize = 11520;

/// An Opus stream is decoded as 32-bit floats, and only mono and stereo
/// streams are read.
pub fn describe_stream(sample_rate: u32, channel_count: u32) -> (r: Result<
    StreamDescriptor,
    AudioError,
>)
    ensures
        channel_count == 1 || channel_count == 2 ==> r == Ok::<StreamDescriptor, AudioError>(
            StreamDescriptor { sample_rate, channel_count, sample_format: SampleFormat::Float32 },
        ),
        !(channel_count == 1 || channel_count == 2) ==> r == Err::<StreamDescriptor, AudioError>(
            AudioError::UnsupportedFormat,
        ),
{
    if channel_count == 1 || channel_count == 2 {
        Ok(StreamDescriptor { sample_rate, channel_count, sample_format: SampleFormat::Float32 })
    } else {
        Err(AudioError::UnsupportedFormat)
    }
}

/// Whether a read that reported `count` samples per channel fits in a buffer
/// of `buf_len` samples interleaved over `k` channels.
pub open spec fn read_fits(count: nat, k: nat, buf_len: nat) -> bool {
    count * k <= buf_len
}

/// Handles what one read of the Opus decoder returned into `buf`: `None` for
/// a decoder failure, else the number of samples per channel decoded. Returns
/// whether reading goes on: a count of zero is the clean end of the stream.
/// A failure, or a count that overruns the buffer, is a decode fault; in both
/// cases, and at the end, the buffers stay as they were.
pub fn absorb_read<T: Copy>(buffers: &mut Vec<Vec<T>>, buf: &[T], count: Option<usize>) -> (r:
    Result<bool, AudioError>)
    requires
        old(buffers).len() > 0,
    ensures
        final(buffers).len() == old(buffers).len(),
        match count {
            None => r == Err::<bool, AudioError>(AudioError::CodecError) && *final(buffers) == *old(
                buffers,
            ),
            Some(n) => if n == 0 {
                r == Ok::<bool, AudioError>(false) && *final(buffers) == *old(buffers)
            } else if read_fits(n as nat, old(buffers).len() as nat, buf@.len()) {
                r == Ok::<bool, AudioError>(true) && forall|c: int|
                    0 <= c < old(buffers).len() ==> #[trigger] final(buffers)[c]@ == old(
                        buffers,
                    )[c]@ + channel_of(
                        buf@.take(n * old(buffers).len()),
                        old(buffers).len() as nat,
                        c as nat,
                    )
            } else {
                r == Err::<bool, AudioError>(AudioError::CodecError) && *final(buffers) == *old(
                    buffers,
                )
            },
        },
{
    let k = buffers.len();
    match count {
        None => Err(AudioError::CodecError),
        Some(n) => {
            if n == 0 {
                Ok(false)
            } else if n <= buf.len() / k {
                assert(n * k <= buf@.len()) by (nonlinear_arith)
                    requires
                        n <= (buf@.len() as int) / (k as int),
                        k > 0,
                ;
                let len = n * k;
                append_demuxed(buffers, buf, len);
                Ok(true)
            } else {
                assert(n * k > buf@.len()) by (nonlinear_arith)
                    requires
                        n > (buf@.len() as int) / (k as int),
                        k > 0,
                ;
                Err(AudioError::CodecError)
            }
        },
    }
}

} // verus!
