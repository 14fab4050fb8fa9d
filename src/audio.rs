use vstd::prelude::*;

verus! {

/// How the samples of a decoded stream are represented.
#[derive(Debug, Clone, Copy, PartialEq, Eq, Structural)]
pub enum SampleFormat {
    Int16,
    Float32,
}

/// What a codec adapter learns about a stream before reading any samples.
#[derive(Debug, Clone, Copy, PartialEq, Eq, Structural)]
pub struct StreamDescriptor {
    pub sample_rate: u32,
    pub channel_count: u32,
    pub sample_format: SampleFormat,
}

/// The ways in which handling one input file can fail.
#[derive(Debug, Clone, Copy, PartialEq, Eq, Structural)]
pub enum AudioError {
    /// The input path is missing or cannot be opened.
    UnreadableFile,
    /// The header or first frame cannot be parsed.
    MalformedContainer,
    /// A decode fault in the middle of the stream.
    CodecError,
    /// The recognition or speaker model cannot be loaded.
    ModelLoadFailure,
    /// The file's extension names no supported format.
    UnsupportedFormat,
    /// An output file cannot be created or written.
    IoFailure,
}

/// A fully decoded file: its descriptor and one sample buffer per channel.
pub struct DecodedAudio<T> {
    pub descriptor: StreamDescriptor,
    pub channels: Vec<Vec<T>>,
}

impl<T> DecodedAudio<T> {
    /// One buffer per declared channel, all of the same length.
    pub open spec fn wf(&self) -> bool {
        &&& self.descriptor.channel_count > 0
        &&& self.channels.len() == self.descriptor.channel_count
        &&& forall|c: int|
            0 <= c < self.channels.len() ==> #[trigger] self.channels[c].len()
                == self.channels[0].len()
    }
}

} // verus!
