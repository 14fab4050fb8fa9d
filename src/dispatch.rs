use vstd::prelude::*;

verus! {

/// The container formats that have a codec adapter.
#[derive(Debug, Clone, Copy, PartialEq, Eq, Structural)]
pub enum AudioFormat {
    Wav,
    Mp3,
    Opus,
}

/// What becomes of a discovered file, judged by its extension.
#[derive(Debug, Clone, Copy, PartialEq, Eq, Structural)]
pub enum Dispatch {
    /// Decode it with the adapter of this format.
    Process(AudioFormat),
    /// Skip it with a diagnostic: the extension names no supported format.
    Unsupported,
    /// Skip it with a diagnostic: the file has no extension.
    NoExtension,
}

/// The routing of a file by its extension; the match is case-sensitive.
pub open spec fn dispatch_of(ext: Option<Seq<char>>) -> Dispatch {
    match ext {
        None => Dispatch::NoExtension,
        Some(e) => if e == "wav"@ {
            Dispatch::Process(AudioFormat::Wav)
        } else if e == "mp3"@ {
            Dispatch::Process(AudioFormat::Mp3)
        } else if e == "opus"@ {
            Dispatch::Process(AudioFormat::Opus)
        } else {
            Dispatch::Unsupported
        },
    }
}

/// The view of an optional extension.
pub open spec fn ext_view(ext: Option<&str>) -> Option<Seq<char>> {
    match ext {
        Some(e) => Some(e@),
        None => None,
    }
}

/// Selects the codec adapter for a file from its extension.
pub fn dispatch(ext: Option<&str>) -> (r: Dispatch)
    ensures
        r == dispatch_of(ext_view(ext)),
{
    match ext {
        None => Dispatch::NoExtension,
        Some(e) => {
            let e = e.to_owned();
            if e == "wav".to_owned() {
                Dispatch::Process(AudioFormat::Wav)
            } else if e == "mp3".to_owned() {
                Dispatch::Process(AudioFormat::Mp3)
            } else if e == "opus".to_owned() {
                Dispatch::Process(AudioFormat::Opus)
            } else {
                Dispatch::Unsupported
            }
        },
    }
}

} // verus!
