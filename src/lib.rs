//! The core of an offline speech-to-text tool: codec adapters turn WAV and
//! MP3 bytes, and the reads of an Opus decoder, into one sample sequence per
//! channel; a per-channel session decides which recognizer results become
//! output text; and a dispatcher routes files by extension to their adapter.

pub mod audio;
pub mod demux;
pub mod dispatch;
pub mod feeder;
pub mod mp3_stt;
pub mod naming;
pub mod opus_stt;
pub mod wav_stt;
