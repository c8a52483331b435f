//! Streaming of decoded PCM audio into fixed-size, double-buffered playback
//! slots that a hardware engine drains asynchronously.

pub mod audio;
pub mod decode;
pub mod pcm;
pub mod play;
