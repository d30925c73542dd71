//! Voice-call transcription core: audio units from a voice transport are
//! validated, down-mixed and resampled for a speech engine whose single
//! instance is loaded once and used under exclusive access. Resampled audio
//! may be gathered into windows cut by length or by a pause, and the engine's
//! segments are rendered as transcript lines.

pub mod audio;
pub mod resample;
pub mod session;
pub mod transcript;
pub mod params;
pub mod ingest;
pub mod window;
