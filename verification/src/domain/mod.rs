//! The domain model: what an encoding text means, and which settings are valid.

pub mod audio_routing;
pub mod ingest_security;
pub mod srt_ingest;
pub mod stage;
pub mod transcode_profile;
