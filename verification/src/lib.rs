//! Resolution of speech-model assets and audio preprocessing.
//!
//! The library maps a model variant (a language and a numeric precision) to
//! the repository identifier and the four asset file names of that variant,
//! decides between the cache fast path and the remote fetch, and prepares a
//! raw sample buffer for the inference engine by padding it with silence.

pub mod audio;
pub mod cache;
pub mod catalog;
pub mod engine;
pub mod hub;
pub mod variant;

pub use audio::PreparedAudio;
pub use cache::AssetPaths;
pub use cache::ResolveError;
pub use catalog::AssetFileSet;
pub use engine::EngineConfig;
pub use variant::ConfigError;
pub use variant::Language;
pub use variant::Precision;
