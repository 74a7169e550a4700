//! The configuration record handed once to the opaque inference engine, and
//! the execution-provider choice. The platform identity is an explicit input
//! here, so the default choice is a testable function rather than an ambient
//! branch on the host.

use vstd::prelude::*;
use crate::cache::AssetPaths;
use crate::cache::clone_string;

verus! {

/// What the inference engine is constructed from: the four resolved asset
/// paths, a thread-count hint, an execution-provider token and a debug flag.
pub struct EngineConfig {
    pub encoder_path: String,
    pub decoder_path: String,
    pub joiner_path: String,
    pub tokens_path: String,
    pub thread_count_hint: u32,
    pub execution_provider: String,
    pub debug_flag: bool,
}

/// The provider used when the caller requests none: the platform-accelerated
/// one on macOS, the plain CPU elsewhere.
pub fn default_provider(on_macos: bool) -> (r: String)
    ensures
        on_macos ==> r@ == "coreml"@,
        !on_macos ==> r@ == "cpu"@,
{
    if on_macos {
        String::from_str("coreml")
    } else {
        String::from_str("cpu")
    }
}

/// The provider that is used: an explicit request wins; otherwise the
/// platform default.
pub fn choose_provider(requested: Option<String>, on_macos: bool) -> (r: String)
    ensures
        requested is Some ==> r == requested->0,
        requested is None && on_macos ==> r@ == "coreml"@,
        requested is None && !on_macos ==> r@ == "cpu"@,
{
    match requested {
        Some(p) => p,
        None => default_provider(on_macos),
    }
}

/// Builds the engine configuration record for the resolved assets: exactly
/// their four paths, four worker threads, the given provider, and debugging
/// off.
pub fn build_config(paths: &AssetPaths, provider: String) -> (c: EngineConfig)
    ensures
        c.encoder_path == paths.encoder,
        c.decoder_path == paths.decoder,
        c.joiner_path == paths.joiner,
        c.tokens_path == paths.tokens,
        c.thread_count_hint == 4,
        c.execution_provider == provider,
        c.debug_flag == false,
{
    EngineConfig {
        encoder_path: clone_string(&paths.encoder),
        decoder_path: clone_string(&paths.decoder),
        joiner_path: clone_string(&paths.joiner),
        tokens_path: clone_string(&paths.tokens),
        thread_count_hint: 4,
        execution_provider: provider,
        debug_flag: false,
    }
}

} // verus!
