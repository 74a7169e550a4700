//! Cache resolution decisions: the fast path on four local hits, the fetch
//! of all four files on any miss, and the integrity check of the returned
//! paths. The probing and fetching themselves live in `hub`; the functions
//! here take their outcomes as arguments and are verified for every outcome.

use vstd::prelude::*;
use crate::catalog::spec_decoder_name;
use crate::catalog::spec_encoder_name;
use crate::catalog::spec_joiner_name;
use crate::catalog::spec_tokens_name;
use crate::catalog::AssetFileSet;
use crate::variant::Language;
use crate::variant::Precision;

verus! {

/// The four resolved local paths of one variant's assets.
pub struct AssetPaths {
    pub encoder: String,
    pub decoder: String,
    pub joiner: String,
    pub tokens: String,
}

/// Why a resolution failed. Every failure names its stage and, where one is
/// involved, the specific file.
pub enum ResolveError {
    /// The remote repository client could not be built.
    ApiBuild { message: String },
    /// A remote fetch failed; `file` is the asset file name that failed.
    Fetch { file: String, message: String },
    /// A path the cache returned as resolved does not exist on disk;
    /// `path` names it. Guards against a cache contract violation.
    MissingFile { path: String },
}

/// The cache fast path: when every one of the four probes found a local
/// entry, the resolution is exactly those four paths and nothing needs to be
/// fetched; when any probe missed, there is no fast path.
pub fn plan_resolution(
    encoder: Option<String>,
    decoder: Option<String>,
    joiner: Option<String>,
    tokens: Option<String>,
) -> (r: Option<AssetPaths>)
    ensures
        r is Some <==> (encoder is Some && decoder is Some && joiner is Some && tokens is Some),
        r is Some ==> r->0.encoder == encoder->0 && r->0.decoder == decoder->0 && r->0.joiner
            == joiner->0 && r->0.tokens == tokens->0,
{
    match (encoder, decoder, joiner, tokens) {
        (Some(encoder), Some(decoder), Some(joiner), Some(tokens)) => Some(
            AssetPaths { encoder, decoder, joiner, tokens },
        ),
        _ => None,
    }
}

/// The integrity check over the four existence probes of the resolved paths:
/// it accepts exactly when every probe succeeded, and otherwise names the
/// first path whose probe failed.
pub fn check_presence(
    paths: &AssetPaths,
    encoder_present: bool,
    decoder_present: bool,
    joiner_present: bool,
    tokens_present: bool,
) -> (r: Result<(), ResolveError>)
    ensures
        r is Ok <==> (encoder_present && decoder_present && joiner_present && tokens_present),
        !encoder_present ==> (r->Err_0 matches ResolveError::MissingFile { path } && path
            == paths.encoder),
        encoder_present && !decoder_present ==> (r->Err_0 matches ResolveError::MissingFile {
            path,
        } && path == paths.decoder),
        encoder_present && decoder_present && !joiner_present ==> (
        r->Err_0 matches ResolveError::MissingFile { path } && path == paths.joiner),
        encoder_present && decoder_present && joiner_present && !tokens_present ==> (
        r->Err_0 matches ResolveError::MissingFile { path } && path == paths.tokens),
{
    if !encoder_present {
        Err(ResolveError::MissingFile { path: clone_string(&paths.encoder) })
    } else if !decoder_present {
        Err(ResolveError::MissingFile { path: clone_string(&paths.decoder) })
    } else if !joiner_present {
        Err(ResolveError::MissingFile { path: clone_string(&paths.joiner) })
    } else if !tokens_present {
        Err(ResolveError::MissingFile { path: clone_string(&paths.tokens) })
    } else {
        Ok(())
    }
}

/// A clone of `s` that is known to carry the same characters.
pub fn clone_string(s: &String) -> (r: String)
    ensures
        r == *s,
{
    s.clone()
}

/// Whether an error names one of the four file names or paths of `files`,
/// or the repository client build; every error out of a resolution does.
pub open spec fn names_resolution_stage(e: ResolveError, files: AssetFileSet) -> bool {
    match e {
        ResolveError::ApiBuild { .. } => true,
        ResolveError::Fetch { file, .. } => file@ == files.encoder@ || file@ == files.decoder@
            || file@ == files.joiner@ || file@ == files.tokens@,
        ResolveError::MissingFile { .. } => false,
    }
}

/// Whether an error out of a full variant resolution names its stage: the
/// client build carries only a message, a fetch error names one of the
/// chosen variant's four asset files, and an integrity error never comes out
/// of a resolution.
pub open spec fn names_variant_fetch(e: ResolveError, l: Language, p: Precision) -> bool {
    match e {
        ResolveError::ApiBuild { .. } => true,
        ResolveError::Fetch { file, .. } => file@ == spec_encoder_name(l, p) || file@
            == spec_decoder_name(l, p) || file@ == spec_joiner_name(l, p) || file@
            == spec_tokens_name(),
        ResolveError::MissingFile { .. } => false,
    }
}

} // verus!
