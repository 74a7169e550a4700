//! The boundary to the local content cache and the remote model repository.
//!
//! Every call into `hf_hub` (and the one existence probe of `std::path`)
//! stands behind a trusted wrapper here. What a probe or a fetch returns
//! depends on the disk and the network, so the wrappers promise nothing of
//! their results; the decisions over those results — the fast path, the
//! fetch of all four files, the integrity check — are verified functions
//! that hold for every outcome.

use vstd::prelude::*;
use crate::cache::check_presence;
use crate::cache::clone_string;
use crate::cache::names_resolution_stage;
use crate::cache::names_variant_fetch;
use crate::cache::plan_resolution;
use crate::cache::AssetPaths;
use crate::cache::ResolveError;
use crate::catalog::resolve;
use crate::catalog::AssetFileSet;
use crate::variant::chosen_language;
use crate::variant::chosen_precision;
use crate::variant::Language;
use crate::variant::Precision;

verus! {

#[verifier::external_type_specification]
#[verifier::external_body]
pub struct ExCache(hf_hub::Cache);

#[verifier::external_type_specification]
#[verifier::external_body]
pub struct ExRepo(hf_hub::Repo);

#[verifier::external_type_specification]
#[verifier::external_body]
pub struct ExCacheRepo(hf_hub::CacheRepo);

#[verifier::external_type_specification]
#[verifier::external_body]
pub struct ExApiBuilder(hf_hub::api::sync::ApiBuilder);

#[verifier::external_type_specification]
#[verifier::external_body]
pub struct ExApi(hf_hub::api::sync::Api);

#[verifier::external_type_specification]
#[verifier::external_body]
pub struct ExApiRepo(hf_hub::api::sync::ApiRepo);

#[verifier::external_type_specification]
#[verifier::external_body]
pub struct ExApiError(hf_hub::api::sync::ApiError);

/// Relies on hf_hub::Cache::new: a cache handle rooted at the given
/// directory.
#[verifier::external_body]
fn cache_at(dir: &String) -> hf_hub::Cache {
    hf_hub::Cache::new(std::path::PathBuf::from(dir.as_str()))
}

/// Relies on hf_hub::Cache::default: a cache handle at the platform-default
/// location under the user's home directory (hf_hub aborts when no home
/// directory can be found).
#[verifier::external_body]
fn cache_default() -> hf_hub::Cache {
    hf_hub::Cache::default()
}

/// Relies on hf_hub::Repo::new: the handle of a model repository on its
/// default branch.
#[verifier::external_body]
fn model_repo(repo_id: &String) -> hf_hub::Repo {
    hf_hub::Repo::new(repo_id.clone(), hf_hub::RepoType::Model)
}

/// Relies on hf_hub::Cache::repo: the cache view of one repository.
#[verifier::external_body]
fn cache_repo(cache: &hf_hub::Cache, repo: hf_hub::Repo) -> hf_hub::CacheRepo {
    cache.repo(repo)
}

/// Relies on hf_hub::CacheRepo::get: the local path of the file when the
/// cache already holds it, `None` when it does not. The answer depends on
/// what is on disk, so nothing is promised of it.
#[verifier::external_body]
fn probe_cached(repo_cache: &hf_hub::CacheRepo, file: &str) -> Option<String> {
    repo_cache.get(file).map(|p| p.to_string_lossy().to_string())
}

/// Relies on hf_hub::api::sync::ApiBuilder::from_cache: a client builder
/// that shares the cache's location.
#[verifier::external_body]
fn api_builder_from_cache(cache: hf_hub::Cache) -> hf_hub::api::sync::ApiBuilder {
    hf_hub::api::sync::ApiBuilder::from_cache(cache)
}

/// Relies on hf_hub::api::sync::ApiBuilder::build: the remote client, or the
/// client-construction error.
#[verifier::external_body]
fn api_build(builder: hf_hub::api::sync::ApiBuilder) -> Result<
    hf_hub::api::sync::Api,
    hf_hub::api::sync::ApiError,
> {
    builder.build()
}

/// Relies on hf_hub::api::sync::Api::model: the remote view of one model
/// repository.
#[verifier::external_body]
fn api_model(api: &hf_hub::api::sync::Api, repo_id: &String) -> hf_hub::api::sync::ApiRepo {
    api.model(repo_id.clone())
}

/// Relies on hf_hub::api::sync::ApiRepo::get: returns the file's local path,
/// serving it from the cache or downloading it into the cache first; any
/// transport failure is the error. The outcome depends on the network and
/// the disk, so nothing is promised of it.
#[verifier::external_body]
fn fetch_file(repo: &hf_hub::api::sync::ApiRepo, file: &str) -> Result<
    String,
    hf_hub::api::sync::ApiError,
> {
    repo.get(file).map(|p| p.to_string_lossy().to_string())
}

/// Relies on the Display impl of hf_hub::api::sync::ApiError for the
/// human-readable description of a failure.
#[verifier::external_body]
fn api_error_message(e: &hf_hub::api::sync::ApiError) -> String {
    format!("{}", e)
}

/// Relies on std::path::Path::exists: whether the path names an existing
/// file; the answer depends on what is on disk.
#[verifier::external_body]
fn path_exists(path: &String) -> bool {
    std::path::Path::new(path.as_str()).exists()
}

/// Resolves the four asset files of `files` under the cache root: when every
/// one of them is already cached, their paths are returned with no remote
/// access; when any is missing, all four are fetched from the remote
/// repository, and any single failure aborts the whole resolution. Every
/// failure names its stage: the client build, or the fetch with the asset
/// file name that failed — never a silent partial result.
pub fn ensure_assets(cache_dir: &Option<String>, repo_id: &String, files: &AssetFileSet) -> (r:
    Result<AssetPaths, ResolveError>)
    ensures
        r is Err ==> names_resolution_stage(r->Err_0, *files),
{
    let cache = match cache_dir {
        Some(dir) => cache_at(dir),
        None => cache_default(),
    };
    let repo_cache = cache_repo(&cache, model_repo(repo_id));
    let encoder = probe_cached(&repo_cache, files.encoder.as_str());
    let decoder = probe_cached(&repo_cache, files.decoder.as_str());
    let joiner = probe_cached(&repo_cache, files.joiner.as_str());
    let tokens = probe_cached(&repo_cache, files.tokens.as_str());
    if let Some(paths) = plan_resolution(encoder, decoder, joiner, tokens) {
        return Ok(paths);
    }
    let api = match api_build(api_builder_from_cache(cache)) {
        Ok(api) => api,
        Err(e) => {
            return Err(ResolveError::ApiBuild { message: api_error_message(&e) });
        },
    };
    let api_repo = api_model(&api, repo_id);
    let encoder = match fetch_file(&api_repo, files.encoder.as_str()) {
        Ok(path) => path,
        Err(e) => {
            return Err(
                ResolveError::Fetch {
                    file: clone_string(&files.encoder),
                    message: api_error_message(&e),
                },
            );
        },
    };
    let decoder = match fetch_file(&api_repo, files.decoder.as_str()) {
        Ok(path) => path,
        Err(e) => {
            return Err(
                ResolveError::Fetch {
                    file: clone_string(&files.decoder),
                    message: api_error_message(&e),
                },
            );
        },
    };
    let joiner = match fetch_file(&api_repo, files.joiner.as_str()) {
        Ok(path) => path,
        Err(e) => {
            return Err(
                ResolveError::Fetch {
                    file: clone_string(&files.joiner),
                    message: api_error_message(&e),
                },
            );
        },
    };
    let tokens = match fetch_file(&api_repo, files.tokens.as_str()) {
        Ok(path) => path,
        Err(e) => {
            return Err(
                ResolveError::Fetch {
                    file: clone_string(&files.tokens),
                    message: api_error_message(&e),
                },
            );
        },
    };
    Ok(AssetPaths { encoder, decoder, joiner, tokens })
}

/// The integrity check of a resolution: every returned path must exist on
/// disk, as a guard against a cache contract violation. A failure names the
/// first missing path.
pub fn validate_assets(paths: &AssetPaths) -> (r: Result<(), ResolveError>)
    ensures
        r is Err ==> (r->Err_0 matches ResolveError::MissingFile { path } && (path == paths.encoder
            || path == paths.decoder || path == paths.joiner || path == paths.tokens)),
{
    let encoder_present = path_exists(&paths.encoder);
    let decoder_present = path_exists(&paths.decoder);
    let joiner_present = path_exists(&paths.joiner);
    let tokens_present = path_exists(&paths.tokens);
    check_presence(paths, encoder_present, decoder_present, joiner_present, tokens_present)
}

/// Resolves the variant's assets to four local paths: the catalog lookup,
/// then the cache resolution with its remote fallback. Absent selectors fall
/// back to the defaults (Japanese, full precision). A failure names the
/// stage and the asset file of the chosen variant that was involved.
pub fn download_models(
    cache_dir: Option<String>,
    precision: Option<Precision>,
    language: Option<Language>,
) -> (r: Result<(String, String, String, String), ResolveError>)
    ensures
        r is Err ==> names_variant_fetch(
            r->Err_0,
            chosen_language(language),
            chosen_precision(precision),
        ),
{
    let precision = match precision {
        Some(p) => p,
        None => Precision::Fp32,
    };
    let language = match language {
        Some(l) => l,
        None => Language::Ja,
    };
    let (repo_id, files) = resolve(language, precision);
    let paths = ensure_assets(&cache_dir, &repo_id, &files)?;
    Ok((paths.encoder, paths.decoder, paths.joiner, paths.tokens))
}

} // verus!
