//! The caching fetch client: a plain HTTP client wrapped in a read-through
//! disk cache bound to one cache directory for its whole lifetime. The client
//! value is opaque here; issuing requests over it is the caller's side of the
//! loop, while its construction and configuration live in this module.

use vstd::prelude::*;

use crate::errors::PreloadError;

verus! {

#[verifier::external_type_specification]
#[verifier::external_body]
pub struct ExClientWithMiddleware(reqwest_middleware::ClientWithMiddleware);

/// Relies on `reqwest::ClientBuilder::build`, `http_cache_reqwest`'s `Cache`
/// middleware over `CACacheManager`, and `reqwest_middleware::ClientBuilder`:
/// constructs a GET client that consults and populates an on-disk cache under
/// `cache_dir`, in the default HTTP-caching mode (honor server freshness,
/// fetch and store on a miss, no proactive invalidation). Construction
/// performs no I/O and no retries or redirects are added.
#[verifier::external_body]
fn build_caching_client(cache_dir: &String) -> (r: Result<
    reqwest_middleware::ClientWithMiddleware,
    String,
>) {
    let inner = match reqwest::Client::builder().build() {
        Ok(c) => c,
        Err(e) => return Err(e.to_string()),
    };
    let manager = http_cache_reqwest::CACacheManager::new(
        std::path::PathBuf::from(cache_dir.as_str()),
        true,
    );
    let cache = http_cache_reqwest::Cache(http_cache_reqwest::HttpCache {
        mode: http_cache_reqwest::CacheMode::Default,
        manager,
        options: http_cache_reqwest::HttpCacheOptions::default(),
    });
    Ok(reqwest_middleware::ClientBuilder::new(inner).with(cache).build())
}

/// The caching fetch client for one run, bound to the given cache directory.
/// Fails with `ClientInit` exactly when the underlying HTTP client cannot be
/// constructed, carrying the cause.
pub fn caching_client(cache_dir: &String) -> (r: Result<
    reqwest_middleware::ClientWithMiddleware,
    PreloadError,
>)
    ensures
        r matches Err(e) ==> e matches PreloadError::ClientInit { .. },
{
    match build_caching_client(cache_dir) {
        Ok(c) => Ok(c),
        Err(detail) => Err(PreloadError::ClientInit { detail }),
    }
}

} // verus!
