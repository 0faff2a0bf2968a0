use vstd::prelude::*;

verus! {

/// A fatal error of a preload run: the URL list could not be used at all, the
/// caching client could not be set up, the archive step failed after the fetch
/// loop, or one or more URLs failed to load.
#[derive(Debug, Clone, PartialEq, Eq)]
pub enum PreloadError {
    /// The URL list source could not be opened or read; `path` names it.
    FileAccess { path: String },
    /// A line of the URL list could not be decoded as UTF-8; `line` is 1-based.
    LineDecode { line: usize },
    /// The caching HTTP client could not be constructed.
    ClientInit { detail: String },
    /// The archive destination file could not be created.
    ArchiveCreate { detail: String },
    /// A cache file could not be appended to the archive.
    ArchiveWrite,
    /// The archive could not be closed and flushed.
    ArchiveFinalize,
    /// `count` URLs failed to load during the fetch loop.
    UrlsFailed { count: u64 },
}

/// A per-URL failure: recorded as a failure outcome by the fetch loop and
/// recovered locally, never fatal to the run.
#[derive(Debug, Clone, PartialEq, Eq)]
pub enum FetchError {
    /// The request could not be completed at all.
    Transport { detail: String },
    /// The request completed, but with a status outside the 2xx range.
    UnsuccessfulStatus { status: u16 },
}

} // verus!
