//! The archive builder: the files of the populated cache directory, handed in
//! as path/contents pairs, are packaged into one gzip-compressed tar archive
//! whose entries all sit under the fixed top-level name `cache/`.

use vstd::prelude::*;
use vstd::string::StringExecFns;

use crate::errors::PreloadError;

verus! {

/// An in-memory archive writer: a tar builder laid over a gzip encoder that
/// writes into a byte buffer. Held behind an opaque struct because Verus does
/// not take the outside types' `Write`-bounded declarations.
#[verifier::external_body]
pub struct ArchiveBuilder {
    inner: tar::Builder<flate2::write::GzEncoder<Vec<u8>>>,
}

/// The entries written to an in-memory archive builder so far, in order: for
/// each entry its path inside the archive, its permission bits, and its
/// contents.
pub uninterp spec fn archive_entries(b: ArchiveBuilder) -> Seq<(Seq<char>, u32, Seq<u8>)>;

/// The bytes of the finished gzip-compressed tar archive holding exactly the
/// given entries, written by this crate's fixed builder configuration.
pub uninterp spec fn targz_of(entries: Seq<(Seq<char>, u32, Seq<u8>)>) -> Seq<u8>;

/// Whether tar accepts an entry path. With the in-memory writer nothing else
/// can fail, so appending succeeds or fails as a function of the path alone:
/// in tar's source only a pathological path (one with a `..` component, or an
/// absolute one) is refused, and it is refused before anything is written.
pub uninterp spec fn append_ok(name: Seq<char>) -> bool;

/// Relies on `tar::Builder::new` and `flate2::write::GzEncoder::new`: a fresh
/// builder over an empty in-memory buffer holds no entries. The compression
/// level is always `Compression::default()`, so the finished bytes depend on
/// the entries alone.
#[verifier::external_body]
fn new_archive_builder() -> (b: ArchiveBuilder)
    ensures
        archive_entries(b) == Seq::<(Seq<char>, u32, Seq<u8>)>::empty(),
{
    ArchiveBuilder {
        inner: tar::Builder::new(
            flate2::write::GzEncoder::new(Vec::new(), flate2::Compression::default()),
        ),
    }
}

/// Relies on `tar::Builder::append_data` (with a fresh `tar::Header::new_gnu`
/// carrying the given size and mode): on success exactly one entry with the
/// given path, mode and contents is appended after the entries already
/// written. Writing into the in-memory buffer cannot fail, so the call
/// succeeds exactly when tar accepts the entry path.
#[verifier::external_body]
fn append_archive_entry(b: &mut ArchiveBuilder, name: &String, mode: u32, data: &Vec<u8>) -> (r:
    bool)
    ensures
        r == append_ok(name@),
        r ==> archive_entries(*final(b)) == archive_entries(*old(b)).push((name@, mode, data@)),
{
    let mut header = tar::Header::new_gnu();
    header.set_size(data.len() as u64);
    header.set_mode(mode);
    b.inner.append_data(&mut header, name.as_str(), data.as_slice()).is_ok()
}

/// Relies on `tar::Builder::into_inner` and `GzEncoder::finish`: the archive
/// is terminated and flushed, and the returned bytes are the complete
/// gzip-compressed tar archive of the entries written, a function of those
/// entries alone under this crate's fixed builder configuration. Both calls
/// only forward errors of the underlying writer, and writing into the
/// in-memory buffer cannot fail, so finishing always succeeds.
#[verifier::external_body]
fn finish_archive(b: ArchiveBuilder) -> (r: Option<Vec<u8>>)
    ensures
        r is Some,
        r matches Some(bytes) ==> bytes@ == targz_of(archive_entries(b)),
{
    match b.inner.into_inner() {
        Ok(encoder) => match encoder.finish() {
            Ok(bytes) => Some(bytes),
            Err(_) => None,
        },
        Err(_) => None,
    }
}

/// One file of the cache directory, as the archive step receives it: its path
/// relative to the cache directory, its permission bits, and its contents.
pub struct CacheFile {
    pub rel_path: String,
    pub mode: u32,
    pub data: Vec<u8>,
}

/// The archive entry owed for one cache file: its relative path under the
/// fixed top-level name `cache/`, with its mode and contents unchanged.
pub open spec fn entry_of(f: CacheFile) -> (Seq<char>, u32, Seq<u8>) {
    ("cache/"@ + f.rel_path@, f.mode, f.data@)
}

/// The archive entries owed for a cache directory's files, in the order they
/// were handed in.
pub open spec fn entries_of(files: Seq<CacheFile>) -> Seq<(Seq<char>, u32, Seq<u8>)> {
    files.map_values(|f: CacheFile| entry_of(f))
}

/// The path of a cache file inside the archive: the fixed top-level name
/// `cache/` followed by the file's path relative to the cache directory.
pub fn archive_entry_name(rel_path: &String) -> (r: String)
    ensures
        r@ == "cache/"@ + rel_path@,
{
    let prefix: String = "cache/".to_owned();
    prefix.concat(rel_path.as_str())
}

/// Builds the single compressed archive of a cache directory's files: every
/// file appears, in the order handed in, under the fixed top-level name
/// `cache/`, with its mode and contents unchanged. Succeeds whenever tar
/// accepts every entry path — finalizing the in-memory archive cannot fail —
/// and fails with `ArchiveWrite`, leaving no bytes to write out, exactly when
/// it refuses one.
pub fn build_cache_archive(files: &Vec<CacheFile>) -> (r: Result<Vec<u8>, PreloadError>)
    ensures
        match r {
            Ok(bytes) => {
                &&& forall|i: int|
                    0 <= i < files@.len() ==> append_ok((#[trigger] entries_of(files@)[i]).0)
                &&& bytes@ == targz_of(entries_of(files@))
            },
            Err(e) => {
                &&& e == PreloadError::ArchiveWrite
                &&& exists|i: int|
                    0 <= i < files@.len() && !append_ok((#[trigger] entries_of(files@)[i]).0)
            },
        },
{
    let mut b = new_archive_builder();
    let mut i: usize = 0;
    while i < files.len()
        invariant
            i <= files@.len(),
            archive_entries(b) == entries_of(files@.take(i as int)),
            forall|j: int| 0 <= j < i ==> append_ok((#[trigger] entries_of(files@)[j]).0),
        decreases files@.len() - i,
    {
        let name = archive_entry_name(&files[i].rel_path);
        let appended = append_archive_entry(&mut b, &name, files[i].mode, &files[i].data);
        proof {
            assert(entries_of(files@)[i as int] == entry_of(files@[i as int]));
        }
        if !appended {
            return Err(PreloadError::ArchiveWrite);
        }
        proof {
            assert(entries_of(files@.take(i + 1)) =~= entries_of(files@.take(i as int)).push(
                entry_of(files@[i as int]),
            ));
        }
        i = i + 1;
    }
    proof {
        assert(files@.take(files@.len() as int) =~= files@);
    }
    match finish_archive(b) {
        Some(bytes) => Ok(bytes),
        None => Err(PreloadError::ArchiveWrite),
    }
}

} // verus!
