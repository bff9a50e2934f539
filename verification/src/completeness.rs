//! Detection of partial downloads by the trailing bytes of a file.
//!
//! This is a heuristic, not a structural validation of the image. For
//! `bmp` and `tiff`/`tif` the bytes looked for are the magic bytes with which
//! such a file begins, not a true end marker, so a complete file of these
//! formats is in general reported as incomplete and fetched again.

use crate::error::{ErrorKind, ErrorView, SyncError};
use crate::text::{equal, extension, spec_extension};
use vstd::prelude::*;
use vstd::string::*;

verus! {

/// The bytes that end a completely written file of the given type, for the
/// types that are recognized.
pub open spec fn spec_eof_marker(file_type: Seq<char>) -> Option<Seq<u8>> {
    if file_type == "jpg"@ || file_type == "jpeg"@ {
        Some(seq![0xFFu8, 0xD9u8])
    } else if file_type == "png"@ {
        Some(seq![0x49u8, 0x45u8, 0x4Eu8, 0x44u8, 0xAEu8, 0x42u8, 0x60u8, 0x82u8])
    } else if file_type == "gif"@ {
        Some(seq![0x3Bu8])
    } else if file_type == "bmp"@ {
        Some(seq![0x42u8, 0x4Du8])
    } else if file_type == "tiff"@ || file_type == "tif"@ {
        Some(seq![0x00u8, 0x00u8, 0x00u8, 0x00u8])
    } else {
        None
    }
}

/// The marker expected at the end of the file with the given name; `None`
/// where the name has no extension or one that is not recognized.
pub open spec fn spec_marker_for(file_name: Seq<char>) -> Option<Seq<u8>> {
    match spec_extension(file_name) {
        Some(file_type) => spec_eof_marker(file_type),
        None => None,
    }
}

/// Whether a file with the given name, whose last bytes are `tail`, counts
/// as completely downloaded: its type is recognized and `tail` is exactly
/// the marker of that type.
pub open spec fn spec_is_download_completed(file_name: Seq<char>, tail: Seq<u8>) -> bool {
    spec_marker_for(file_name) == Some(tail)
}

/// The failure reported for a file that is shorter than the marker looked
/// for at its end.
pub open spec fn spec_too_short() -> ErrorView {
    ErrorView { kind: ErrorKind::Io, message: "file is shorter than its end marker"@ }
}

/// Where the last `marker_len` bytes of a file of `file_len` bytes begin;
/// a failure where the file is shorter than that.
pub open spec fn spec_tail_start(file_len: u64, marker_len: usize) -> Result<u64, ErrorView> {
    if marker_len <= file_len {
        Ok((file_len - marker_len) as u64)
    } else {
        Err(spec_too_short())
    }
}

/// Looks up the end marker of a file type. The type is matched as given,
/// without folding case.
pub fn get_eof_marker(file_type: &str) -> (marker: Option<Vec<u8>>)
    ensures
        match marker {
            Some(bytes) => spec_eof_marker(file_type@) == Some(bytes@),
            None => spec_eof_marker(file_type@) is None,
        },
{
    if equal(file_type, "jpg") || equal(file_type, "jpeg") {
        let bytes: Vec<u8> = vec![0xFF, 0xD9];
        assert(bytes@ =~= seq![0xFFu8, 0xD9u8]);
        Some(bytes)
    } else if equal(file_type, "png") {
        let bytes: Vec<u8> = vec![0x49, 0x45, 0x4E, 0x44, 0xAE, 0x42, 0x60, 0x82];
        assert(bytes@ =~= seq![0x49u8, 0x45u8, 0x4Eu8, 0x44u8, 0xAEu8, 0x42u8, 0x60u8, 0x82u8]);
        Some(bytes)
    } else if equal(file_type, "gif") {
        let bytes: Vec<u8> = vec![0x3B];
        assert(bytes@ =~= seq![0x3Bu8]);
        Some(bytes)
    } else if equal(file_type, "bmp") {
        let bytes: Vec<u8> = vec![0x42, 0x4D];
        assert(bytes@ =~= seq![0x42u8, 0x4Du8]);
        Some(bytes)
    } else if equal(file_type, "tiff") || equal(file_type, "tif") {
        let bytes: Vec<u8> = vec![0x00, 0x00, 0x00, 0x00];
        assert(bytes@ =~= seq![0x00u8, 0x00u8, 0x00u8, 0x00u8]);
        Some(bytes)
    } else {
        None
    }
}

/// The marker to look for at the end of the file with the given name, if
/// its type is recognized. Its length is the number of trailing bytes to
/// read from the file.
pub fn marker_for(file_name: &str) -> (marker: Option<Vec<u8>>)
    ensures
        match marker {
            Some(bytes) => spec_marker_for(file_name@) == Some(bytes@),
            None => spec_marker_for(file_name@) is None,
        },
{
    match extension(file_name) {
        Some(file_type) => get_eof_marker(file_type),
        None => None,
    }
}

/// Finds the offset at which the last `marker_len` bytes of a file of
/// `file_len` bytes begin. A file that is shorter than the marker cannot be
/// judged: that is an I/O failure.
pub fn tail_start(file_len: u64, marker_len: usize) -> (start: Result<u64, SyncError>)
    ensures
        spec_tail_start(file_len, marker_len) == match start {
            Ok(offset) => Ok(offset),
            Err(error) => Err(error@),
        },
{
    if marker_len as u64 <= file_len {
        Ok(file_len - marker_len as u64)
    } else {
        Err(
            SyncError {
                kind: ErrorKind::Io,
                message: "file is shorter than its end marker".to_owned(),
            },
        )
    }
}

/// Tells whether two byte strings are the same.
fn same_bytes(a: &[u8], b: &[u8]) -> (same: bool)
    ensures
        same == (a@ == b@),
{
    if a.len() != b.len() {
        return false;
    }
    let mut i: usize = 0;
    while i < a.len()
        invariant
            a.len() == b.len(),
            i <= a.len(),
            a@.take(i as int) == b@.take(i as int),
        decreases a.len() - i,
    {
        if a[i] != b[i] {
            return false;
        }
        i += 1;
        assert(a@.take(i as int) =~= a@.take(i - 1).push(a[i - 1]));
        assert(b@.take(i as int) =~= b@.take(i - 1).push(b[i - 1]));
    }
    assert(a@.take(i as int) =~= a@);
    assert(b@.take(i as int) =~= b@);
    true
}

/// Decides whether the file with the given name is completely downloaded,
/// given the last bytes of that file. A file of a type that is not
/// recognized is never complete.
pub fn is_download_completed(file_name: &str, tail: &[u8]) -> (completed: bool)
    ensures
        completed == spec_is_download_completed(file_name@, tail@),
{
    match marker_for(file_name) {
        Some(marker) => same_bytes(marker.as_slice(), tail),
        None => false,
    }
}

} // verus!
