//! The work for one wallpaper: where its file goes, and whether it has to
//! be fetched.
//!
//! The local file is named after the last segment of the wallpaper's
//! address. Two wallpapers whose addresses end in the same segment share
//! one local file, and which of the two images is left in it is not
//! defined.

use crate::completeness::{
    is_download_completed,
    marker_for,
    spec_is_download_completed,
    spec_marker_for,
};
use crate::records::{Wallpaper, WallpaperView};
use crate::text::{last_segment, spec_last_segment};
use vstd::prelude::*;
use vstd::string::*;

verus! {

/// The name of the local file for the image at `address`: the last segment
/// of the address.
pub open spec fn spec_file_name(address: Seq<char>) -> Seq<char> {
    spec_last_segment(address, '/')
}

/// The path of the file `name` in the directory `dir`.
pub open spec fn spec_file_path(dir: Seq<char>, name: Seq<char>) -> Seq<char> {
    dir.push('/') + name
}

/// What a worker needs to bring one wallpaper to disk.
#[derive(Debug)]
pub struct DownloadJob {
    /// The address to fetch the image from.
    pub url: String,
    /// The name of the local file.
    pub file_name: String,
    /// The path of the local file.
    pub file_path: String,
}

/// A job as plain values.
pub struct JobView {
    pub url: Seq<char>,
    pub file_name: Seq<char>,
    pub file_path: Seq<char>,
}

impl View for DownloadJob {
    type V = JobView;

    open spec fn view(&self) -> JobView {
        JobView { url: self.url@, file_name: self.file_name@, file_path: self.file_path@ }
    }
}

impl DeepView for DownloadJob {
    type V = JobView;

    open spec fn deep_view(&self) -> JobView {
        self@
    }
}

/// The job for `wallpaper` when files go to `dir`.
pub open spec fn spec_job(dir: Seq<char>, wallpaper: WallpaperView) -> JobView {
    JobView {
        url: wallpaper.path,
        file_name: spec_file_name(wallpaper.path),
        file_path: spec_file_path(dir, spec_file_name(wallpaper.path)),
    }
}

/// The jobs for the wallpapers of one page, in the order of the page.
pub open spec fn spec_jobs(dir: Seq<char>, wallpapers: Seq<WallpaperView>) -> Seq<JobView> {
    Seq::new(wallpapers.len(), |i: int| spec_job(dir, wallpapers[i]))
}

/// Whether the image for the local file `file_name` has to be fetched: it
/// has, unless the file exists and its trailing bytes `tail` show it
/// complete.
pub open spec fn spec_needs_fetch(file_name: Seq<char>, exists: bool, tail: Seq<u8>) -> bool {
    !(exists && spec_is_download_completed(file_name, tail))
}

/// How many trailing bytes of the local file `file_name` have to be read
/// before `spec_needs_fetch` can be decided.
pub open spec fn spec_tail_len(file_name: Seq<char>, exists: bool) -> Option<usize> {
    match spec_marker_for(file_name) {
        Some(marker) if exists => Some(marker.len() as usize),
        _ => None,
    }
}

/// The path of the file `name` in the directory `dir`.
pub fn file_path(dir: &str, name: &str) -> (path: String)
    ensures
        path@ == spec_file_path(dir@, name@),
{
    proof {
        reveal_strlit("/");
    }
    let path = dir.to_owned().concat("/").concat(name);
    assert(path@ =~= spec_file_path(dir@, name@));
    path
}

impl DownloadJob {
    /// Plans the download of `wallpaper` into `dir`.
    pub fn prepare(dir: &str, wallpaper: &Wallpaper) -> (job: DownloadJob)
        ensures
            job@ == spec_job(dir@, wallpaper@),
    {
        let name = last_segment(wallpaper.path.as_str(), '/');
        DownloadJob {
            url: wallpaper.path.clone(),
            file_name: name.to_owned(),
            file_path: file_path(dir, name),
        }
    }

    /// How many trailing bytes of the local file have to be read to decide
    /// whether it is complete: the length of the marker of its type.
    /// `None` where nothing has to be read, because the file does not
    /// exist or its type is not recognized.
    pub fn tail_len(&self, exists: bool) -> (len: Option<usize>)
        ensures
            len == spec_tail_len(self.file_name@, exists),
    {
        if !exists {
            return None;
        }
        match marker_for(self.file_name.as_str()) {
            Some(marker) => Some(marker.len()),
            None => None,
        }
    }

    /// Decides whether the image has to be fetched: it has, unless the
    /// local file exists and its trailing bytes `tail` show it complete.
    /// `tail` is not looked at where the file does not exist.
    pub fn needs_fetch(&self, exists: bool, tail: &[u8]) -> (fetch: bool)
        ensures
            fetch == spec_needs_fetch(self.file_name@, exists, tail@),
    {
        !(exists && is_download_completed(self.file_name.as_str(), tail))
    }
}

} // verus!
