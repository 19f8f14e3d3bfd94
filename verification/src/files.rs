//! Audio-file listing results and the pure parts of directory scanning.
//!
//! The walking of directories happens outside the library; what stands here
//! is the extension filter, the aggregation of per-directory results into
//! one deduplicated listing, and the saved-output descriptor.

use vstd::prelude::*;

use crate::playlist::paths_contain;
use crate::strutil::{str_chars, string_eq};

verus! {

/// How many audio files one scanned directory holds.
#[derive(Debug, Clone)]
pub struct AudioDirStats {
    pub dir: String,
    pub file_count: usize,
}

/// The result of scanning several directories: the deduplicated audio file
/// paths, and per-directory statistics.
#[derive(Debug, Clone)]
pub struct AudioFilesInDir {
    pub paths: Vec<String>,
    pub stats: Vec<AudioDirStats>,
}

/// Where a metadata blob was saved and how many bytes it holds.
#[derive(Debug, Clone)]
pub struct OutputFileInfo {
    path: String,
    size: usize,
}

impl OutputFileInfo {
    /// The characters of the saved file's path.
    pub closed spec fn spec_path(&self) -> Seq<char> {
        self.path@
    }

    /// The saved file's size in bytes.
    pub closed spec fn spec_size(&self) -> nat {
        self.size as nat
    }

    /// Describes a file written at `path` with `size` bytes.
    pub fn new(path: String, size: usize) -> (r: OutputFileInfo)
        ensures
            r.spec_path() == path@ && r.spec_size() == size,
    {
        OutputFileInfo { path, size }
    }

    /// The saved file's path.
    pub fn path(&self) -> (r: &String)
        ensures
            r@ == self.spec_path(),
    {
        &self.path
    }

    /// The saved file's size in bytes.
    pub fn size(&self) -> (r: usize)
        ensures
            r == self.spec_size(),
    {
        self.size
    }
}

/// An accepted audio file extension.
pub open spec fn is_audio_ext(e: Seq<char>) -> bool {
    e == "wav"@ || e == "flac"@ || e == "mp3"@ || e == "ogg"@
}

/// Whether `ext` is one of the accepted audio file extensions.
pub fn is_audio_extension(ext: &str) -> (r: bool)
    ensures
        r == is_audio_ext(ext@),
{
    str_eq_lit(ext, "wav") || str_eq_lit(ext, "flac") || str_eq_lit(ext, "mp3") || str_eq_lit(
        ext,
        "ogg",
    )
}

fn str_eq_lit(a: &str, b: &str) -> (r: bool)
    ensures
        r == (a@ == b@),
{
    crate::strutil::str_eq(a, b)
}

/// Folds per-directory scan results into one listing: statistics in scan
/// order, and the union of all found paths without duplicates.
pub fn collect_audio_stats(scans: Vec<(String, Vec<String>)>) -> (r: AudioFilesInDir)
    ensures
        r.stats@.len() == scans@.len(),
        forall|i: int|
            0 <= i < scans@.len() ==> (#[trigger] r.stats@[i]).dir == scans@[i].0
                && r.stats@[i].file_count == scans@[i].1@.len(),
        forall|a: int, b: int| 0 <= a < b < r.paths@.len() ==> r.paths@[a]@ != r.paths@[b]@,
        forall|p: Seq<char>|
            #[trigger] paths_contain(r.paths@, p) <==> (exists|i: int, j: int|
                0 <= i < scans@.len() && 0 <= j < scans@[i].1@.len() && (#[trigger] scans@[i].1@[j])@
                    == p),
{
    let mut stats: Vec<AudioDirStats> = Vec::new();
    let mut paths: Vec<String> = Vec::new();
    let mut i: usize = 0;
    while i < scans.len()
        invariant
            i <= scans@.len(),
            stats@.len() == i,
            forall|k: int|
                0 <= k < i ==> (#[trigger] stats@[k]).dir == scans@[k].0 && stats@[k].file_count
                    == scans@[k].1@.len(),
            forall|a: int, b: int| 0 <= a < b < paths@.len() ==> paths@[a]@ != paths@[b]@,
            forall|p: Seq<char>|
                #[trigger] paths_contain(paths@, p) <==> (exists|k: int, j: int|
                    0 <= k < i && 0 <= j < scans@[k].1@.len() && (#[trigger] scans@[k].1@[j])@ == p),
        decreases scans@.len() - i,
    {
        let files = &scans[i].1;
        let mut j: usize = 0;
        while j < files.len()
            invariant
                0 <= i < scans@.len(),
                j <= files@.len(),
                files@ == scans@[i as int].1@,
                forall|a: int, b: int| 0 <= a < b < paths@.len() ==> paths@[a]@ != paths@[b]@,
                forall|p: Seq<char>|
                    #[trigger] paths_contain(paths@, p) <==> ((exists|k: int, m: int|
                        0 <= k < i && 0 <= m < scans@[k].1@.len() && (#[trigger] scans@[k].1@[m])@
                            == p) || (exists|m: int|
                        0 <= m < j && (#[trigger] files@[m])@ == p)),
            decreases files@.len() - j,
        {
            let ghost before = paths@;
            if !crate::playlist::paths_contain_exec(&paths, &files[j]) {
                paths.push(files[j].clone());
            }
            proof {
                assert forall|p: Seq<char>| #[trigger]
                    paths_contain(paths@, p) <==> (paths_contain(before, p) || p
                        == files@[j as int]@) by {
                    if paths_contain(paths@, p) {
                        let w = choose|x: int|
                            0 <= x < paths@.len() && #[trigger] paths@[x]@ == p;
                        if w < before.len() {
                            assert(paths_contain(before, p));
                        }
                    }
                    if paths_contain(before, p) {
                        let w = choose|x: int|
                            0 <= x < before.len() && #[trigger] before[x]@ == p;
                        assert(paths@[w]@ == p);
                    }
                    if p == files@[j as int]@ && paths@.len() > before.len() {
                        assert(paths@[before.len() as int]@ == p);
                    }
                }
                assert forall|p: Seq<char>| #[trigger]
                    paths_contain(paths@, p) <==> ((exists|k: int, m: int|
                        0 <= k < i && 0 <= m < scans@[k].1@.len() && (#[trigger] scans@[k].1@[m])@
                            == p) || (exists|m: int|
                        0 <= m < j + 1 && (#[trigger] files@[m])@ == p)) by {
                    if exists|m: int| 0 <= m < j + 1 && (#[trigger] files@[m])@ == p {
                        let m = choose|m: int| 0 <= m < j + 1 && (#[trigger] files@[m])@ == p;
                        if m < j {
                            assert(paths_contain(before, p));
                        }
                    }
                }
            }
            j = j + 1;
        }
        stats.push(AudioDirStats { dir: scans[i].0.clone(), file_count: files.len() });
        proof {
            assert forall|p: Seq<char>| #[trigger]
                paths_contain(paths@, p) <==> (exists|k: int, m: int|
                    0 <= k < i + 1 && 0 <= m < scans@[k].1@.len() && (#[trigger] scans@[k].1@[m])@
                        == p) by {
                if exists|k: int, m: int|
                    0 <= k < i + 1 && 0 <= m < scans@[k].1@.len() && (#[trigger] scans@[k].1@[m])@
                        == p {
                    let (k, m) = choose|k: int, m: int|
                        0 <= k < i + 1 && 0 <= m < scans@[k].1@.len()
                            && (#[trigger] scans@[k].1@[m])@ == p;
                    if k < i {
                    } else {
                        assert(0 <= m < files@.len() && files@[m]@ == p);
                    }
                }
            }
        }
        i = i + 1;
    }
    AudioFilesInDir { paths, stats }
}

} // verus!
