//! Choosing the image files out of a directory listing.

use vstd::prelude::*;
use crate::extensions::{CaseMode, extension_of, is_listed, file_extension, is_supported_extension};

verus! {

/// One entry of a directory listing, as the file system reported it.
pub struct DirEntryInfo {
    /// The entry's full path.
    pub path: String,
    /// The entry's file name, its last path component.
    pub name: String,
    /// Whether the entry is a regular file.
    pub is_file: bool,
}

/// Whether an entry is a regular file whose extension is one of `formats`.
pub open spec fn is_image_entry(e: DirEntryInfo, formats: Seq<String>, mode: CaseMode) -> bool {
    e.is_file && match extension_of(e.name@) {
        Some(ext) => is_listed(ext, formats, mode),
        None => false,
    }
}

/// Whether an entry is a regular file that is not an image.
pub open spec fn is_other_file(e: DirEntryInfo, formats: Seq<String>, mode: CaseMode) -> bool {
    e.is_file && !is_image_entry(e, formats, mode)
}

/// `is_image_entry` as a predicate over entries.
pub open spec fn image_pred(formats: Seq<String>, mode: CaseMode) -> spec_fn(DirEntryInfo) -> bool {
    |e: DirEntryInfo| is_image_entry(e, formats, mode)
}

/// The paths of the image entries, in the order of the listing.
pub open spec fn scan(entries: Seq<DirEntryInfo>, formats: Seq<String>, mode: CaseMode) -> Seq<Seq<char>> {
    entries.filter(image_pred(formats, mode)).map_values(
        |e: DirEntryInfo| e.path@,
    )
}

/// The paths of the listed entries that are image files, in listing order.
pub fn get_image_files_in_directory(
    entries: &Vec<DirEntryInfo>,
    supported_formats: &Vec<String>,
    mode: CaseMode,
) -> (r: Vec<String>)
    ensures
        r@.map_values(|s: String| s@) == scan(entries@, supported_formats@, mode),
{
    let mut image_files: Vec<String> = Vec::new();
    let mut i: usize = 0;
    while i < entries.len()
        invariant
            i <= entries@.len(),
            image_files@.map_values(|s: String| s@) == scan(
                entries@.subrange(0, i as int),
                supported_formats@,
                mode,
            ),
        decreases entries.len() - i,
    {
        let entry = &entries[i];
        let mut keep = false;
        if entry.is_file {
            match file_extension(entry.name.as_str()) {
                Some(ext) => {
                    keep = is_supported_extension(ext, supported_formats, mode);
                },
                None => {},
            }
        }
        assert(keep == is_image_entry(*entry, supported_formats@, mode));
        let ghost before = image_files@;
        let ghost pre = entries@.subrange(0, i as int);
        let ghost pred = image_pred(supported_formats@, mode);
        proof {
            assert(entries@.subrange(0, i + 1) =~= pre.push(*entry));
            pre.lemma_filter_push(*entry, pred);
        }
        if keep {
            image_files.push(entry.path.clone());
            assert(image_files@.map_values(|s: String| s@) =~= before.map_values(
                |s: String| s@,
            ).push(entry.path@));
            assert(pre.push(*entry).filter(pred).map_values(|e: DirEntryInfo| e.path@)
                =~= pre.filter(pred).map_values(|e: DirEntryInfo| e.path@).push(entry.path@));
        } else {
            assert(pre.push(*entry).filter(pred) == pre.filter(pred));
        }
        i = i + 1;
    }
    assert(entries@.subrange(0, entries@.len() as int) =~= entries@);
    image_files
}

/// Every regular file of a listing is either an image or not: the scan
/// returns exactly as many paths as there are image files, and the image
/// files, the other files and the remaining entries (directories and the
/// like) together make up the whole listing.
pub proof fn lemma_scan_counts(entries: Seq<DirEntryInfo>, formats: Seq<String>, mode: CaseMode)
    ensures
        scan(entries, formats, mode).len() == entries.filter(image_pred(formats, mode)).len(),
        entries.filter(image_pred(formats, mode)).len() + entries.filter(
            |e: DirEntryInfo| is_other_file(e, formats, mode),
        ).len() + entries.filter(|e: DirEntryInfo| !e.is_file).len() == entries.len(),
    decreases entries.len(),
{
    let img = image_pred(formats, mode);
    let other = |e: DirEntryInfo| is_other_file(e, formats, mode);
    let dir = |e: DirEntryInfo| !e.is_file;
    if entries.len() > 0 {
        let rest = entries.drop_last();
        lemma_scan_counts(rest, formats, mode);
        assert(rest.push(entries.last()) =~= entries);
        rest.lemma_filter_push(entries.last(), img);
        rest.lemma_filter_push(entries.last(), other);
        rest.lemma_filter_push(entries.last(), dir);
    }
}

} // verus!
