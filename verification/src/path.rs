//! The filter that decides, from a file's path alone, whether a change to it
//! asks for a recompile and of which stage.
//!
//! Paths are taken apart by `std::path::Path`, so a path means here exactly
//! what it means to the file system calls that later open it. Two functions
//! of this module are trusted rather than proved: [`file_stem`] and
//! [`extension`]. All that is claimed of them is that each computes a
//! function of the path's text, named [`path_file_stem`] and
//! [`path_extension`]; what those functions are on a given path is left to
//! the standard library.

use crate::stage::{stage_of_extension, ShaderStage};
use crate::text::{starts_with, text_of};
use vstd::prelude::*;

verus! {

/// What `std::path::Path::file_stem` gives for the path with this text, on
/// the platform the library is built for: the final component without its
/// extension, or `None` where the path has no final component.
pub uninterp spec fn path_file_stem(path: Seq<char>) -> Option<Seq<char>>;

/// What `std::path::Path::extension` gives for the path with this text, on
/// the platform the library is built for: what follows the last dot of the
/// final component, or `None` where there is no such part.
pub uninterp spec fn path_extension(path: Seq<char>) -> Option<Seq<char>>;

/// Calls `std::path::Path::file_stem`. Trusted: the result depends on the
/// path's text alone. A stem cut from a `&str` is itself valid UTF-8, so the
/// conversion back to a string loses nothing.
#[verifier::external_body]
pub(crate) fn file_stem(path: &str) -> (stem: Option<String>)
    ensures
        text_of(stem) == path_file_stem(path@),
{
    match std::path::Path::new(path).file_stem() {
        Some(stem) => stem.to_str().map(String::from),
        None => None,
    }
}

/// Calls `std::path::Path::extension`. Trusted: the result depends on the
/// path's text alone. An extension cut from a `&str` is itself valid UTF-8,
/// so the conversion back to a string loses nothing.
#[verifier::external_body]
pub(crate) fn extension(path: &str) -> (extension: Option<String>)
    ensures
        text_of(extension) == path_extension(path@),
{
    match std::path::Path::new(path).extension() {
        Some(extension) => extension.to_str().map(String::from),
        None => None,
    }
}

/// Whether a file stem passes the prefix filter: with no filter every file
/// passes, a file without a stem included; with one, the stem must exist and
/// begin with it.
pub open spec fn stem_passes(prefix: Option<Seq<char>>, stem: Option<Seq<char>>) -> bool {
    match prefix {
        None => true,
        Some(p) => match stem {
            Some(s) => p.is_prefix_of(s),
            None => false,
        },
    }
}

/// The whole filter: the stage that a change to `path` recompiles under the
/// prefix filter `prefix`, or `None` where the change is to be ignored. The
/// prefix is tested first, then the extension.
pub open spec fn stage_of_path(prefix: Option<Seq<char>>, path: Seq<char>) -> Option<ShaderStage> {
    if stem_passes(prefix, path_file_stem(path)) {
        stage_of_extension(path_extension(path))
    } else {
        None
    }
}

/// Tests a file stem against the prefix filter.
pub fn check_stem(prefix: &Option<String>, stem: &Option<String>) -> (passes: bool)
    ensures
        passes == stem_passes(text_of(*prefix), text_of(*stem)),
{
    match prefix {
        None => true,
        Some(p) => match stem {
            Some(s) => starts_with(s.as_str(), p.as_str()),
            None => false,
        },
    }
}

/// Runs the filter on a path: the stage to recompile, or `None` where the
/// path is filtered out by its stem or by its extension.
pub fn classify(prefix: &Option<String>, path: &str) -> (stage: Option<ShaderStage>)
    ensures
        stage == stage_of_path(text_of(*prefix), path@),
{
    if prefix.is_some() {
        let stem = file_stem(path);
        if !check_stem(prefix, &stem) {
            return None;
        }
    }
    let extension = extension(path);
    ShaderStage::from_extension(&extension)
}

} // verus!
