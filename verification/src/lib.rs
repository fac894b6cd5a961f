//! Verified core of an archive-extraction tool.
//!
//! The library covers the format-dispatch and filename-normalization layer:
//! classifying an archive by its (possibly compound) file extension, decoding
//! entry names of unknown text encoding, resolving a collision-free
//! destination directory name, and turning in-memory archive bytes into a
//! list of logical filesystem entries. The binary archive formats themselves
//! are decoded by outside libraries behind narrow trusted interfaces.

pub mod classify;
pub mod destination;
pub mod diag;
pub mod entries;
pub mod filename;
pub mod stream_extractor;
pub mod tar_extractor;
pub mod zip_extractor;
pub mod sevenz_extractor;
pub mod lha_extractor;
pub mod dispatch;
pub mod text;

use vstd::prelude::*;

verus! {

/// The archive format recognized from a file name, never from file content.
#[derive(Clone, Copy, Debug, PartialEq, Eq, Structural)]
pub enum FormatTag {
    Zip,
    SevenZ,
    Rar,
    Tar,
    TarGz,
    TarXz,
    TarBz2,
    Gzip,
    Xz,
    Bzip2,
    Lha,
    Lzh,
    Unknown,
}

} // verus!
