//! The decisions of the Android asset reader: which path it opens for a
//! request, what it answers when nothing is there, and its answers to
//! directory requests, which it does not support.
//!
//! Opening an asset and reading its bytes is I/O through the NDK asset
//! manager; the caller does that and hands the outcome to these functions.

use vstd::prelude::*;
use crate::asset_path::{copy_prefix, extension, get_meta_path, meta_path};

verus! {

/// Why the asset reader could not answer a request.
#[derive(Debug, PartialEq, Eq)]
pub enum AssetReaderError {
    /// Nothing is stored at this path (the bytes of the path).
    NotFound(Vec<u8>),
}

/// The Android asset reader, rooted at a directory of the APK's assets.
pub struct AndroidAssetIo {
    root_path: Vec<u8>,
}

impl AndroidAssetIo {
    /// The directory of the APK's assets that this reader is rooted at.
    pub closed spec fn root(&self) -> Seq<u8> {
        self.root_path@
    }

    /// A reader rooted at `path`.
    pub fn new(path: &[u8]) -> (io: AndroidAssetIo)
        ensures
            io.root() == path@,
    {
        AndroidAssetIo { root_path: copy_prefix(path, path.len()) }
    }

    /// The directory that this reader is rooted at.
    pub fn root_path(&self) -> (root: &[u8])
        ensures
            root@ == self.root(),
    {
        self.root_path.as_slice()
    }

    /// The path that a request for the meta file of the asset at `path`
    /// opens: its meta path. Asset paths must have extensions.
    pub fn read_meta_target(&self, path: &[u8]) -> (target: Vec<u8>)
        requires
            extension(path@) is Some,
        ensures
            target@ == meta_path(path@),
    {
        get_meta_path(path)
    }

    /// The answer to a request that opened `target`: what was opened there,
    /// or `NotFound(target)` when nothing was.
    pub fn opened_or_not_found<T>(&self, target: &[u8], opened: Option<T>) -> (answer: Result<T, AssetReaderError>)
        ensures
            match opened {
                Some(asset) => answer == Ok::<T, AssetReaderError>(asset),
                None => answer matches Err(AssetReaderError::NotFound(p)) && p@ == target@,
            },
    {
        match opened {
            Some(asset) => Ok(asset),
            None => Err(AssetReaderError::NotFound(copy_prefix(target, target.len()))),
        }
    }

    /// Directories cannot be read: a request to list the directory at `path`
    /// is always answered with this error, `NotFound(path)`.
    pub fn read_directory(&self, path: &[u8]) -> (error: AssetReaderError)
        ensures
            error matches AssetReaderError::NotFound(p) && p@ == path@,
    {
        AssetReaderError::NotFound(copy_prefix(path, path.len()))
    }

    /// No path is a directory to this reader.
    pub fn is_directory(&self, path: &[u8]) -> (answer: Result<bool, AssetReaderError>)
        ensures
            answer == Ok::<bool, AssetReaderError>(false),
    {
        Ok(false)
    }
}

} // verus!
