//! The asset file: sole owner of a parsed asset, shared by reference count.
//!
//! A `File` wraps the parsed asset behind a shared reference-counted owner.
//! Every object instantiated from it retains that owner, so the parsed
//! asset lives at least as long as its longest-lived derived object, and is
//! released exactly once, when the last holder is gone.

use std::sync::Arc;

use vstd::prelude::*;

use crate::asset::{file_wf, lemma_sp_file_wf, parse_file, sp_file, FileData, FileRecord};

verus! {

/// The shared owner of the parsed asset. Children of a `File` hold a strong
/// reference to this, never a borrowed one.
#[derive(Debug)]
pub(crate) struct FileInner {
    pub(crate) data: FileRecord,
}

/// A loaded asset, immutable after load.
#[derive(Debug)]
pub struct File {
    inner: Arc<FileInner>,
}

impl View for File {
    type V = FileData;

    closed spec fn view(&self) -> FileData {
        self.inner.data@
    }
}

impl File {
    pub open spec fn wf(&self) -> bool {
        file_wf(self@)
    }

    /// Loads an asset from a byte buffer. Bytes that cannot be parsed yield
    /// absence and no partial object.
    pub fn import(bytes: &[u8]) -> (r: Option<File>)
        ensures
            (match r {
                Some(f) => sp_file(bytes@) == Some(f@) && f.wf(),
                None => sp_file(bytes@) is None,
            }),
    {
        match parse_file(bytes) {
            None => None,
            Some(rec) => {
                proof {
                    lemma_sp_file_wf(bytes@);
                }
                Some(File { inner: Arc::new(FileInner { data: rec }) })
            },
        }
    }

    /// How many artboards the asset defines.
    pub fn artboard_count(&self) -> (r: usize)
        ensures
            r == self@.artboards.len(),
    {
        self.inner.data.artboards.len()
    }

    pub(crate) fn as_inner(&self) -> (r: &Arc<FileInner>)
        ensures
            r.data@ == self@,
    {
        &self.inner
    }

    pub(crate) fn from_inner(inner: Arc<FileInner>) -> (r: File)
        ensures
            r@ == inner.data@,
    {
        File { inner }
    }
}

impl Clone for File {
    /// Sharing the file increments the reference count of the one owner;
    /// both handles denote the same asset.
    fn clone(&self) -> (r: Self)
        ensures
            r@ == self@,
    {
        File { inner: self.inner.clone() }
    }
}

} // verus!
