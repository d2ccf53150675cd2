//! The interface a storage backend implements. The façade hands a backend
//! only canonical paths, file paths where a file is meant, and never a
//! copy or rename onto the same path.
use vstd::prelude::*;

use crate::capability::AccessorInfo;
use crate::error::Error;
use crate::metadata::{Entry, Metadata};
use crate::ops::{OpDelete, OpList, OpRead, OpStat, OpWrite, PresignOperation, PresignedRequest};
use crate::path::{ends_with_slash, is_normalized};

verus! {

/// A stream of bytes being read from the backend.
pub trait BlockingRead {
    /// The next bytes of the stream; an empty result marks its end.
    fn read(&mut self) -> Result<Vec<u8>, Error>;
}

/// A stream of bytes being written to the backend.
pub trait BlockingWrite {
    /// Writes a prefix of `bs` and says how many bytes it took; a backend
    /// may take fewer than offered.
    fn write(&mut self, bs: &[u8]) -> Result<usize, Error>;

    /// Finishes the object; nothing is persisted before this succeeds.
    fn close(&mut self) -> Result<(), Error>;
}

/// The entries of one listing, fetched page by page as they are asked for.
pub trait BlockingList {
    /// The next entry, or `None` once the backend has no more pages.
    fn next(&mut self) -> Result<Option<Entry>, Error>;
}

/// A storage backend.
pub trait Accessor {
    type Reader: BlockingRead;

    type Writer: BlockingWrite;

    type Lister: BlockingList;

    /// The backend's scheme and capability.
    fn info(&self) -> AccessorInfo;

    /// Creates the directory `path`.
    fn create_dir(&self, path: &str) -> Result<(), Error>
        requires
            is_normalized(path@),
            ends_with_slash(path@),
    ;

    /// The metadata of `path`.
    fn stat(&self, path: &str, args: OpStat) -> Result<Metadata, Error>
        requires
            is_normalized(path@),
    ;

    /// Opens the file `path` for reading the range in `args`.
    fn read(&self, path: &str, args: OpRead) -> Result<Self::Reader, Error>
        requires
            is_normalized(path@),
            !ends_with_slash(path@),
    ;

    /// Opens the file `path` for writing.
    fn write(&self, path: &str, args: OpWrite) -> Result<Self::Writer, Error>
        requires
            is_normalized(path@),
            !ends_with_slash(path@),
    ;

    /// Deletes `path`.
    fn delete(&self, path: &str, args: OpDelete) -> Result<(), Error>
        requires
            is_normalized(path@),
    ;

    /// Starts listing `path`.
    fn list(&self, path: &str, args: OpList) -> Result<Self::Lister, Error>
        requires
            is_normalized(path@),
    ;

    /// Copies the file `from` to the file `to`, replacing `to`.
    fn copy(&self, from: &str, to: &str) -> Result<(), Error>
        requires
            is_normalized(from@),
            is_normalized(to@),
            !ends_with_slash(from@),
            !ends_with_slash(to@),
            from@ != to@,
    ;

    /// Moves the file `from` to the file `to`, replacing `to`.
    fn rename(&self, from: &str, to: &str) -> Result<(), Error>
        requires
            is_normalized(from@),
            is_normalized(to@),
            !ends_with_slash(from@),
            !ends_with_slash(to@),
            from@ != to@,
    ;

    /// Deletes `paths` in one request and reports each path's outcome.
    fn batch_delete(&self, paths: Vec<String>) -> Result<Vec<(String, Result<(), Error>)>, Error>
        requires
            paths@.len() > 0,
            forall|i: int| 0 <= i < paths@.len() ==> is_normalized(#[trigger] paths@[i]@),
    ;

    /// Signs a request that performs `op` on `path` until `expire` has passed.
    fn presign(&self, path: &str, op: PresignOperation, expire: std::time::Duration) -> Result<
        PresignedRequest,
        Error,
    >
        requires
            is_normalized(path@),
    ;
}

} // verus!
