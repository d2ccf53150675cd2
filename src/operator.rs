//! The façade: every operation normalizes its path, checks the mode the
//! operation needs, and dispatches to the backend.
use vstd::prelude::*;
use vstd::slice::slice_subrange;

use crate::accessor::{Accessor, BlockingList, BlockingRead, BlockingWrite};
use crate::capability::{initial_limit, AccessorInfo, Capability, OperatorInfo};
use crate::error::{carries, Error, ErrorKind};
use crate::functions::{
    FunctionDelete, FunctionList, FunctionLister, FunctionRead, FunctionReader, FunctionStat,
    FunctionWrite, FunctionWriter, OperatorFunction,
};
use crate::metadata::{Entry, EntryMode, Metadata};
use crate::ops::{
    default_read, default_stat, default_write, is_default_list,
    OpDelete, OpList, OpRead, OpStat, OpWrite, PresignOperation, PresignedRequest,
};
use crate::session::{
    remove_tree, run_requests, sent_in_order, tree_removed, Deleter, SentKind, WriteSession,
};
use crate::path::{ends_with_slash, is_normalized, normalize, normalize_path, validate_path};
use crate::plan::{
    check_outcome, check_transfer_paths, collect_step, delete_outcome,
    exists_from_stat, is_removal_of, read_step, removal_requests, remove_all_step,
    remove_all_step_spec, resolve_range, stat_conditions_hold, stat_outcome, transfer_refusal,
    CollectStep, DeleteRequest, ReadStep, RemoveAllStep, TreeRemoval,
};

verus! {

fn directory_error<A: Accessor>(inner: &A, operation: &str, path: &String, message: &str) -> (r:
    Error)
    ensures
        r.kind == ErrorKind::IsADirectory,
        r.operation@ == operation@,
        carries(r, "path"@, path@),
{
    let info = inner.info();
    Error::new(ErrorKind::IsADirectory, message).with_operation(operation).with_context(
        "service",
        info.scheme.as_str(),
    ).with_context("path", path.as_str())
}

/// Stats the canonical `path` and holds the result to the conditions of
/// `args`.
pub(crate) fn stat_exec<A: Accessor>(inner: &A, path: &String, args: OpStat) -> (r: Result<
    Metadata,
    Error,
>)
    requires
        is_normalized(path@),
    ensures
        r matches Ok(m) ==> stat_conditions_hold(args, m),
{
    let conditions = args.clone_conditions();
    stat_outcome(&conditions, inner.stat(path.as_str(), args))
}

/// Reads from `reader` until it ends, expecting exactly `size` bytes; more
/// or fewer is a `ContentIncomplete` error.
pub fn read_to_size<R: BlockingRead>(reader: &mut R, size: u64) -> (r: Result<Vec<u8>, Error>)
    ensures
        r matches Ok(buf) ==> buf@.len() == size,
{
    let mut buf: Vec<u8> = Vec::new();
    loop
        invariant
            buf@.len() <= size,
        decreases size - buf@.len(),
    {
        let chunk = reader.read()?;
        match read_step(buf, chunk, size) {
            ReadStep::More(b) => buf = b,
            ReadStep::Finished(r) => return r,
        }
    }
}

/// Reads the file `path`. A range without a size is completed from the
/// length that a stat reports.
pub(crate) fn read_exec<A: Accessor>(inner: &A, path: &String, args: OpRead) -> (r: Result<
    Vec<u8>,
    Error,
>)
    requires
        is_normalized(path@),
    ensures
        ends_with_slash(path@) ==> (r matches Err(e) && e.kind == ErrorKind::IsADirectory
            && e.operation@ == "read"@ && carries(e, "path"@, path@)),
        args.range.size is Some ==> (r matches Ok(buf) ==> buf@.len()
                == args.range.size->0),
{
    if !validate_path(path.as_str(), EntryMode::File) {
        return Err(directory_error(inner, "read", path, "read path is a directory"));
    }
    let range = if args.range.is_bounded() {
        args.range
    } else {
        let meta = inner.stat(path.as_str(), OpStat::new())?;
        resolve_range(args.range, &meta)?
    };
    let size = match range.size {
        Some(s) => s,
        None => 0,
    };
    let mut reader = inner.read(path.as_str(), args.with_range(range))?;
    read_to_size(&mut reader, size)
}

/// Opens the file `path` for streaming reads.
pub(crate) fn reader_exec<A: Accessor>(inner: &A, path: &String, args: OpRead) -> (r: Result<
    A::Reader,
    Error,
>)
    requires
        is_normalized(path@),
    ensures
        ends_with_slash(path@) ==> (r matches Err(e) && e.kind == ErrorKind::IsADirectory
            && e.operation@ == "Operator::reader"@ && carries(e, "path"@, path@)),
{
    if !validate_path(path.as_str(), EntryMode::File) {
        return Err(directory_error(inner, "Operator::reader", path, "read path is a directory"));
    }
    inner.read(path.as_str(), args)
}

/// Hands all of `bs` to `w`, each call offered the bytes from where the
/// previous one stopped. On success the backend has accepted exactly `bs`,
/// in order, and the result counts its bytes; the first failing write is
/// the result. An empty buffer needs no call.
pub fn write_all<W: BlockingWrite>(w: &mut WriteSession<W>, bs: &[u8]) -> (r: Result<usize, Error>)
    requires
        !old(w).is_closed(),
    ensures
        !final(w).is_closed(),
        bs@.len() == 0 ==> r == Ok::<usize, Error>(0) && final(w).accepted() == old(w).accepted(),
        r matches Ok(n) ==> n == bs@.len() && final(w).accepted() == old(w).accepted() + bs@,
{
    let len = bs.len();
    let mut pos: usize = 0;
    while pos < len
        invariant
            pos <= len,
            len == bs@.len(),
            !w.is_closed(),
            w.accepted() == old(w).accepted() + bs@.take(pos as int),
        decreases len - pos,
    {
        let ghost before = w.accepted();
        let rest = slice_subrange(bs, pos, len);
        let taken = w.write(rest)?;
        proof {
            assert(rest@.take(taken as int) =~= bs@.subrange(pos as int, pos + taken));
            assert(bs@.take(pos as int) + bs@.subrange(pos as int, pos + taken) =~= bs@.take(
                pos + taken,
            ));
        }
        pos = pos + taken;
    }
    assert(bs@.take(len as int) =~= bs@);
    Ok(pos)
}

/// Writes `bs` into the opened session `w` and then closes it: the close
/// comes once, only after the backend has accepted every byte of `bs`, and
/// the first failing write, or the close, is the result.
pub fn write_and_close<W: BlockingWrite>(w: &mut WriteSession<W>, bs: &[u8]) -> (r: Result<
    (),
    Error,
>)
    requires
        !old(w).is_closed(),
    ensures
        r is Ok ==> final(w).is_closed() && final(w).accepted() == old(w).accepted() + bs@,
        final(w).is_closed() ==> final(w).accepted() == old(w).accepted() + bs@,
{
    write_all(w, bs)?;
    w.close()
}

/// Writes `bs` to the file `path` and closes it.
pub(crate) fn write_exec<A: Accessor>(inner: &A, path: &String, args: OpWrite, bs: Vec<u8>) -> (r:
    Result<(), Error>)
    requires
        is_normalized(path@),
    ensures
        ends_with_slash(path@) ==> (r matches Err(e) && e.kind == ErrorKind::IsADirectory
            && e.operation@ == "Operator::write_with"@ && carries(e, "path"@, path@)),
{
    if !validate_path(path.as_str(), EntryMode::File) {
        return Err(directory_error(inner, "Operator::write_with", path, "write path is a directory"));
    }
    let mut w = WriteSession::new(inner.write(path.as_str(), args)?);
    write_and_close(&mut w, bs.as_slice())
}

/// Opens the file `path` for streaming writes.
pub(crate) fn writer_exec<A: Accessor>(inner: &A, path: &String, args: OpWrite) -> (r: Result<
    A::Writer,
    Error,
>)
    requires
        is_normalized(path@),
    ensures
        ends_with_slash(path@) ==> (r matches Err(e) && e.kind == ErrorKind::IsADirectory
            && e.operation@ == "Operator::writer"@ && carries(e, "path"@, path@)),
{
    if !validate_path(path.as_str(), EntryMode::File) {
        return Err(directory_error(inner, "Operator::writer", path, "write path is a directory"));
    }
    inner.write(path.as_str(), args)
}

/// Deletes `path`; a missing path is no error.
pub(crate) fn delete_exec<A: Accessor>(inner: &A, path: &String, args: OpDelete) -> (r: Result<
    (),
    Error,
>)
    requires
        is_normalized(path@),
    ensures
        r matches Err(e) ==> e.kind != ErrorKind::NotFound,
{
    delete_outcome(inner.delete(path.as_str(), args))
}

fn too_many_entries() -> (r: Error)
    ensures
        r.kind == ErrorKind::Unexpected,
{
    Error::new(ErrorKind::Unexpected, "the listing holds more entries than can be counted")
}

/// Every entry that `lister` still has, in order.
pub fn collect_entries<L: BlockingList>(lister: &mut L) -> Result<Vec<Entry>, Error> {
    let mut out: Vec<Entry> = Vec::new();
    loop
        decreases usize::MAX - out@.len(),
    {
        if out.len() == usize::MAX {
            return Err(too_many_entries());
        }
        let next = lister.next();
        match collect_step(out, next) {
            CollectStep::More(v) => out = v,
            CollectStep::Finished(r) => return r,
        }
    }
}

/// Lists `path` and collects the entries.
pub(crate) fn list_exec<A: Accessor>(inner: &A, path: &String, args: OpList) -> Result<
    Vec<Entry>,
    Error,
>
    requires
        is_normalized(path@),
{
    let mut lister = inner.list(path.as_str(), args)?;
    collect_entries(&mut lister)
}

/// The storage façade over backend `A`: it holds the backend, the
/// backend's scheme and capability as queried once at construction, and
/// the number of paths handled per batch.
pub struct Operator<A> {
    accessor: A,
    scheme: String,
    capability: Capability,
    limit: usize,
}

impl<A> Operator<A> {
    #[verifier::type_invariant]
    spec fn limit_positive(&self) -> bool {
        self.limit > 0
    }

    /// The number of paths handled per batch.
    pub closed spec fn spec_limit(&self) -> usize {
        self.limit
    }

    /// The backend's capability, as queried at construction.
    pub closed spec fn spec_capability(&self) -> Capability {
        self.capability
    }

    /// The backend's scheme, as queried at construction.
    pub closed spec fn spec_scheme(&self) -> Seq<char> {
        self.scheme@
    }

    /// The backend.
    pub closed spec fn spec_accessor(&self) -> A {
        self.accessor
    }
}

impl<A: Accessor + Clone> Operator<A> {
    /// A façade over `accessor`. Its capability is queried once here; the
    /// batch size starts at the backend's maximum, or 1000 if it names none.
    pub fn from_inner(accessor: A) -> (r: Operator<A>)
        ensures
            r.spec_limit() == initial_limit(r.spec_capability()),
            r.spec_accessor() == accessor,
    {
        let info = accessor.info();
        let limit = info.capability.initial_limit();
        Operator { accessor, scheme: info.scheme, capability: info.capability, limit }
    }

    /// The backend.
    pub fn inner(&self) -> (r: &A)
        ensures
            *r == self.spec_accessor(),
    {
        &self.accessor
    }

    /// Gives the backend back.
    pub fn into_inner(self) -> (r: A)
        ensures
            r == self.spec_accessor(),
    {
        self.accessor
    }

    /// The number of paths handled per batch.
    pub fn limit(&self) -> (r: usize)
        ensures
            r == self.spec_limit(),
            r > 0,
    {
        proof {
            use_type_invariant(self);
        }
        self.limit
    }

    /// A façade over the same backend that handles `limit` paths per batch.
    pub fn with_limit(&self, limit: usize) -> (r: Operator<A>)
        requires
            limit > 0,
        ensures
            r.spec_limit() == limit,
            r.spec_capability() == self.spec_capability(),
            r.spec_scheme() == self.spec_scheme(),
    {
        Operator {
            accessor: self.accessor.clone(),
            scheme: self.scheme.clone(),
            capability: self.capability,
            limit,
        }
    }

    /// A handle that runs operations to completion on the calling thread, as
    /// every operation of this façade does: the same backend, capability
    /// and batch size.
    pub fn blocking(&self) -> (r: Operator<A>)
        ensures
            r.spec_limit() == self.spec_limit(),
            r.spec_capability() == self.spec_capability(),
            r.spec_scheme() == self.spec_scheme(),
    {
        self.with_limit(self.limit())
    }

    /// The backend's scheme and capability.
    pub fn info(&self) -> (r: OperatorInfo)
        ensures
            r.info.scheme@ == self.spec_scheme(),
            r.info.capability == self.spec_capability(),
    {
        OperatorInfo::new(AccessorInfo { scheme: self.scheme.clone(), capability: self.capability })
    }

    /// Whether the backend answers: lists the root and fails only on an
    /// error other than `NotFound` for its first entry.
    pub fn check(&self) -> Result<(), Error> {
        let root = normalize_path("/");
        let mut lister = self.accessor.list(root.as_str(), OpList::new())?;
        check_outcome(lister.next())
    }

    /// The metadata of `path`.
    pub fn stat(&self, path: &str) -> Result<Metadata, Error> {
        self.stat_with(path).call()
    }

    /// A stat of `path` that conditions can be added to before it runs.
    pub fn stat_with(&self, path: &str) -> (r: FunctionStat<A>)
        ensures
            r.0.spec_path() == normalize(path@),
            r.0.spec_args() == default_stat(),
    {
        FunctionStat(OperatorFunction::new(self.accessor.clone(), normalize_path(path), OpStat::new()))
    }

    /// Whether `path` exists: `false` when its stat says `NotFound`, an
    /// error when the stat fails otherwise.
    pub fn is_exist(&self, path: &str) -> (r: Result<bool, Error>)
        ensures
            r matches Err(e) ==> e.kind != ErrorKind::NotFound,
    {
        exists_from_stat(self.stat(path))
    }

    /// Creates the directory `path`, which must end with `/`.
    pub fn create_dir(&self, path: &str) -> (r: Result<(), Error>)
        ensures
            !ends_with_slash(normalize(path@)) ==> (r matches Err(e) && e.kind
                == ErrorKind::NotADirectory && e.operation@ == "create_dir"@ && carries(
                e,
                "service"@,
                self.spec_scheme(),
            ) && carries(e, "path"@, normalize(path@))),
    {
        let p = normalize_path(path);
        if !validate_path(p.as_str(), EntryMode::Dir) {
            return Err(
                Error::new(
                    ErrorKind::NotADirectory,
                    "the path trying to create should end with `/`",
                ).with_operation("create_dir").with_context("service", self.scheme.as_str()).with_context(
                    "path",
                    p.as_str(),
                ),
            );
        }
        self.accessor.create_dir(p.as_str())
    }

    /// All bytes of the file `path`.
    pub fn read(&self, path: &str) -> (r: Result<Vec<u8>, Error>)
        ensures
            ends_with_slash(normalize(path@)) ==> (r matches Err(e) && e.kind
                == ErrorKind::IsADirectory && e.operation@ == "read"@ && carries(
                e,
                "path"@,
                normalize(path@),
            )),
    {
        self.read_with(path).call()
    }

    /// A read of the file `path` that options can be added to before it runs.
    pub fn read_with(&self, path: &str) -> (r: FunctionRead<A>)
        ensures
            r.0.spec_path() == normalize(path@),
            r.0.spec_args() == default_read(),
    {
        FunctionRead(OperatorFunction::new(self.accessor.clone(), normalize_path(path), OpRead::new()))
    }

    /// A streaming reader of the file `path`.
    pub fn reader(&self, path: &str) -> (r: Result<A::Reader, Error>)
        ensures
            ends_with_slash(normalize(path@)) ==> (r matches Err(e) && e.kind
                == ErrorKind::IsADirectory && e.operation@ == "Operator::reader"@ && carries(
                e,
                "path"@,
                normalize(path@),
            )),
    {
        self.reader_with(path).call()
    }

    /// A streaming reader of the file `path` that options can be added to.
    pub fn reader_with(&self, path: &str) -> (r: FunctionReader<A>)
        ensures
            r.0.spec_path() == normalize(path@),
            r.0.spec_args() == default_read(),
    {
        FunctionReader(OperatorFunction::new(self.accessor.clone(), normalize_path(path), OpRead::new()))
    }

    /// Writes `bs` as the whole content of the file `path`.
    pub fn write(&self, path: &str, bs: Vec<u8>) -> (r: Result<(), Error>)
        ensures
            ends_with_slash(normalize(path@)) ==> (r matches Err(e) && e.kind
                == ErrorKind::IsADirectory && e.operation@ == "Operator::write_with"@ && carries(
                e,
                "path"@,
                normalize(path@),
            )),
    {
        self.write_with(path, bs).call()
    }

    /// A write of `bs` to the file `path` that options can be added to.
    pub fn write_with(&self, path: &str, bs: Vec<u8>) -> (r: FunctionWrite<A>)
        ensures
            r.0.spec_path() == normalize(path@),
            r.0.spec_args().1 == bs,
            r.0.spec_args().0 == default_write(),
    {
        FunctionWrite(
            OperatorFunction::new(self.accessor.clone(), normalize_path(path), (OpWrite::new(), bs)),
        )
    }

    /// A streaming writer to the file `path`.
    pub fn writer(&self, path: &str) -> (r: Result<A::Writer, Error>)
        ensures
            ends_with_slash(normalize(path@)) ==> (r matches Err(e) && e.kind
                == ErrorKind::IsADirectory && e.operation@ == "Operator::writer"@ && carries(
                e,
                "path"@,
                normalize(path@),
            )),
    {
        self.writer_with(path).call()
    }

    /// A streaming writer to the file `path` that options can be added to.
    pub fn writer_with(&self, path: &str) -> (r: FunctionWriter<A>)
        ensures
            r.0.spec_path() == normalize(path@),
            r.0.spec_args() == default_write(),
    {
        FunctionWriter(OperatorFunction::new(self.accessor.clone(), normalize_path(path), OpWrite::new()))
    }

    /// Copies the file `from` to the file `to`, replacing `to`. Directory
    /// paths and a copy onto itself are refused before the backend is asked.
    pub fn copy(&self, from: &str, to: &str) -> (r: Result<(), Error>)
        ensures
            transfer_refusal(from@, to@) matches Some(k) ==> (r matches Err(e) && e.kind == k
                && e.operation@ == "Operator::copy"@ && carries(e, "service"@, self.spec_scheme()) && (
            ends_with_slash(normalize(from@)) ==> carries(e, "from"@, normalize(from@))) && (
            !ends_with_slash(normalize(from@)) ==> carries(e, "to"@, normalize(to@))) && (k
                == ErrorKind::IsSameFile ==> carries(e, "from"@, normalize(from@)) && carries(
                e,
                "to"@,
                normalize(to@),
            ))),
    {
        let (f, t) = check_transfer_paths("Operator::copy", self.scheme.as_str(), from, to)?;
        self.accessor.copy(f.as_str(), t.as_str())
    }

    /// Moves the file `from` to the file `to`, replacing `to`. Directory
    /// paths and a move onto itself are refused before the backend is asked.
    pub fn rename(&self, from: &str, to: &str) -> (r: Result<(), Error>)
        ensures
            transfer_refusal(from@, to@) matches Some(k) ==> (r matches Err(e) && e.kind == k
                && e.operation@ == "Operator::rename"@ && carries(e, "service"@, self.spec_scheme()) && (
            ends_with_slash(normalize(from@)) ==> carries(e, "from"@, normalize(from@))) && (
            !ends_with_slash(normalize(from@)) ==> carries(e, "to"@, normalize(to@))) && (k
                == ErrorKind::IsSameFile ==> carries(e, "from"@, normalize(from@)) && carries(
                e,
                "to"@,
                normalize(to@),
            ))),
    {
        let (f, t) = check_transfer_paths("Operator::rename", self.scheme.as_str(), from, to)?;
        self.accessor.rename(f.as_str(), t.as_str())
    }

    /// Deletes `path`; a path that does not exist is no error.
    pub fn delete(&self, path: &str) -> (r: Result<(), Error>)
        ensures
            r matches Err(e) ==> e.kind != ErrorKind::NotFound,
    {
        self.delete_with(path).call()
    }

    /// A delete of `path` that options can be added to before it runs.
    pub fn delete_with(&self, path: &str) -> (r: FunctionDelete<A>)
        ensures
            r.0.spec_path() == normalize(path@),
            r.0.spec_args().version is None,
    {
        FunctionDelete(OperatorFunction::new(self.accessor.clone(), normalize_path(path), OpDelete::new()))
    }

    /// Deletes every path of `paths`, see [`Operator::remove_via`].
    pub fn remove(&self, paths: Vec<String>) -> (r: Result<(), Error>)
        ensures
            paths@.len() == 0 ==> r is Ok,
    {
        self.remove_via(&paths)
    }

    /// Deletes every path of `paths`, each in canonical form, by sending
    /// the requests of [`removal_requests`] in order: with batch support one
    /// request per chunk of the batch size, else one delete per path, one
    /// at a time. The first failure (a request's error, or the first
    /// failing item of a batch) stops the work. Missing paths are no error.
    pub fn remove_via(&self, paths: &Vec<String>) -> (r: Result<(), Error>)
        ensures
            paths@.len() == 0 ==> r is Ok,
    {
        let mut d = Deleter::new(&self.accessor);
        self.remove_via_with(paths, &mut d)
    }

    /// [`Operator::remove_via`] through the deleter `d` of this façade's
    /// backend: it sends, in order, the requests that [`removal_requests`]
    /// makes of `paths` with this façade's capability and batch size, and
    /// stops at the first failure, which is the result.
    pub fn remove_via_with(&self, paths: &Vec<String>, d: &mut Deleter<A>) -> (r: Result<(), Error>)
        ensures
            exists|reqs: Seq<DeleteRequest>|
                is_removal_of(reqs, paths@, self.spec_capability().batch, self.spec_limit() as int)
                    && sent_in_order(old(d).log(), final(d).log(), reqs, r),
            paths@.len() == 0 ==> r is Ok && final(d).log() == old(d).log(),
    {
        let limit = self.limit();
        let requests = removal_requests(paths, self.capability.batch, limit);
        let ghost reqs = requests@;
        proof {
            if paths@.len() == 0 {
                assert(crate::plan::chunk_count(0, limit as int) == 0) by (nonlinear_arith)
                    requires
                        limit > 0,
                ;
            }
        }
        let r = run_requests(d, requests);
        proof {
            assert(is_removal_of(reqs, paths@, self.spec_capability().batch, self.spec_limit() as int));
            assert(sent_in_order(old(d).log(), d.log(), reqs, r));
            if paths@.len() == 0 {
                assert(reqs.len() == 0);
                assert(d.log().len() == old(d).log().len());
                final_log_same(old(d).log(), d.log());
                assert(!(r is Err));
            }
        }
        r
    }

    /// Removes `path` and, if it is a directory, everything below it, see
    /// [`Operator::remove_all_with`]; the stat of `path` decides the step.
    pub fn remove_all(&self, path: &str) -> Result<(), Error> {
        let stat = self.stat(path);
        let mut d = Deleter::new(&self.accessor);
        self.remove_all_with(path, stat, &mut d)
    }

    /// Removes `path` through the deleter `d` of this façade's backend,
    /// given the result `stat` of its stat. A path that does not exist is
    /// success at once, and any other stat error is passed on, both
    /// without a request. A file is deleted with one request. For a
    /// directory, every entry of its recursive listing is deleted as
    /// [`TreeRemoval::step`] decides (in chunks of the batch size when the
    /// backend supports batches), and the directory itself is deleted last,
    /// once, only after every earlier request succeeded; the first failure
    /// is the result.
    pub fn remove_all_with(&self, path: &str, stat: Result<Metadata, Error>, d: &mut Deleter<A>) -> (r:
        Result<(), Error>)
        ensures
            remove_all_step_spec(stat) == Ok::<RemoveAllStep, Error>(RemoveAllStep::Done) ==> r
                == Ok::<(), Error>(()) && final(d).log() == old(d).log(),
            remove_all_step_spec(stat) matches Err(e) ==> r == Err::<(), Error>(e) && final(d).log()
                == old(d).log(),
            remove_all_step_spec(stat) == Ok::<RemoveAllStep, Error>(RemoveAllStep::DeleteFile)
                ==> final(d).log() == old(d).log().push((SentKind::One, seq![normalize(path@)], r)),
            remove_all_step_spec(stat) == Ok::<RemoveAllStep, Error>(RemoveAllStep::DeleteTree)
                ==> (r is Err && final(d).log() == old(d).log()) || tree_removed(
                old(d).log(),
                final(d).log(),
                normalize(path@),
                r,
            ),
    {
        let step = remove_all_step(stat)?;
        match step {
            RemoveAllStep::Done => Ok(()),
            RemoveAllStep::DeleteFile => {
                let p = normalize_path(path);
                let req = DeleteRequest::Single(p);
                proof {
                    assert(seq![req][0] == req);
                }
                d.send(req)
            },
            RemoveAllStep::DeleteTree => {
                let tree = TreeRemoval::new(self.capability.batch, self.limit(), path);
                let root = tree.root_path();
                let mut lister = self.accessor.list(
                    root.as_str(),
                    OpList::new().with_recursive(true),
                )?;
                remove_tree(d, &mut lister, tree)
            },
        }
    }

    /// Every entry directly under `path`.
    pub fn list(&self, path: &str) -> Result<Vec<Entry>, Error> {
        self.list_with(path).call()
    }

    /// A listing of `path` that options can be added to before it runs.
    pub fn list_with(&self, path: &str) -> (r: FunctionList<A>)
        ensures
            r.0.spec_path() == normalize(path@),
            is_default_list(r.0.spec_args()),
    {
        FunctionList(OperatorFunction::new(self.accessor.clone(), normalize_path(path), OpList::new()))
    }

    /// A lazy listing of the entries directly under `path`.
    pub fn lister(&self, path: &str) -> Result<A::Lister, Error> {
        self.lister_with(path).call()
    }

    /// A lazy listing of `path` that options can be added to before it starts.
    pub fn lister_with(&self, path: &str) -> (r: FunctionLister<A>)
        ensures
            r.0.spec_path() == normalize(path@),
            is_default_list(r.0.spec_args()),
    {
        FunctionLister(OperatorFunction::new(self.accessor.clone(), normalize_path(path), OpList::new()))
    }

    /// A signed request for a stat of `path`, valid for `expire`.
    pub fn presign_stat(&self, path: &str, expire: std::time::Duration) -> (r: Result<
        PresignedRequest,
        Error,
    >)
        ensures
            !self.spec_capability().presign ==> (r matches Err(e) && e.kind == ErrorKind::Unsupported),
    {
        self.presign_stat_with(path, OpStat::new(), expire)
    }

    /// A signed request for a stat of `path` with `args`, valid for `expire`.
    pub fn presign_stat_with(&self, path: &str, args: OpStat, expire: std::time::Duration) -> (r: Result<
        PresignedRequest,
        Error,
    >)
        ensures
            !self.spec_capability().presign ==> (r matches Err(e) && e.kind == ErrorKind::Unsupported),
    {
        if !self.capability.presign {
            return Err(
                Error::new(ErrorKind::Unsupported, "the backend cannot presign requests").with_operation(
                    "presign",
                ).with_context("service", self.scheme.as_str()),
            );
        }
        let p = normalize_path(path);
        self.accessor.presign(p.as_str(), PresignOperation::Stat(args), expire)
    }

    /// A signed request for a read of `path`, valid for `expire`.
    pub fn presign_read(&self, path: &str, expire: std::time::Duration) -> (r: Result<
        PresignedRequest,
        Error,
    >)
        ensures
            !self.spec_capability().presign ==> (r matches Err(e) && e.kind == ErrorKind::Unsupported),
    {
        self.presign_read_with(path, OpRead::new(), expire)
    }

    /// A signed request for a read of `path` with `args`, valid for
    /// `expire`; the overrides in `args` shape only the signed response.
    pub fn presign_read_with(&self, path: &str, args: OpRead, expire: std::time::Duration) -> (r: Result<
        PresignedRequest,
        Error,
    >)
        ensures
            !self.spec_capability().presign ==> (r matches Err(e) && e.kind == ErrorKind::Unsupported),
    {
        if !self.capability.presign {
            return Err(
                Error::new(ErrorKind::Unsupported, "the backend cannot presign requests").with_operation(
                    "presign",
                ).with_context("service", self.scheme.as_str()),
            );
        }
        let p = normalize_path(path);
        self.accessor.presign(p.as_str(), PresignOperation::Read(args), expire)
    }

    /// A signed request for a write of `path`, valid for `expire`.
    pub fn presign_write(&self, path: &str, expire: std::time::Duration) -> (r: Result<
        PresignedRequest,
        Error,
    >)
        ensures
            !self.spec_capability().presign ==> (r matches Err(e) && e.kind == ErrorKind::Unsupported),
    {
        self.presign_write_with(path, OpWrite::new(), expire)
    }

    /// A signed request for a write of `path` with `args`, valid for `expire`.
    pub fn presign_write_with(
        &self,
        path: &str,
        args: OpWrite,
        expire: std::time::Duration,
    ) -> (r: Result<PresignedRequest, Error>)
        ensures
            !self.spec_capability().presign ==> (r matches Err(e) && e.kind == ErrorKind::Unsupported),
    {
        if !self.capability.presign {
            return Err(
                Error::new(ErrorKind::Unsupported, "the backend cannot presign requests").with_operation(
                    "presign",
                ).with_context("service", self.scheme.as_str()),
            );
        }
        let p = normalize_path(path);
        self.accessor.presign(p.as_str(), PresignOperation::Write(args), expire)
    }
}

proof fn final_log_same(before: Seq<crate::session::Sent>, after: Seq<crate::session::Sent>)
    requires
        before.len() == after.len(),
        after.take(before.len() as int) == before,
    ensures
        after == before,
{
    assert(after =~= after.take(before.len() as int));
}

} // verus!
