//! Deferred operations: a backend handle, a canonical path and arguments
//! that chained calls update, run exactly once by `call`, which consumes
//! the value. Building and configuring one touches no backend.
use vstd::prelude::*;

use crate::accessor::Accessor;
use crate::error::Error;
use crate::metadata::{Entry, Metadata};
use crate::operator::{delete_exec, list_exec, read_exec, reader_exec, stat_exec, write_exec, writer_exec};
use crate::error::{carries, ErrorKind};
use crate::ops::{OpDelete, OpList, OpRead, OpStat, OpWrite};
use crate::path::{ends_with_slash, is_normalized};
use crate::plan::stat_conditions_hold;
use crate::range::BytesRange;
use crate::metadata::MetakeySet;

verus! {

/// A backend handle, a canonical path and the arguments of one operation.
pub struct OperatorFunction<A, T> {
    inner: A,
    path: String,
    args: T,
}

impl<A, T> OperatorFunction<A, T> {
    #[verifier::type_invariant]
    spec fn path_is_canonical(&self) -> bool {
        is_normalized(self.path@)
    }

    /// The backend handle.
    pub closed spec fn spec_inner(&self) -> A {
        self.inner
    }

    /// The canonical path the operation will run on.
    pub closed spec fn spec_path(&self) -> Seq<char> {
        self.path@
    }

    /// The arguments as configured so far.
    pub closed spec fn spec_args(&self) -> T {
        self.args
    }

    /// An operation on the canonical `path` with `args`.
    pub fn new(inner: A, path: String, args: T) -> (r: Self)
        requires
            is_normalized(path@),
        ensures
            r.spec_inner() == inner,
            r.spec_path() == path@,
            r.spec_args() == args,
    {
        OperatorFunction { inner, path, args }
    }

    /// The same operation with its arguments replaced by `f` of them.
    pub fn map_args<F: FnOnce(T) -> T>(self, f: F) -> (r: Self)
        requires
            f.requires((self.spec_args(),)),
        ensures
            r.spec_inner() == self.spec_inner(),
            r.spec_path() == self.spec_path(),
            f.ensures((self.spec_args(),), r.spec_args()),
    {
        proof {
            use_type_invariant(&self);
        }
        let OperatorFunction { inner, path, args } = self;
        OperatorFunction { inner, path, args: f(args) }
    }

    /// Runs the operation: hands the handle, the path and the arguments to
    /// `f`, once.
    pub fn call<R, F: FnOnce(A, String, T) -> R>(self, f: F) -> (r: R)
        requires
            forall|p: String|
                p@ == self.spec_path() && is_normalized(p@) ==> f.requires(
                    (self.spec_inner(), p, self.spec_args()),
                ),
        ensures
            exists|p: String|
                p@ == self.spec_path() && is_normalized(p@) && f.ensures(
                    (self.spec_inner(), p, self.spec_args()),
                    r,
                ),
    {
        proof {
            use_type_invariant(&self);
        }
        let OperatorFunction { inner, path, args } = self;
        f(inner, path, args)
    }
}

/// A stat, configured by conditions before it runs.
pub struct FunctionStat<A>(pub OperatorFunction<A, OpStat>);

impl<A: Accessor> FunctionStat<A> {
    /// Requires the object's etag to be `v`.
    pub fn if_match(self, v: &str) -> (r: Self)
        ensures
            r.0.spec_args() == (OpStat { if_match: r.0.spec_args().if_match, ..self.0.spec_args() }),
            r.0.spec_args().if_match matches Some(t) && t@ == v@,
            r.0.spec_path() == self.0.spec_path(),
            r.0.spec_inner() == self.0.spec_inner(),
    {
        FunctionStat(
            self.0.map_args(
                (|args: OpStat| -> (r: OpStat)
                    ensures
                        r == (OpStat { if_match: r.if_match, ..args }),
                        r.if_match matches Some(t) && t@ == v@,
                    { args.with_if_match(v) }),
            ),
        )
    }

    /// Requires the object's etag not to be `v`.
    pub fn if_none_match(self, v: &str) -> (r: Self)
        ensures
            r.0.spec_args() == (OpStat {
                if_none_match: r.0.spec_args().if_none_match,
                ..self.0.spec_args()
            }),
            r.0.spec_args().if_none_match matches Some(t) && t@ == v@,
            r.0.spec_path() == self.0.spec_path(),
            r.0.spec_inner() == self.0.spec_inner(),
    {
        FunctionStat(
            self.0.map_args(
                (|args: OpStat| -> (r: OpStat)
                    ensures
                        r == (OpStat { if_none_match: r.if_none_match, ..args }),
                        r.if_none_match matches Some(t) && t@ == v@,
                    { args.with_if_none_match(v) }),
            ),
        )
    }

    /// Asks for version `v` of the object.
    pub fn version(self, v: &str) -> (r: Self)
        ensures
            r.0.spec_args() == (OpStat { version: r.0.spec_args().version, ..self.0.spec_args() }),
            r.0.spec_args().version matches Some(t) && t@ == v@,
            r.0.spec_path() == self.0.spec_path(),
            r.0.spec_inner() == self.0.spec_inner(),
    {
        FunctionStat(
            self.0.map_args(
                (|args: OpStat| -> (r: OpStat)
                    ensures
                        r == (OpStat { version: r.version, ..args }),
                        r.version matches Some(t) && t@ == v@,
                    { args.with_version(v) }),
            ),
        )
    }

    /// Runs the stat. Metadata is returned only if it satisfies the
    /// configured conditions; a mismatch is a `ConditionNotMatch` error.
    pub fn call(self) -> (r: Result<Metadata, Error>)
        ensures
            r matches Ok(m) ==> stat_conditions_hold(self.0.spec_args(), m),
    {
        let ghost args = self.0.spec_args();
        self.0.call(
            (|inner: A, path: String, args: OpStat| -> (r: Result<Metadata, Error>)
                requires
                    is_normalized(path@),
                ensures
                    r matches Ok(m) ==> stat_conditions_hold(args, m),
                { stat_exec(&inner, &path, args) }),
        )
    }
}

/// A whole read into memory, configured before it runs.
pub struct FunctionRead<A>(pub OperatorFunction<A, OpRead>);

impl<A: Accessor> FunctionRead<A> {
    /// Reads `range` only.
    pub fn range(self, v: BytesRange) -> (r: Self)
        ensures
            r.0.spec_args() == (OpRead { range: v, ..self.0.spec_args() }),
            r.0.spec_path() == self.0.spec_path(),
            r.0.spec_inner() == self.0.spec_inner(),
    {
        FunctionRead(
            self.0.map_args(
                (|args: OpRead| -> (r: OpRead)
                    ensures
                        r == (OpRead { range: v, ..args }),
                    { args.with_range(v) }),
            ),
        )
    }

    /// Runs the read. A directory path is refused; the bytes returned are exactly those of the range, which without a size is completed from the object's length.
    pub fn call(self) -> (r: Result<Vec<u8>, Error>)
        ensures
            ends_with_slash(self.0.spec_path()) ==> (r matches Err(e) && e.kind
                == ErrorKind::IsADirectory && e.operation@ == "read"@ && carries(
                e,
                "path"@,
                self.0.spec_path(),
            )),
            self.0.spec_args().range.size is Some ==> (r matches Ok(buf) ==> buf@.len()
                == self.0.spec_args().range.size->0),
    {
        let ghost args = self.0.spec_args();
        let ghost path = self.0.spec_path();
        self.0.call(
            (|inner: A, path: String, args: OpRead| -> (r: Result<Vec<u8>, Error>)
                requires
                    is_normalized(path@),
                ensures
                    ends_with_slash(path@) ==> (r matches Err(e) && e.kind
                        == ErrorKind::IsADirectory && e.operation@ == "read"@ && carries(
                        e,
                        "path"@,
                        path@,
                    )),
                    args.range.size is Some ==> (r matches Ok(buf) ==> buf@.len()
                == args.range.size->0),
                { read_exec(&inner, &path, args) }),
        )
    }
}

/// A streaming read, configured before it opens.
pub struct FunctionReader<A>(pub OperatorFunction<A, OpRead>);

impl<A: Accessor> FunctionReader<A> {
    /// Reads `range` only.
    pub fn range(self, v: BytesRange) -> (r: Self)
        ensures
            r.0.spec_args() == (OpRead { range: v, ..self.0.spec_args() }),
            r.0.spec_path() == self.0.spec_path(),
            r.0.spec_inner() == self.0.spec_inner(),
    {
        FunctionReader(
            self.0.map_args(
                (|args: OpRead| -> (r: OpRead)
                    ensures
                        r == (OpRead { range: v, ..args }),
                    { args.with_range(v) }),
            ),
        )
    }

    /// The content disposition the response should carry.
    pub fn override_content_disposition(self, v: &str) -> (r: Self)
        ensures
            r.0.spec_args() == (OpRead { override_content_disposition: r.0.spec_args().override_content_disposition, ..self.0.spec_args() }),
            r.0.spec_args().override_content_disposition matches Some(t) && t@ == v@,
            r.0.spec_path() == self.0.spec_path(),
            r.0.spec_inner() == self.0.spec_inner(),
    {
        FunctionReader(
            self.0.map_args(
                (|args: OpRead| -> (r: OpRead)
                    ensures
                        r == (OpRead { override_content_disposition: r.override_content_disposition, ..args }),
                        r.override_content_disposition matches Some(t) && t@ == v@,
                    { args.with_override_content_disposition(v) }),
            ),
        )
    }

    /// The cache control the response should carry.
    pub fn override_cache_control(self, v: &str) -> (r: Self)
        ensures
            r.0.spec_args() == (OpRead { override_cache_control: r.0.spec_args().override_cache_control, ..self.0.spec_args() }),
            r.0.spec_args().override_cache_control matches Some(t) && t@ == v@,
            r.0.spec_path() == self.0.spec_path(),
            r.0.spec_inner() == self.0.spec_inner(),
    {
        FunctionReader(
            self.0.map_args(
                (|args: OpRead| -> (r: OpRead)
                    ensures
                        r == (OpRead { override_cache_control: r.override_cache_control, ..args }),
                        r.override_cache_control matches Some(t) && t@ == v@,
                    { args.with_override_cache_control(v) }),
            ),
        )
    }

    /// The content type the response should carry.
    pub fn override_content_type(self, v: &str) -> (r: Self)
        ensures
            r.0.spec_args() == (OpRead { override_content_type: r.0.spec_args().override_content_type, ..self.0.spec_args() }),
            r.0.spec_args().override_content_type matches Some(t) && t@ == v@,
            r.0.spec_path() == self.0.spec_path(),
            r.0.spec_inner() == self.0.spec_inner(),
    {
        FunctionReader(
            self.0.map_args(
                (|args: OpRead| -> (r: OpRead)
                    ensures
                        r == (OpRead { override_content_type: r.override_content_type, ..args }),
                        r.override_content_type matches Some(t) && t@ == v@,
                    { args.with_override_content_type(v) }),
            ),
        )
    }

    /// Requires the object's etag to be `v`.
    pub fn if_match(self, v: &str) -> (r: Self)
        ensures
            r.0.spec_args() == (OpRead { if_match: r.0.spec_args().if_match, ..self.0.spec_args() }),
            r.0.spec_args().if_match matches Some(t) && t@ == v@,
            r.0.spec_path() == self.0.spec_path(),
            r.0.spec_inner() == self.0.spec_inner(),
    {
        FunctionReader(
            self.0.map_args(
                (|args: OpRead| -> (r: OpRead)
                    ensures
                        r == (OpRead { if_match: r.if_match, ..args }),
                        r.if_match matches Some(t) && t@ == v@,
                    { args.with_if_match(v) }),
            ),
        )
    }

    /// Requires the object's etag not to be `v`.
    pub fn if_none_match(self, v: &str) -> (r: Self)
        ensures
            r.0.spec_args() == (OpRead { if_none_match: r.0.spec_args().if_none_match, ..self.0.spec_args() }),
            r.0.spec_args().if_none_match matches Some(t) && t@ == v@,
            r.0.spec_path() == self.0.spec_path(),
            r.0.spec_inner() == self.0.spec_inner(),
    {
        FunctionReader(
            self.0.map_args(
                (|args: OpRead| -> (r: OpRead)
                    ensures
                        r == (OpRead { if_none_match: r.if_none_match, ..args }),
                        r.if_none_match matches Some(t) && t@ == v@,
                    { args.with_if_none_match(v) }),
            ),
        )
    }

    /// Reads version `v` of the object.
    pub fn version(self, v: &str) -> (r: Self)
        ensures
            r.0.spec_args() == (OpRead { version: r.0.spec_args().version, ..self.0.spec_args() }),
            r.0.spec_args().version matches Some(t) && t@ == v@,
            r.0.spec_path() == self.0.spec_path(),
            r.0.spec_inner() == self.0.spec_inner(),
    {
        FunctionReader(
            self.0.map_args(
                (|args: OpRead| -> (r: OpRead)
                    ensures
                        r == (OpRead { version: r.version, ..args }),
                        r.version matches Some(t) && t@ == v@,
                    { args.with_version(v) }),
            ),
        )
    }

    /// Opens the object for streaming reads. A directory path is refused.
    pub fn call(self) -> (r: Result<A::Reader, Error>)
        ensures
            ends_with_slash(self.0.spec_path()) ==> (r matches Err(e) && e.kind
                == ErrorKind::IsADirectory && e.operation@ == "Operator::reader"@ && carries(
                e,
                "path"@,
                self.0.spec_path(),
            )),
    {
        let ghost args = self.0.spec_args();
        let ghost path = self.0.spec_path();
        self.0.call(
            (|inner: A, path: String, args: OpRead| -> (r: Result<A::Reader, Error>)
                requires
                    is_normalized(path@),
                ensures
                    ends_with_slash(path@) ==> (r matches Err(e) && e.kind
                        == ErrorKind::IsADirectory && e.operation@ == "Operator::reader"@ && carries(
                        e,
                        "path"@,
                        path@,
                    )),
                { reader_exec(&inner, &path, args) }),
        )
    }
}

/// A write of a buffer, configured before it runs.
pub struct FunctionWrite<A>(pub OperatorFunction<A, (OpWrite, Vec<u8>)>);

impl<A: Accessor> FunctionWrite<A> {
    /// Appends to the object instead of replacing it when `v` holds.
    pub fn append(self, v: bool) -> (r: Self)
        ensures
            r.0.spec_args().0 == (OpWrite { append: v, ..self.0.spec_args().0 }),
            r.0.spec_args().1 == self.0.spec_args().1,
            r.0.spec_path() == self.0.spec_path(),
            r.0.spec_inner() == self.0.spec_inner(),
    {
        FunctionWrite(
            self.0.map_args(
                (|args: (OpWrite, Vec<u8>)| -> (r: (OpWrite, Vec<u8>))
                    ensures
                        r.1 == args.1,
                        r.0 == (OpWrite { append: v, ..args.0 }),
                    { (args.0.with_append(v), args.1) }),
            ),
        )
    }

    /// Buffers `v` bytes before handing them to the backend.
    pub fn buffer(self, v: usize) -> (r: Self)
        ensures
            r.0.spec_args().0 == (OpWrite { buffer: Some(v), ..self.0.spec_args().0 }),
            r.0.spec_args().1 == self.0.spec_args().1,
            r.0.spec_path() == self.0.spec_path(),
            r.0.spec_inner() == self.0.spec_inner(),
    {
        FunctionWrite(
            self.0.map_args(
                (|args: (OpWrite, Vec<u8>)| -> (r: (OpWrite, Vec<u8>))
                    ensures
                        r.1 == args.1,
                        r.0 == (OpWrite { buffer: Some(v), ..args.0 }),
                    { (args.0.with_buffer(v), args.1) }),
            ),
        )
    }

    /// Stores the object with content type `v`.
    pub fn content_type(self, v: &str) -> (r: Self)
        ensures
            r.0.spec_args().0 == (OpWrite { content_type: r.0.spec_args().0.content_type, ..self.0.spec_args().0 }),
            r.0.spec_args().0.content_type matches Some(t) && t@ == v@,
            r.0.spec_args().1 == self.0.spec_args().1,
            r.0.spec_path() == self.0.spec_path(),
            r.0.spec_inner() == self.0.spec_inner(),
    {
        FunctionWrite(
            self.0.map_args(
                (|args: (OpWrite, Vec<u8>)| -> (r: (OpWrite, Vec<u8>))
                    ensures
                        r.1 == args.1,
                        r.0 == (OpWrite { content_type: r.0.content_type, ..args.0 }),
                        r.0.content_type matches Some(t) && t@ == v@,
                    { (args.0.with_content_type(v), args.1) }),
            ),
        )
    }

    /// Stores the object with content disposition `v`.
    pub fn content_disposition(self, v: &str) -> (r: Self)
        ensures
            r.0.spec_args().0 == (OpWrite { content_disposition: r.0.spec_args().0.content_disposition, ..self.0.spec_args().0 }),
            r.0.spec_args().0.content_disposition matches Some(t) && t@ == v@,
            r.0.spec_args().1 == self.0.spec_args().1,
            r.0.spec_path() == self.0.spec_path(),
            r.0.spec_inner() == self.0.spec_inner(),
    {
        FunctionWrite(
            self.0.map_args(
                (|args: (OpWrite, Vec<u8>)| -> (r: (OpWrite, Vec<u8>))
                    ensures
                        r.1 == args.1,
                        r.0 == (OpWrite { content_disposition: r.0.content_disposition, ..args.0 }),
                        r.0.content_disposition matches Some(t) && t@ == v@,
                    { (args.0.with_content_disposition(v), args.1) }),
            ),
        )
    }

    /// Stores the object with cache control `v`.
    pub fn cache_control(self, v: &str) -> (r: Self)
        ensures
            r.0.spec_args().0 == (OpWrite { cache_control: r.0.spec_args().0.cache_control, ..self.0.spec_args().0 }),
            r.0.spec_args().0.cache_control matches Some(t) && t@ == v@,
            r.0.spec_args().1 == self.0.spec_args().1,
            r.0.spec_path() == self.0.spec_path(),
            r.0.spec_inner() == self.0.spec_inner(),
    {
        FunctionWrite(
            self.0.map_args(
                (|args: (OpWrite, Vec<u8>)| -> (r: (OpWrite, Vec<u8>))
                    ensures
                        r.1 == args.1,
                        r.0 == (OpWrite { cache_control: r.0.cache_control, ..args.0 }),
                        r.0.cache_control matches Some(t) && t@ == v@,
                    { (args.0.with_cache_control(v), args.1) }),
            ),
        )
    }

    /// Runs the write: the buffer is handed to the backend from the position each call reached, and the object is closed after the last byte is taken. A directory path is refused.
    pub fn call(self) -> (r: Result<(), Error>)
        ensures
            ends_with_slash(self.0.spec_path()) ==> (r matches Err(e) && e.kind
                == ErrorKind::IsADirectory && e.operation@ == "Operator::write_with"@ && carries(
                e,
                "path"@,
                self.0.spec_path(),
            )),
    {
        let ghost args = self.0.spec_args();
        let ghost path = self.0.spec_path();
        self.0.call(
            (|inner: A, path: String, args: (OpWrite, Vec<u8>)| -> (r: Result<(), Error>)
                requires
                    is_normalized(path@),
                ensures
                    ends_with_slash(path@) ==> (r matches Err(e) && e.kind
                        == ErrorKind::IsADirectory && e.operation@ == "Operator::write_with"@ && carries(
                        e,
                        "path"@,
                        path@,
                    )),
                { write_exec(&inner, &path, args.0, args.1) }),
        )
    }
}

/// A streaming write, configured before it opens.
pub struct FunctionWriter<A>(pub OperatorFunction<A, OpWrite>);

impl<A: Accessor> FunctionWriter<A> {
    /// Appends to the object instead of replacing it when `v` holds.
    pub fn append(self, v: bool) -> (r: Self)
        ensures
            r.0.spec_args() == (OpWrite { append: v, ..self.0.spec_args() }),
            r.0.spec_path() == self.0.spec_path(),
            r.0.spec_inner() == self.0.spec_inner(),
    {
        FunctionWriter(
            self.0.map_args(
                (|args: OpWrite| -> (r: OpWrite)
                    ensures
                        r == (OpWrite { append: v, ..args }),
                    { args.with_append(v) }),
            ),
        )
    }

    /// Buffers `v` bytes before handing them to the backend.
    pub fn buffer(self, v: usize) -> (r: Self)
        ensures
            r.0.spec_args() == (OpWrite { buffer: Some(v), ..self.0.spec_args() }),
            r.0.spec_path() == self.0.spec_path(),
            r.0.spec_inner() == self.0.spec_inner(),
    {
        FunctionWriter(
            self.0.map_args(
                (|args: OpWrite| -> (r: OpWrite)
                    ensures
                        r == (OpWrite { buffer: Some(v), ..args }),
                    { args.with_buffer(v) }),
            ),
        )
    }

    /// Stores the object with content type `v`.
    pub fn content_type(self, v: &str) -> (r: Self)
        ensures
            r.0.spec_args() == (OpWrite { content_type: r.0.spec_args().content_type, ..self.0.spec_args() }),
            r.0.spec_args().content_type matches Some(t) && t@ == v@,
            r.0.spec_path() == self.0.spec_path(),
            r.0.spec_inner() == self.0.spec_inner(),
    {
        FunctionWriter(
            self.0.map_args(
                (|args: OpWrite| -> (r: OpWrite)
                    ensures
                        r == (OpWrite { content_type: r.content_type, ..args }),
                        r.content_type matches Some(t) && t@ == v@,
                    { args.with_content_type(v) }),
            ),
        )
    }

    /// Stores the object with content disposition `v`.
    pub fn content_disposition(self, v: &str) -> (r: Self)
        ensures
            r.0.spec_args() == (OpWrite { content_disposition: r.0.spec_args().content_disposition, ..self.0.spec_args() }),
            r.0.spec_args().content_disposition matches Some(t) && t@ == v@,
            r.0.spec_path() == self.0.spec_path(),
            r.0.spec_inner() == self.0.spec_inner(),
    {
        FunctionWriter(
            self.0.map_args(
                (|args: OpWrite| -> (r: OpWrite)
                    ensures
                        r == (OpWrite { content_disposition: r.content_disposition, ..args }),
                        r.content_disposition matches Some(t) && t@ == v@,
                    { args.with_content_disposition(v) }),
            ),
        )
    }

    /// Stores the object with cache control `v`.
    pub fn cache_control(self, v: &str) -> (r: Self)
        ensures
            r.0.spec_args() == (OpWrite { cache_control: r.0.spec_args().cache_control, ..self.0.spec_args() }),
            r.0.spec_args().cache_control matches Some(t) && t@ == v@,
            r.0.spec_path() == self.0.spec_path(),
            r.0.spec_inner() == self.0.spec_inner(),
    {
        FunctionWriter(
            self.0.map_args(
                (|args: OpWrite| -> (r: OpWrite)
                    ensures
                        r == (OpWrite { cache_control: r.cache_control, ..args }),
                        r.cache_control matches Some(t) && t@ == v@,
                    { args.with_cache_control(v) }),
            ),
        )
    }

    /// Opens the object for streaming writes. A directory path is refused.
    pub fn call(self) -> (r: Result<A::Writer, Error>)
        ensures
            ends_with_slash(self.0.spec_path()) ==> (r matches Err(e) && e.kind
                == ErrorKind::IsADirectory && e.operation@ == "Operator::writer"@ && carries(
                e,
                "path"@,
                self.0.spec_path(),
            )),
    {
        let ghost args = self.0.spec_args();
        let ghost path = self.0.spec_path();
        self.0.call(
            (|inner: A, path: String, args: OpWrite| -> (r: Result<A::Writer, Error>)
                requires
                    is_normalized(path@),
                ensures
                    ends_with_slash(path@) ==> (r matches Err(e) && e.kind
                        == ErrorKind::IsADirectory && e.operation@ == "Operator::writer"@ && carries(
                        e,
                        "path"@,
                        path@,
                    )),
                { writer_exec(&inner, &path, args) }),
        )
    }
}

/// A delete, configured before it runs.
pub struct FunctionDelete<A>(pub OperatorFunction<A, OpDelete>);

impl<A: Accessor> FunctionDelete<A> {
    /// Deletes version `v` of the object.
    pub fn version(self, v: &str) -> (r: Self)
        ensures
            r.0.spec_args() == (OpDelete { version: r.0.spec_args().version, ..self.0.spec_args() }),
            r.0.spec_args().version matches Some(t) && t@ == v@,
            r.0.spec_path() == self.0.spec_path(),
            r.0.spec_inner() == self.0.spec_inner(),
    {
        FunctionDelete(
            self.0.map_args(
                (|args: OpDelete| -> (r: OpDelete)
                    ensures
                        r == (OpDelete { version: r.version, ..args }),
                        r.version matches Some(t) && t@ == v@,
                    { args.with_version(v) }),
            ),
        )
    }

    /// Runs the delete. A path that does not exist is no error.
    pub fn call(self) -> (r: Result<(), Error>)
        ensures
            r matches Err(e) ==> e.kind != ErrorKind::NotFound,
    {
        let ghost args = self.0.spec_args();
        let ghost path = self.0.spec_path();
        self.0.call(
            (|inner: A, path: String, args: OpDelete| -> (r: Result<(), Error>)
                requires
                    is_normalized(path@),
                ensures
            r matches Err(e) ==> e.kind != ErrorKind::NotFound,
                { delete_exec(&inner, &path, args) }),
        )
    }
}

/// A listing collected into memory, configured before it runs.
pub struct FunctionList<A>(pub OperatorFunction<A, OpList>);

impl<A: Accessor> FunctionList<A> {
    /// Asks the backend for pages of `v` entries.
    pub fn limit(self, v: usize) -> (r: Self)
        ensures
            r.0.spec_args() == (OpList { limit: Some(v), ..self.0.spec_args() }),
            r.0.spec_path() == self.0.spec_path(),
            r.0.spec_inner() == self.0.spec_inner(),
    {
        FunctionList(
            self.0.map_args(
                (|args: OpList| -> (r: OpList)
                    ensures
                        r == (OpList { limit: Some(v), ..args }),
                    { args.with_limit(v) }),
            ),
        )
    }

    /// Lists only entries after path `v`.
    pub fn start_after(self, v: &str) -> (r: Self)
        ensures
            r.0.spec_args() == (OpList { start_after: r.0.spec_args().start_after, ..self.0.spec_args() }),
            r.0.spec_args().start_after matches Some(t) && t@ == v@,
            r.0.spec_path() == self.0.spec_path(),
            r.0.spec_inner() == self.0.spec_inner(),
    {
        FunctionList(
            self.0.map_args(
                (|args: OpList| -> (r: OpList)
                    ensures
                        r == (OpList { start_after: r.start_after, ..args }),
                        r.start_after matches Some(t) && t@ == v@,
                    { args.with_start_after(v) }),
            ),
        )
    }

    /// Lists the whole subtree when `v` holds, else the direct children only.
    pub fn recursive(self, v: bool) -> (r: Self)
        ensures
            r.0.spec_args() == (OpList { recursive: v, ..self.0.spec_args() }),
            r.0.spec_path() == self.0.spec_path(),
            r.0.spec_inner() == self.0.spec_inner(),
    {
        FunctionList(
            self.0.map_args(
                (|args: OpList| -> (r: OpList)
                    ensures
                        r == (OpList { recursive: v, ..args }),
                    { args.with_recursive(v) }),
            ),
        )
    }

    /// Asks for the metadata fields in `v`; the mode is always known.
    pub fn metakey(self, v: MetakeySet) -> (r: Self)
        ensures
            r.0.spec_args() == (OpList { metakey: v, ..self.0.spec_args() }),
            r.0.spec_path() == self.0.spec_path(),
            r.0.spec_inner() == self.0.spec_inner(),
    {
        FunctionList(
            self.0.map_args(
                (|args: OpList| -> (r: OpList)
                    ensures
                        r == (OpList { metakey: v, ..args }),
                    { args.with_metakey(v) }),
            ),
        )
    }

    /// Runs the listing and collects every entry, in the order the backend gave them.
    pub fn call(self) -> (r: Result<Vec<Entry>, Error>)
    {
        let ghost args = self.0.spec_args();
        let ghost path = self.0.spec_path();
        self.0.call(
            (|inner: A, path: String, args: OpList| -> (r: Result<Vec<Entry>, Error>)
                requires
                    is_normalized(path@),
                { list_exec(&inner, &path, args) }),
        )
    }
}

/// A lazy listing, configured before it starts.
pub struct FunctionLister<A>(pub OperatorFunction<A, OpList>);

impl<A: Accessor> FunctionLister<A> {
    /// Asks the backend for pages of `v` entries.
    pub fn limit(self, v: usize) -> (r: Self)
        ensures
            r.0.spec_args() == (OpList { limit: Some(v), ..self.0.spec_args() }),
            r.0.spec_path() == self.0.spec_path(),
            r.0.spec_inner() == self.0.spec_inner(),
    {
        FunctionLister(
            self.0.map_args(
                (|args: OpList| -> (r: OpList)
                    ensures
                        r == (OpList { limit: Some(v), ..args }),
                    { args.with_limit(v) }),
            ),
        )
    }

    /// Lists only entries after path `v`.
    pub fn start_after(self, v: &str) -> (r: Self)
        ensures
            r.0.spec_args() == (OpList { start_after: r.0.spec_args().start_after, ..self.0.spec_args() }),
            r.0.spec_args().start_after matches Some(t) && t@ == v@,
            r.0.spec_path() == self.0.spec_path(),
            r.0.spec_inner() == self.0.spec_inner(),
    {
        FunctionLister(
            self.0.map_args(
                (|args: OpList| -> (r: OpList)
                    ensures
                        r == (OpList { start_after: r.start_after, ..args }),
                        r.start_after matches Some(t) && t@ == v@,
                    { args.with_start_after(v) }),
            ),
        )
    }

    /// Lists the whole subtree when `v` holds, else the direct children only.
    pub fn recursive(self, v: bool) -> (r: Self)
        ensures
            r.0.spec_args() == (OpList { recursive: v, ..self.0.spec_args() }),
            r.0.spec_path() == self.0.spec_path(),
            r.0.spec_inner() == self.0.spec_inner(),
    {
        FunctionLister(
            self.0.map_args(
                (|args: OpList| -> (r: OpList)
                    ensures
                        r == (OpList { recursive: v, ..args }),
                    { args.with_recursive(v) }),
            ),
        )
    }

    /// Asks for the metadata fields in `v`; the mode is always known.
    pub fn metakey(self, v: MetakeySet) -> (r: Self)
        ensures
            r.0.spec_args() == (OpList { metakey: v, ..self.0.spec_args() }),
            r.0.spec_path() == self.0.spec_path(),
            r.0.spec_inner() == self.0.spec_inner(),
    {
        FunctionLister(
            self.0.map_args(
                (|args: OpList| -> (r: OpList)
                    ensures
                        r == (OpList { metakey: v, ..args }),
                    { args.with_metakey(v) }),
            ),
        )
    }

    /// Starts the listing; its entries are fetched as they are asked for.
    pub fn call(self) -> (r: Result<A::Lister, Error>)
    {
        let ghost args = self.0.spec_args();
        let ghost path = self.0.spec_path();
        self.0.call(
            (|inner: A, path: String, args: OpList| -> (r: Result<A::Lister, Error>)
                requires
                    is_normalized(path@),
                { inner.list(path.as_str(), args) }),
        )
    }
}

} // verus!
