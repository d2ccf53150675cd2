//! The decisions of each operation, apart from the backend calls that
//! surround them: chunking of removals, per-item outcomes, conditional
//! checks, range resolution, copy preconditions and the recursive-removal
//! steps.
use vstd::prelude::*;

use crate::error::{carries, Error, ErrorKind};
use crate::metadata::{Entry, EntryMode, Metadata};
use crate::ops::OpStat;
use crate::path::{ends_with_slash, is_normalized, normalize, normalize_path, validate_path};
use crate::range::{complete_range, BytesRange};

verus! {

/// How many chunks of at most `limit` items hold `n` items: `ceil(n / limit)`.
pub open spec fn chunk_count(n: int, limit: int) -> int {
    (n + limit - 1) / limit
}

/// The `i`-th chunk of `items` cut into pieces of `limit`.
pub open spec fn chunk_of<T>(items: Seq<T>, limit: int, i: int) -> Seq<T> {
    let end = if (i + 1) * limit <= items.len() {
        (i + 1) * limit
    } else {
        items.len() as int
    };
    items.subrange(i * limit, end)
}

/// `chunks` is `items` cut, in order, into pieces of `limit`, the last
/// one possibly shorter.
pub open spec fn is_chunking(chunks: Seq<Vec<String>>, items: Seq<String>, limit: int) -> bool {
    &&& chunks.len() == chunk_count(items.len() as int, limit)
    &&& forall|i: int| 0 <= i < chunks.len() ==> (#[trigger] chunks[i])@ == chunk_of(items, limit, i)
}

proof fn lemma_chunk_count_step(k: int, n: int, limit: int)
    requires
        limit > 0,
        0 <= n,
        k >= 0,
        (k - 1) * limit < n || k == 0,
        n <= k * limit,
        n > 0 || k == 0,
    ensures
        chunk_count(n, limit) == k,
{
    if k == 0 {
        assert(n == 0) by (nonlinear_arith)
            requires
                n <= k * limit,
                k == 0,
                n >= 0,
        ;
        assert((limit - 1) / limit == 0) by (nonlinear_arith)
            requires
                limit > 0,
        ;
    } else {
        assert((n + limit - 1) / limit == k) by (nonlinear_arith)
            requires
                limit > 0,
                (k - 1) * limit < n,
                n <= k * limit,
        ;
    }
}

/// Cuts `paths` into consecutive chunks of at most `limit` paths each, in
/// order; `ceil(n / limit)` chunks for `n` paths.
pub fn plan_batches(paths: &Vec<String>, limit: usize) -> (r: Vec<Vec<String>>)
    requires
        limit > 0,
    ensures
        is_chunking(r@, paths@, limit as int),
{
    let n = paths.len();
    let mut chunks: Vec<Vec<String>> = Vec::new();
    let mut start: usize = 0;
    assert(chunks@.len() * limit == 0) by (nonlinear_arith)
        requires
            chunks@.len() == 0,
    ;
    while start < n
        invariant
            n == paths@.len(),
            limit > 0,
            start == chunks@.len() * limit,
            start <= n || (chunks@.len() > 0 && start - limit < n),
            chunks@.len() > 0 ==> (chunks@.len() - 1) * limit < n,
            forall|i: int|
                0 <= i < chunks@.len() ==> (#[trigger] chunks@[i])@ == chunk_of(
                    paths@,
                    limit as int,
                    i,
                ),
        decreases n - start,
    {
        let end: usize = if n - start >= limit {
            start + limit
        } else {
            n
        };
        let mut chunk: Vec<String> = Vec::new();
        let mut j: usize = start;
        while j < end
            invariant
                start <= j <= end <= n,
                n == paths@.len(),
                chunk@ == paths@.subrange(start as int, j as int),
            decreases end - j,
        {
            chunk.push(paths[j].clone());
            assert(chunk@ =~= paths@.subrange(start as int, j + 1));
            j = j + 1;
        }
        let ghost k = chunks@.len() as int;
        proof {
            assert(start == k * limit);
            assert((k + 1) * limit == k * limit + limit) by (nonlinear_arith);
            assert(chunk@ == chunk_of(paths@, limit as int, k));
        }
        chunks.push(chunk);
        proof {
            assert((k + 1 - 1) * limit < n) by (nonlinear_arith)
                requires
                    start == k * limit,
                    start < n,
            ;
        }
        if end == n {
            start = n;
            proof {
                assert((chunks@.len()) * limit >= n) by (nonlinear_arith)
                    requires
                        chunks@.len() == k + 1,
                        start == n,
                        k * limit + limit >= n,
                        (k + 1) * limit == k * limit + limit,
                ;
            }
            let ghost m = chunks@.len() as int;
            proof {
                lemma_chunk_count_step(m, n as int, limit as int);
            }
            return chunks;
        }
        start = end;
    }
    proof {
        let m = chunks@.len() as int;
        if m > 0 {
            assert(m * limit >= n);
        }
        lemma_chunk_count_step(m, n as int, limit as int);
    }
    chunks
}

/// Every chunk of a chunking holds between one and `limit` items, and
/// there are `ceil(n / limit)` of them.
pub proof fn lemma_batches_bounded(chunks: Seq<Vec<String>>, items: Seq<String>, limit: int)
    requires
        limit > 0,
        is_chunking(chunks, items, limit),
    ensures
        chunks.len() == chunk_count(items.len() as int, limit),
        forall|i: int| 0 <= i < chunks.len() ==> 0 < (#[trigger] chunks[i])@.len() <= limit,
{
    let n = items.len() as int;
    assert forall|i: int| 0 <= i < chunks.len() implies 0 < (#[trigger] chunks[i])@.len()
        <= limit by {
        lemma_chunk_start(i, n, limit);
    }
}

/// The `i`-th of `ceil(n / limit)` chunks starts inside the items.
pub proof fn lemma_chunk_start(i: int, n: int, limit: int)
    requires
        limit > 0,
        0 <= i < chunk_count(n, limit),
    ensures
        0 <= i * limit < n,
        (i + 1) * limit == i * limit + limit,
{
    assert(i * limit < n) by (nonlinear_arith)
        requires
            0 <= i < (n + limit - 1) / limit,
            limit > 0,
    ;
    assert(0 <= i * limit) by (nonlinear_arith)
        requires
            0 <= i,
            limit > 0,
    ;
    assert((i + 1) * limit == i * limit + limit) by (nonlinear_arith);
}

/// Whether a single delete outcome counts as a failure: deleting a path
/// that does not exist is not one.
pub open spec fn is_delete_failure(r: Result<(), Error>) -> bool {
    r matches Err(e) && e.kind != ErrorKind::NotFound
}

/// A delete outcome as the façade reports it: a missing path is success.
pub fn delete_outcome(r: Result<(), Error>) -> (out: Result<(), Error>)
    ensures
        is_delete_failure(r) ==> out == r,
        !is_delete_failure(r) ==> out is Ok,
{
    match r {
        Ok(()) => Ok(()),
        Err(e) => if e.kind == ErrorKind::NotFound {
            Ok(())
        } else {
            Err(e)
        },
    }
}

/// The outcome of a batch's items: the error of the first item that
/// failed, or success when none did.
pub open spec fn first_failure_of(results: Seq<(String, Result<(), Error>)>) -> Result<(), Error>
    decreases results.len(),
{
    if results.len() == 0 {
        Ok(())
    } else if is_delete_failure(results[0].1) {
        results[0].1
    } else {
        first_failure_of(results.drop_first())
    }
}

/// The outcome of a batch: success when no item failed, else the error of
/// the first item that did.
pub fn first_failure(results: Vec<(String, Result<(), Error>)>) -> (r: Result<(), Error>)
    ensures
        r == first_failure_of(results@),
{
    let n = results.len();
    let mut i: usize = 0;
    assert(results@.subrange(0, n as int) =~= results@);
    while i < n
        invariant
            n == results@.len(),
            i <= n,
            first_failure_of(results@) == first_failure_of(results@.subrange(i as int, n as int)),
        decreases n - i,
    {
        let failed = match &results[i].1 {
            Ok(()) => false,
            Err(e) => e.kind != ErrorKind::NotFound,
        };
        proof {
            let rest = results@.subrange(i as int, n as int);
            assert(rest[0] == results@[i as int]);
            assert(rest.drop_first() =~= results@.subrange(i + 1, n as int));
        }
        if failed {
            let mut results = results;
            let item = results.remove(i);
            return item.1;
        }
        i = i + 1;
    }
    Ok(())
}

/// The outcome of a batch request: the request's own error, else the
/// outcome of its items.
pub fn batch_outcome(res: Result<Vec<(String, Result<(), Error>)>, Error>) -> (r: Result<(), Error>)
    ensures
        match res {
            Err(e) => r == Err::<(), Error>(e),
            Ok(results) => r == first_failure_of(results@),
        },
{
    match res {
        Err(e) => Err(e),
        Ok(results) => first_failure(results),
    }
}

/// Every path of `paths` in canonical form, in order.
pub fn normalize_all(paths: &Vec<String>) -> (r: Vec<String>)
    ensures
        r@.len() == paths@.len(),
        forall|j: int| 0 <= j < paths@.len() ==> (#[trigger] r@[j])@ == normalize(paths@[j]@),
        forall|j: int| 0 <= j < paths@.len() ==> is_normalized((#[trigger] r@[j])@),
{
    let n = paths.len();
    let mut out: Vec<String> = Vec::new();
    let mut i: usize = 0;
    while i < n
        invariant
            n == paths@.len(),
            i <= n,
            out@.len() == i,
            forall|j: int| 0 <= j < i ==> (#[trigger] out@[j])@ == normalize(paths@[j]@),
            forall|j: int| 0 <= j < i ==> is_normalized((#[trigger] out@[j])@),
        decreases n - i,
    {
        out.push(normalize_path(paths[i].as_str()));
        i = i + 1;
    }
    out
}

/// Paths given in canonical form come out as they went in, so they are
/// removed exactly as the paths they are the canonical form of.
pub proof fn lemma_normalize_all_prenormalized(p: Seq<String>, q: Seq<String>)
    requires
        p.len() == q.len(),
        forall|j: int| 0 <= j < p.len() ==> (#[trigger] q[j])@ == normalize(p[j]@),
    ensures
        forall|j: int| 0 <= j < p.len() ==> normalize((#[trigger] q[j])@) == normalize(p[j]@),
{
    assert forall|j: int| 0 <= j < p.len() implies normalize((#[trigger] q[j])@) == normalize(
        p[j]@,
    ) by {
        crate::path::lemma_normalize_idempotent(p[j]@);
    }
}

/// The chunk being filled after `path` joins it: a chunk that reaches
/// `limit` paths is handed out whole and a new one starts.
pub fn add_to_chunk(chunk: Vec<String>, path: String, limit: usize) -> (r: (
    Vec<String>,
    Option<Vec<String>>,
))
    requires
        chunk@.len() < limit,
    ensures
        chunk@.len() + 1 == limit ==> r.0@.len() == 0 && (r.1 matches Some(full) && full@
            == chunk@.push(path)),
        chunk@.len() + 1 < limit ==> r.0@ == chunk@.push(path) && r.1 is None,
{
    let mut chunk = chunk;
    chunk.push(path);
    if chunk.len() == limit {
        (Vec::new(), Some(chunk))
    } else {
        (chunk, None)
    }
}

/// What reading does with the next piece of a stream expected to hold
/// `size` bytes.
pub enum ReadStep {
    /// Keep reading; the bytes so far.
    More(Vec<u8>),
    /// The read is over, with this result.
    Finished(Result<Vec<u8>, Error>),
}

/// The step that follows `chunk` after `buf`: an empty chunk ends the
/// stream, which must then have held exactly `size` bytes; bytes beyond
/// `size` are an error; anything else is appended.
pub fn read_step(buf: Vec<u8>, chunk: Vec<u8>, size: u64) -> (r: ReadStep)
    requires
        buf@.len() <= size,
    ensures
        chunk@.len() == 0 && buf@.len() == size ==> r == ReadStep::Finished(Ok(buf)),
        chunk@.len() == 0 && buf@.len() != size ==> (r matches ReadStep::Finished(Err(e)) && e.kind
            == ErrorKind::ContentIncomplete),
        chunk@.len() > 0 && buf@.len() + chunk@.len() > size ==> (r matches ReadStep::Finished(
            Err(e),
        ) && e.kind == ErrorKind::ContentIncomplete),
        chunk@.len() > 0 && buf@.len() + chunk@.len() <= size ==> (r matches ReadStep::More(b) && b@
            == buf@ + chunk@),
{
    if chunk.len() == 0 {
        if buf.len() as u64 == size {
            ReadStep::Finished(Ok(buf))
        } else {
            ReadStep::Finished(
                Err(
                    Error::new(
                        ErrorKind::ContentIncomplete,
                        "the backend sent less than the range holds",
                    ),
                ),
            )
        }
    } else if chunk.len() as u64 > size - buf.len() as u64 {
        ReadStep::Finished(
            Err(Error::new(ErrorKind::ContentIncomplete, "the backend sent more than the range holds")),
        )
    } else {
        let mut buf = buf;
        let mut chunk = chunk;
        buf.append(&mut chunk);
        ReadStep::More(buf)
    }
}

/// What collecting a listing does with the backend's next answer.
pub enum CollectStep {
    /// Keep collecting; the entries so far.
    More(Vec<Entry>),
    /// The listing is over, with this result.
    Finished(Result<Vec<Entry>, Error>),
}

/// The step that follows `next` after the entries `out`: an entry is
/// appended, the end gives the entries, an error is passed on.
pub fn collect_step(out: Vec<Entry>, next: Result<Option<Entry>, Error>) -> (r: CollectStep)
    requires
        out@.len() < usize::MAX,
    ensures
        match next {
            Ok(Some(e)) => r matches CollectStep::More(v) && v@ == out@.push(e),
            Ok(None) => r == CollectStep::Finished(Ok(out)),
            Err(e) => r == CollectStep::Finished(Err(e)),
        },
{
    match next {
        Ok(Some(e)) => {
            let mut out = out;
            out.push(e);
            CollectStep::More(out)
        },
        Ok(None) => CollectStep::Finished(Ok(out)),
        Err(e) => CollectStep::Finished(Err(e)),
    }
}

/// Whether the backend answered a health check, from the first item of a
/// listing of the root: only an error other than `NotFound` is a failure.
pub fn check_outcome(first: Result<Option<Entry>, Error>) -> (r: Result<(), Error>)
    ensures
        match first {
            Err(e) => if e.kind == ErrorKind::NotFound {
                r is Ok
            } else {
                r == Err::<(), Error>(e)
            },
            Ok(_) => r is Ok,
        },
{
    match first {
        Err(e) => if e.kind == ErrorKind::NotFound {
            Ok(())
        } else {
            Err(e)
        },
        Ok(_) => Ok(()),
    }
}

/// The one-character tag `*`, which matches any etag.
pub open spec fn is_wildcard(t: Seq<char>) -> bool {
    t == seq!['*']
}

fn wildcard(t: &String) -> (r: bool)
    ensures
        r == is_wildcard(t@),
{
    let s = t.as_str();
    let r = s.unicode_len() == 1 && s.get_char(0) == '*';
    assert(r ==> s@ =~= seq!['*']);
    r
}

/// Whether an `if_match` tag admits the object: the wildcard admits any,
/// and a tag fails only against a known, different etag.
pub open spec fn if_match_holds(tag: Option<String>, etag: Option<String>) -> bool {
    match tag {
        Some(t) => is_wildcard(t@) || match etag {
            Some(e) => e@ == t@,
            None => true,
        },
        None => true,
    }
}

/// Whether an `if_none_match` tag admits the object: the wildcard admits
/// none, and a tag fails against an equal etag.
pub open spec fn if_none_match_holds(tag: Option<String>, etag: Option<String>) -> bool {
    match tag {
        Some(t) => !is_wildcard(t@) && match etag {
            Some(e) => e@ != t@,
            None => true,
        },
        None => true,
    }
}

/// Whether metadata `meta` satisfies both conditions of `args`.
pub open spec fn stat_conditions_hold(args: OpStat, meta: Metadata) -> bool {
    if_match_holds(args.if_match, meta.etag) && if_none_match_holds(args.if_none_match, meta.etag)
}

fn if_match_ok(tag: &Option<String>, etag: &Option<String>) -> (r: bool)
    ensures
        r == if_match_holds(*tag, *etag),
{
    match tag {
        Some(t) => {
            if wildcard(t) {
                true
            } else {
                match etag {
                    Some(e) => *e == *t,
                    None => true,
                }
            }
        },
        None => true,
    }
}

fn if_none_match_ok(tag: &Option<String>, etag: &Option<String>) -> (r: bool)
    ensures
        r == if_none_match_holds(*tag, *etag),
{
    match tag {
        Some(t) => {
            if wildcard(t) {
                false
            } else {
                match etag {
                    Some(e) => !(*e == *t),
                    None => true,
                }
            }
        },
        None => true,
    }
}

/// Holds the result of a stat to its conditions, so that a mismatch is
/// reported as `ConditionNotMatch` whatever the backend did with them.
pub fn check_stat_conditions(args: &OpStat, meta: Metadata) -> (r: Result<Metadata, Error>)
    ensures
        stat_conditions_hold(*args, meta) ==> r == Ok::<Metadata, Error>(meta),
        !stat_conditions_hold(*args, meta) ==> (r matches Err(e) && e.kind
            == ErrorKind::ConditionNotMatch),
{
    if if_match_ok(&args.if_match, &meta.etag) && if_none_match_ok(&args.if_none_match, &meta.etag) {
        Ok(meta)
    } else {
        Err(
            Error::new(
                ErrorKind::ConditionNotMatch,
                "the object does not satisfy the conditions of the request",
            ),
        )
    }
}

/// The result of a stat: the backend's error passed on unchanged
/// (`NotFound` stays `NotFound`), else its metadata held to the conditions
/// of `args`.
pub fn stat_outcome(args: &OpStat, res: Result<Metadata, Error>) -> (r: Result<Metadata, Error>)
    ensures
        match res {
            Err(e) => r == Err::<Metadata, Error>(e),
            Ok(meta) => if stat_conditions_hold(*args, meta) {
                r == Ok::<Metadata, Error>(meta)
            } else {
                r matches Err(e) && e.kind == ErrorKind::ConditionNotMatch
            },
        },
{
    match res {
        Err(e) => Err(e),
        Ok(meta) => check_stat_conditions(args, meta),
    }
}

/// The range a read resolves to, given the length the backend reported for
/// the object; an unreported length is an error.
pub fn resolve_range(range: BytesRange, meta: &Metadata) -> (r: Result<BytesRange, Error>)
    ensures
        match meta.content_length {
            Some(len) => r == Ok::<BytesRange, Error>(complete_range(range, len)),
            None => r matches Err(e) && e.kind == ErrorKind::Unexpected,
        },
{
    match meta.content_length {
        Some(len) => Ok(range.complete(len)),
        None => Err(
            Error::new(ErrorKind::Unexpected, "the backend did not report the content length"),
        ),
    }
}

/// A read of the whole object resolves to `[0, length)`.
pub proof fn lemma_full_range_resolves(len: u64)
    ensures
        complete_range(BytesRange::full_spec(), len) == (BytesRange {
            offset: Some(0),
            size: Some(len),
        }),
{
}

/// Why a copy or rename from `from` to `to` is refused before the backend
/// is asked, or `None` if it may go ahead. Paths are compared in canonical
/// form.
pub open spec fn transfer_refusal(from: Seq<char>, to: Seq<char>) -> Option<ErrorKind> {
    if ends_with_slash(normalize(from)) || ends_with_slash(normalize(to)) {
        Some(ErrorKind::IsADirectory)
    } else if normalize(from) == normalize(to) {
        Some(ErrorKind::IsSameFile)
    } else {
        None
    }
}

/// Normalizes and checks the two paths of a copy or rename named
/// `operation` on a backend of `scheme`: both must be files and must
/// differ. The error carries the operation, the scheme and the paths.
pub fn check_transfer_paths(operation: &str, scheme: &str, from: &str, to: &str) -> (r: Result<
    (String, String),
    Error,
>)
    ensures
        match transfer_refusal(from@, to@) {
            Some(k) => r matches Err(e) && e.kind == k && e.operation@ == operation@ && carries(
                e,
                "service"@,
                scheme@,
            ) && (ends_with_slash(normalize(from@)) ==> carries(e, "from"@, normalize(from@))) && (
            !ends_with_slash(normalize(from@)) ==> carries(e, "to"@, normalize(to@))) && (k
                == ErrorKind::IsSameFile ==> carries(e, "from"@, normalize(from@))),
            None => r matches Ok((f, t)) && f@ == normalize(from@) && t@ == normalize(to@),
        },
        r matches Ok((f, t)) ==> is_normalized(f@) && is_normalized(t@) && !ends_with_slash(f@)
            && !ends_with_slash(t@) && f@ != t@,
{
    let f = normalize_path(from);
    if !validate_path(f.as_str(), EntryMode::File) {
        return Err(
            Error::new(ErrorKind::IsADirectory, "from path is a directory").with_operation(
                operation,
            ).with_context("service", scheme).with_context("from", f.as_str()),
        );
    }
    let t = normalize_path(to);
    if !validate_path(t.as_str(), EntryMode::File) {
        return Err(
            Error::new(ErrorKind::IsADirectory, "to path is a directory").with_operation(
                operation,
            ).with_context("service", scheme).with_context("to", t.as_str()),
        );
    }
    if f == t {
        return Err(
            Error::new(ErrorKind::IsSameFile, "from and to paths are same").with_operation(
                operation,
            ).with_context("service", scheme).with_context("from", f.as_str()).with_context(
                "to",
                t.as_str(),
            ),
        );
    }
    Ok((f, t))
}

/// A copy or rename of a file path onto itself is refused as `IsSameFile`.
pub proof fn lemma_transfer_to_self_refused(x: Seq<char>)
    requires
        x.len() > 0,
        !ends_with_slash(x),
    ensures
        transfer_refusal(x, x) == Some(ErrorKind::IsSameFile),
{
    crate::path::lemma_normalize_keeps_file(x);
}

/// What `remove_all` does once it knows what the path is.
#[derive(Clone, Copy, Debug, PartialEq, Eq, Structural)]
pub enum RemoveAllStep {
    /// Nothing is there: done, successfully.
    Done,
    /// A single object: delete it.
    DeleteFile,
    /// A directory: delete everything below it, then itself.
    DeleteTree,
}

/// The step of `remove_all` that follows the stat of its path.
pub open spec fn remove_all_step_spec(stat: Result<Metadata, Error>) -> Result<
    RemoveAllStep,
    Error,
> {
    match stat {
        Ok(m) => if m.mode == EntryMode::Dir {
            Ok(RemoveAllStep::DeleteTree)
        } else {
            Ok(RemoveAllStep::DeleteFile)
        },
        Err(e) => if e.kind == ErrorKind::NotFound {
            Ok(RemoveAllStep::Done)
        } else {
            Err(e)
        },
    }
}

/// Decides the step of `remove_all` from the stat of its path: a missing
/// path is done, a directory is removed as a tree, anything else as a
/// single object, and any other stat error is passed on.
pub fn remove_all_step(stat: Result<Metadata, Error>) -> (r: Result<RemoveAllStep, Error>)
    ensures
        r == remove_all_step_spec(stat),
{
    match stat {
        Ok(m) => if m.mode == EntryMode::Dir {
            Ok(RemoveAllStep::DeleteTree)
        } else {
            Ok(RemoveAllStep::DeleteFile)
        },
        Err(e) => if e.kind == ErrorKind::NotFound {
            Ok(RemoveAllStep::Done)
        } else {
            Err(e)
        },
    }
}

/// Removing a path that does not exist succeeds at once.
pub proof fn lemma_remove_all_missing_is_done(e: Error)
    requires
        e.kind == ErrorKind::NotFound,
    ensures
        remove_all_step_spec(Err(e)) == Ok::<RemoveAllStep, Error>(RemoveAllStep::Done),
{
}

/// Whether a path exists, from the result of its stat: a missing path is
/// `false`, any other error is passed on.
pub fn exists_from_stat(stat: Result<Metadata, Error>) -> (r: Result<bool, Error>)
    ensures
        match stat {
            Ok(_) => r == Ok::<bool, Error>(true),
            Err(e) => if e.kind == ErrorKind::NotFound {
                r == Ok::<bool, Error>(false)
            } else {
                r == Err::<bool, Error>(e)
            },
        },
{
    match stat {
        Ok(_) => Ok(true),
        Err(e) => if e.kind == ErrorKind::NotFound {
            Ok(false)
        } else {
            Err(e)
        },
    }
}

/// One delete request that a removal sends to the backend.
pub enum DeleteRequest {
    /// Several paths in one batch request.
    Batch(Vec<String>),
    /// One path in a single delete.
    Single(String),
}

/// The canonical forms of `paths`, in order.
pub open spec fn canonical_views(paths: Seq<String>) -> Seq<Seq<char>> {
    paths.map_values(|p: String| normalize(p@))
}

/// The paths of a request, as views.
pub open spec fn views(paths: Seq<String>) -> Seq<Seq<char>> {
    paths.map_values(|p: String| p@)
}

/// `r` is the removal of `paths`: with batches, one batch per chunk of
/// `limit` canonical paths in order; without, one single delete per
/// canonical path in order.
pub open spec fn is_removal_of(r: Seq<DeleteRequest>, paths: Seq<String>, batch: bool, limit: int) -> bool {
    let c = canonical_views(paths);
    if batch {
        &&& r.len() == chunk_count(paths.len() as int, limit)
        &&& forall|i: int|
            0 <= i < r.len() ==> ((#[trigger] r[i]) matches DeleteRequest::Batch(b) && views(b@)
                == chunk_of(c, limit, i))
    } else {
        &&& r.len() == paths.len()
        &&& forall|i: int|
            0 <= i < r.len() ==> ((#[trigger] r[i]) matches DeleteRequest::Single(p) && p@ == c[i])
    }
}

/// Every request is one the backend accepts: batches are non-empty and
/// every path is canonical.
pub open spec fn requests_well_formed(r: Seq<DeleteRequest>) -> bool {
    forall|i: int|
        0 <= i < r.len() ==> match #[trigger] r[i] {
            DeleteRequest::Batch(b) => b@.len() > 0 && forall|j: int|
                0 <= j < b@.len() ==> is_normalized(#[trigger] b@[j]@),
            DeleteRequest::Single(p) => is_normalized(p@),
        }
}

/// The requests that remove `paths`, see [`is_removal_of`].
pub fn removal_requests(paths: &Vec<String>, batch: bool, limit: usize) -> (r: Vec<DeleteRequest>)
    requires
        limit > 0,
    ensures
        is_removal_of(r@, paths@, batch, limit as int),
        requests_well_formed(r@),
{
    let canonical = normalize_all(paths);
    let n = canonical.len();
    let ghost c = canonical_views(paths@);
    assert(views(canonical@) =~= c);
    let mut out: Vec<DeleteRequest> = Vec::new();
    if batch {
        let chunks = plan_batches(&canonical, limit);
        proof {
            lemma_batches_bounded(chunks@, canonical@, limit as int);
        }
        let m = chunks.len();
        let mut k: usize = 0;
        while k < m
            invariant
                m == chunks@.len(),
                k <= m,
                n == canonical@.len(),
                n == paths@.len(),
                c == views(canonical@),
                limit > 0,
                is_chunking(chunks@, canonical@, limit as int),
                forall|i: int| 0 <= i < m ==> 0 < (#[trigger] chunks@[i])@.len() <= limit,
                forall|j: int| 0 <= j < n ==> is_normalized((#[trigger] canonical@[j])@),
                out@.len() == k,
                forall|i: int|
                    0 <= i < k ==> ((#[trigger] out@[i]) matches DeleteRequest::Batch(b) && views(b@)
                        == chunk_of(c, limit as int, i)),
                requests_well_formed(out@),
            decreases m - k,
        {
            let chunk = chunks[k].clone();
            proof {
                let ki = k as int;
                let l = limit as int;
                lemma_chunk_start(ki, n as int, l);
                assert(chunk@ == chunks@[ki]@);
                assert(chunk@ == chunk_of(canonical@, l, ki));
                assert(views(chunk@) =~= chunk_of(c, l, ki));
                assert forall|j: int| 0 <= j < chunk@.len() implies is_normalized(
                    #[trigger] chunk@[j]@,
                ) by {
                    assert(chunk@[j] == canonical@[ki * l + j]);
                }
            }
            let ghost before = out@;
            out.push(DeleteRequest::Batch(chunk));
            proof {
                assert forall|i: int| 0 <= i < out@.len() implies match #[trigger] out@[i] {
                    DeleteRequest::Batch(b) => b@.len() > 0 && forall|j: int|
                        0 <= j < b@.len() ==> is_normalized(#[trigger] b@[j]@),
                    DeleteRequest::Single(p) => is_normalized(p@),
                } by {
                    if i < before.len() {
                        assert(out@[i] == before[i]);
                    }
                }
                assert forall|i: int| 0 <= i < k + 1 implies (#[trigger] out@[i]) matches DeleteRequest::Batch(b)
                    && views(b@) == chunk_of(c, limit as int, i) by {
                    if i < before.len() {
                        assert(out@[i] == before[i]);
                    }
                }
            }
            k = k + 1;
        }
    } else {
        let mut k: usize = 0;
        while k < n
            invariant
                k <= n,
                n == canonical@.len(),
                n == paths@.len(),
                c == views(canonical@),
                forall|j: int| 0 <= j < n ==> is_normalized((#[trigger] canonical@[j])@),
                out@.len() == k,
                forall|i: int|
                    0 <= i < k ==> ((#[trigger] out@[i]) matches DeleteRequest::Single(p) && p@ == c[i]),
                requests_well_formed(out@),
            decreases n - k,
        {
            let p = canonical[k].clone();
            let ghost before = out@;
            out.push(DeleteRequest::Single(p));
            proof {
                assert forall|i: int| 0 <= i < out@.len() implies match #[trigger] out@[i] {
                    DeleteRequest::Batch(b) => b@.len() > 0 && forall|j: int|
                        0 <= j < b@.len() ==> is_normalized(#[trigger] b@[j]@),
                    DeleteRequest::Single(p) => is_normalized(p@),
                } by {
                    if i < before.len() {
                        assert(out@[i] == before[i]);
                    }
                }
                assert forall|i: int| 0 <= i < k + 1 implies (#[trigger] out@[i]) matches DeleteRequest::Single(p)
                    && p@ == c[i] by {
                    if i < before.len() {
                        assert(out@[i] == before[i]);
                    }
                }
            }
            k = k + 1;
        }
    }
    out
}

/// Paths already in canonical form are removed by the same requests as
/// the paths they are the canonical form of.
pub proof fn lemma_removal_of_prenormalized(p: Seq<String>, q: Seq<String>)
    requires
        p.len() == q.len(),
        forall|j: int| 0 <= j < p.len() ==> (#[trigger] q[j])@ == normalize(p[j]@),
    ensures
        canonical_views(q) == canonical_views(p),
        forall|r: Seq<DeleteRequest>, batch: bool, limit: int|
            is_removal_of(r, q, batch, limit) == #[trigger] is_removal_of(r, p, batch, limit),
{
    lemma_normalize_all_prenormalized(p, q);
    assert(canonical_views(q) =~= canonical_views(p));
}

/// What the tree phase of a recursive removal does next.
pub enum TreeAction {
    /// Ask the listing for its next entry.
    Fetch,
    /// Delete these paths in one batch request, then fetch.
    DeleteBatch(Vec<String>),
    /// Delete this path, then fetch.
    DeleteOne(String),
    /// The listing is over: delete these last paths in one batch request
    /// if there are any, then the directory itself.
    Finish(Option<Vec<String>>),
}

/// The state of the tree phase: whether batches are used, their size, and
/// the paths gathered for the next batch.
pub struct TreeRemoval {
    pub batch: bool,
    pub limit: usize,
    pub pending: Vec<String>,
    /// The canonical path of the directory being emptied.
    pub root: String,
}

impl TreeRemoval {
    /// The pending batch is not yet full and holds canonical paths.
    pub open spec fn wf(&self) -> bool {
        &&& self.limit > 0
        &&& is_normalized(self.root@)
        &&& self.pending@.len() < self.limit
        &&& forall|j: int| 0 <= j < self.pending@.len() ==> is_normalized(#[trigger] self.pending@[j]@)
    }

    /// The tree phase before the listing has yielded anything.
    pub fn new(batch: bool, limit: usize, root: &str) -> (r: TreeRemoval)
        requires
            limit > 0,
        ensures
            r.wf(),
            r.batch == batch,
            r.limit == limit,
            r.pending@.len() == 0,
            r.root@ == normalize(root@),
    {
        TreeRemoval { batch, limit, pending: Vec::new(), root: normalize_path(root) }
    }

    /// The directory to delete once the listing is over.
    pub fn root_path(&self) -> (r: String)
        ensures
            r@ == self.root@,
    {
        self.root.clone()
    }

    /// The step that follows the listing's answer `next`. An error ends
    /// the removal with that error. An entry's canonical path is deleted
    /// on its own without batches, and otherwise joins the pending batch,
    /// which is sent once it is full. The end of the listing hands out
    /// the pending paths and then, only then, the directory is deleted.
    pub fn step(self, next: Result<Option<Entry>, Error>) -> (r: Result<
        (TreeRemoval, TreeAction),
        Error,
    >)
        requires
            self.wf(),
        ensures
            match next {
                Err(e) => r == Err::<(TreeRemoval, TreeAction), Error>(e),
                Ok(None) => r matches Ok((st, TreeAction::Finish(last))) && st.pending@.len() == 0
                    && st.wf() && st.root == self.root && if self.pending@.len() == 0 {
                    last is None
                } else {
                    last matches Some(b) && b@ == self.pending@
                },
                Ok(Some(entry)) => r matches Ok((st, action)) && st.wf() && st.batch == self.batch && st.root == self.root
                    && st.limit == self.limit && if !self.batch {
                    st.pending == self.pending && (action matches TreeAction::DeleteOne(p) && p@
                        == normalize(entry.path@))
                } else if self.pending@.len() + 1 == self.limit {
                    st.pending@.len() == 0 && (action matches TreeAction::DeleteBatch(b) && views(
                        b@,
                    ) == views(self.pending@).push(normalize(entry.path@)))
                } else {
                    views(st.pending@) == views(self.pending@).push(normalize(entry.path@))
                        && action is Fetch
                },
            },
            r matches Ok((_, TreeAction::DeleteBatch(b))) ==> b@.len() > 0 && forall|j: int|
                0 <= j < b@.len() ==> is_normalized(#[trigger] b@[j]@),
            r matches Ok((_, TreeAction::DeleteOne(p))) ==> is_normalized(p@),
            r matches Ok((_, TreeAction::Finish(Some(b)))) ==> b@.len() > 0 && forall|j: int|
                0 <= j < b@.len() ==> is_normalized(#[trigger] b@[j]@),
    {
        let TreeRemoval { batch, limit, pending, root } = self;
        match next {
            Err(e) => Err(e),
            Ok(None) => {
                let last = if pending.len() == 0 {
                    None
                } else {
                    Some(pending)
                };
                Ok((TreeRemoval { batch, limit, pending: Vec::new(), root }, TreeAction::Finish(last)))
            },
            Ok(Some(entry)) => {
                let p = normalize_path(entry.path.as_str());
                if !batch {
                    Ok((TreeRemoval { batch, limit, pending, root }, TreeAction::DeleteOne(p)))
                } else {
                    let ghost before = pending@;
                    let (rest, full) = add_to_chunk(pending, p, limit);
                    match full {
                        Some(b) => {
                            proof {
                                assert(views(b@) =~= views(before).push(normalize(entry.path@)));
                                assert forall|j: int| 0 <= j < b@.len() implies is_normalized(
                                    #[trigger] b@[j]@,
                                ) by {
                                    if j < before.len() {
                                        assert(b@[j] == before[j]);
                                    }
                                }
                            }
                            Ok((TreeRemoval { batch, limit, pending: rest, root }, TreeAction::DeleteBatch(b)))
                        },
                        None => {
                            proof {
                                assert(views(rest@) =~= views(before).push(normalize(entry.path@)));
                                assert forall|j: int| 0 <= j < rest@.len() implies is_normalized(
                                    #[trigger] rest@[j]@,
                                ) by {
                                    if j < before.len() {
                                        assert(rest@[j] == before[j]);
                                    }
                                }
                            }
                            Ok((TreeRemoval { batch, limit, pending: rest, root }, TreeAction::Fetch))
                        },
                    }
                }
            },
        }
    }
}

} // verus!
