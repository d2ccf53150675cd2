//! Verified sessions around the backend's streams. Each records, in ghost
//! state, exactly what the façade handed to the backend and what the
//! backend reported back, so contracts can speak of the calls made.
use vstd::prelude::*;

use crate::accessor::{Accessor, BlockingList, BlockingWrite};
use crate::error::{Error, ErrorKind};
use crate::ops::OpDelete;
use crate::path::is_normalized;
use crate::plan::{
    batch_outcome, delete_outcome, requests_well_formed, views, DeleteRequest, TreeAction,
    TreeRemoval,
};

verus! {

/// A backend writer together with the bytes it has accepted so far and
/// whether it has been closed.
pub struct WriteSession<W> {
    writer: W,
    accepted: Ghost<Seq<u8>>,
    closed: Ghost<bool>,
}

impl<W: BlockingWrite> WriteSession<W> {
    /// The bytes the backend has accepted, in the order it accepted them:
    /// of each write, the prefix it reported taking.
    pub closed spec fn accepted(&self) -> Seq<u8> {
        self.accepted@
    }

    /// Whether the writer has been closed.
    pub closed spec fn is_closed(&self) -> bool {
        self.closed@
    }

    /// A session over a freshly opened writer.
    pub fn new(writer: W) -> (r: WriteSession<W>)
        ensures
            r.accepted() == Seq::<u8>::empty(),
            !r.is_closed(),
    {
        WriteSession { writer, accepted: Ghost(Seq::empty()), closed: Ghost(false) }
    }

    /// Offers `bs` to the backend. On success the backend took a non-empty
    /// prefix of `bs`, which is appended to what it has accepted; taking
    /// nothing, or more than was offered, is an `Unexpected` error, and an
    /// error leaves what was accepted unchanged.
    pub fn write(&mut self, bs: &[u8]) -> (r: Result<usize, Error>)
        requires
            !old(self).is_closed(),
            bs@.len() > 0,
        ensures
            !final(self).is_closed(),
            r matches Ok(n) ==> 0 < n <= bs@.len() && final(self).accepted() == old(self).accepted()
                + bs@.take(n as int),
            r is Err ==> final(self).accepted() == old(self).accepted(),
    {
        let n = self.writer.write(bs)?;
        if n == 0 {
            return Err(Error::new(ErrorKind::Unexpected, "the backend took no bytes of a write"));
        }
        if n > bs.len() {
            return Err(
                Error::new(ErrorKind::Unexpected, "the backend took more bytes than were offered"),
            );
        }
        self.accepted = Ghost(self.accepted@ + bs@.take(n as int));
        Ok(n)
    }

    /// Closes the writer, once; nothing can be written afterwards.
    pub fn close(&mut self) -> (r: Result<(), Error>)
        requires
            !old(self).is_closed(),
        ensures
            final(self).is_closed(),
            final(self).accepted() == old(self).accepted(),
    {
        self.closed = Ghost(true);
        self.writer.close()
    }
}

/// The kind of a request in the log of a [`Deleter`].
#[derive(Clone, Copy, Debug, PartialEq, Eq, Structural)]
pub enum SentKind {
    /// A batch delete request.
    Batch,
    /// A single delete of one path.
    One,
    /// The delete of the directory that a recursive removal empties.
    Root,
}

/// One request sent to the backend: its kind, its paths and the outcome
/// the façade drew from the backend's answer.
pub type Sent = (SentKind, Seq<Seq<char>>, Result<(), Error>);

/// How `req` appears in the log, without its outcome.
pub open spec fn request_view(req: DeleteRequest) -> (SentKind, Seq<Seq<char>>) {
    match req {
        DeleteRequest::Batch(b) => (SentKind::Batch, views(b@)),
        DeleteRequest::Single(p) => (SentKind::One, seq![p@]),
    }
}

/// `after` is `before` followed by the first requests of `requests`, in
/// order, each sent once: all of them when `r` is success, each
/// succeeding but the last, whose outcome is `r`, when `r` is an error.
pub open spec fn sent_in_order(
    before: Seq<Sent>,
    after: Seq<Sent>,
    requests: Seq<DeleteRequest>,
    r: Result<(), Error>,
) -> bool {
    let k = after.len() - before.len();
    &&& before.len() <= after.len()
    &&& after.take(before.len() as int) == before
    &&& k <= requests.len()
    &&& forall|i: int|
        0 <= i < k ==> (#[trigger] after[before.len() + i]).0 == request_view(requests[i]).0
            && after[before.len() + i].1 == request_view(requests[i]).1
    &&& r is Ok ==> k == requests.len() && forall|i: int|
        0 <= i < k ==> (#[trigger] after[before.len() + i]).2 is Ok
    &&& r is Err ==> k > 0 && after.last().2 == r && forall|i: int|
        0 <= i < k - 1 ==> (#[trigger] after[before.len() + i]).2 is Ok
}

/// Sends delete requests to a backend and logs each request with its
/// outcome, in the order sent.
pub struct Deleter<'a, A> {
    inner: &'a A,
    log: Ghost<Seq<Sent>>,
}

impl<'a, A: Accessor> Deleter<'a, A> {
    /// The requests sent so far, with their outcomes.
    pub closed spec fn log(&self) -> Seq<Sent> {
        self.log@
    }

    /// The backend the requests go to.
    pub closed spec fn backend(&self) -> A {
        *self.inner
    }

    /// A deleter that has sent nothing.
    pub fn new(inner: &'a A) -> (r: Deleter<'a, A>)
        ensures
            r.log() == Seq::<Sent>::empty(),
            r.backend() == *inner,
    {
        Deleter { inner, log: Ghost(Seq::empty()) }
    }

    /// Sends `req`, once: a batch as one batch request, whose outcome is
    /// the request's error or its first failing item; a single path as one
    /// delete, where a missing path is no error.
    pub fn send(&mut self, req: DeleteRequest) -> (r: Result<(), Error>)
        requires
            requests_well_formed(seq![req]),
        ensures
            final(self).log() == old(self).log().push(
                (request_view(req).0, request_view(req).1, r),
            ),
            req is Single ==> (r matches Err(e) ==> e.kind != ErrorKind::NotFound),
    {
        let ghost view = request_view(req);
        assert(seq![req][0] == req);
        let r = match req {
            DeleteRequest::Batch(b) => batch_outcome(self.inner.batch_delete(b)),
            DeleteRequest::Single(p) => delete_outcome(self.inner.delete(p.as_str(), OpDelete::new())),
        };
        self.log = Ghost(self.log@.push((view.0, view.1, r)));
        r
    }

    /// Deletes `root`, the directory a recursive removal has emptied, once;
    /// a missing directory is no error.
    pub fn send_root(&mut self, root: &String) -> (r: Result<(), Error>)
        requires
            is_normalized(root@),
        ensures
            final(self).log() == old(self).log().push((SentKind::Root, seq![root@], r)),
            r matches Err(e) ==> e.kind != ErrorKind::NotFound,
    {
        let r = delete_outcome(self.inner.delete(root.as_str(), OpDelete::new()));
        self.log = Ghost(self.log@.push((SentKind::Root, seq![root@], r)));
        r
    }
}

/// Sends `requests` through `d` in order, stopping at the first failure,
/// which is the result; see [`sent_in_order`].
pub fn run_requests<A: Accessor>(d: &mut Deleter<A>, requests: Vec<DeleteRequest>) -> (r: Result<
    (),
    Error,
>)
    requires
        requests_well_formed(requests@),
    ensures
        sent_in_order(old(d).log(), final(d).log(), requests@, r),
{
    let ghost start = d.log();
    let ghost all = requests@;
    let mut rest = requests;
    let mut k: usize = 0;
    assert(d.log().take(start.len() as int) =~= start);
    assert(rest@ =~= all.skip(0));
    let total = rest.len();
    while rest.len() > 0
        invariant
            start == old(d).log(),
            all == requests@,
            all.len() <= usize::MAX,
            requests_well_formed(rest@),
            rest@ == all.skip(k as int),
            rest@.len() == all.len() - k,
            k <= all.len(),
            d.log().len() == start.len() + k,
            d.log().take(start.len() as int) == start,
            forall|i: int|
                0 <= i < k ==> (#[trigger] d.log()[start.len() + i]).0 == request_view(all[i]).0
                    && d.log()[start.len() + i].1 == request_view(all[i]).1 && d.log()[start.len()
                    + i].2 is Ok,
        decreases rest@.len(),
    {
        assert(k < all.len());
        let ghost before = rest@;
        let ghost log0 = d.log();
        let req = rest.remove(0);
        proof {
            assert(req == before[0]);
            assert(before[0] == all[k as int]);
            assert(rest@ =~= all.skip(k + 1));
            assert(seq![req][0] == req);
            assert forall|i: int| 0 <= i < rest@.len() implies match #[trigger] rest@[i] {
                DeleteRequest::Batch(b) => b@.len() > 0 && forall|j: int|
                    0 <= j < b@.len() ==> is_normalized(#[trigger] b@[j]@),
                DeleteRequest::Single(p) => is_normalized(p@),
            } by {
                assert(rest@[i] == before[i + 1]);
            }
        }
        let r = d.send(req);
        proof {
            assert(d.log().take(start.len() as int) =~= start) by {
                assert(log0.take(start.len() as int) == start);
            }
            assert forall|i: int| 0 <= i < k implies (#[trigger] d.log()[start.len() + i]).0
                == request_view(all[i]).0 && d.log()[start.len() + i].1 == request_view(all[i]).1
                && d.log()[start.len() + i].2 is Ok by {
                assert(d.log()[start.len() + i] == log0[start.len() + i]);
            }
            assert(d.log()[start.len() + k] == (request_view(all[k as int]).0, request_view(
                all[k as int],
            ).1, r));
        }
        if r.is_err() {
            proof {
                assert(d.log().last() == d.log()[start.len() + k]);
            }
            return r;
        }
        k = k + 1;
    }
    Ok(())
}

/// `after` is `before` followed by the requests of a recursive removal of
/// the directory `root`: no earlier request is the directory's own and
/// each succeeded; on success the last request is the directory's, sent
/// once and succeeding; on failure either the last request failed with
/// `r`, or every request succeeded and none was the directory's (the
/// listing failed).
pub open spec fn tree_removed(
    before: Seq<Sent>,
    after: Seq<Sent>,
    root: Seq<char>,
    r: Result<(), Error>,
) -> bool {
    &&& after.len() >= before.len()
    &&& after.take(before.len() as int) == before
    &&& forall|i: int|
        before.len() <= i < after.len() - 1 ==> (#[trigger] after[i]).0 != SentKind::Root
            && after[i].2 is Ok
    &&& r is Ok ==> after.len() > before.len() && after.last() == (SentKind::Root, seq![root], r)
    &&& r is Err && after.len() > before.len() ==> (after.last().2 == r || (after.last().0
        != SentKind::Root && after.last().2 is Ok))
}

/// The tree phase of a recursive removal of the directory `tree.root`:
/// entries of `lister` are deleted as [`TreeRemoval::step`] decides, and
/// the directory itself is deleted last, once, after every entry has been
/// sent and has succeeded. The first failure is the result, and the
/// directory is then not deleted.
pub fn remove_tree<A: Accessor, L: BlockingList>(
    d: &mut Deleter<A>,
    lister: &mut L,
    tree: TreeRemoval,
) -> (r: Result<(), Error>)
    requires
        tree.wf(),
        tree.pending@.len() == 0,
    ensures
        tree_removed(old(d).log(), final(d).log(), tree.root@, r),
{
    let ghost start = d.log();
    let ghost root = tree.root@;
    let mut t = tree;
    let mut seen: usize = 0;
    assert(d.log().take(start.len() as int) =~= start);
    loop
        invariant
            start == old(d).log(),
            t.wf(),
            t.root@ == root,
            root == tree.root@,
            d.log().len() >= start.len(),
            d.log().take(start.len() as int) == start,
            forall|i: int|
                start.len() <= i < d.log().len() ==> (#[trigger] d.log()[i]).0 != SentKind::Root
                    && d.log()[i].2 is Ok,
        decreases usize::MAX - seen,
    {
        if seen == usize::MAX {
            return Err(Error::new(ErrorKind::Unexpected, "the listing holds more entries than can be counted"));
        }
        seen = seen + 1;
        let next = lister.next();
        let (state, action) = t.step(next)?;
        t = state;
        let ghost log0 = d.log();
        match action {
            TreeAction::Fetch => {},
            TreeAction::DeleteBatch(b) => {
                proof { assert(seq![DeleteRequest::Batch(b)][0] == DeleteRequest::Batch(b)); }
                let r = d.send(DeleteRequest::Batch(b));
                proof { keep_prefix(log0, d.log(), start); }
                if r.is_err() {
                    return r;
                }
            },
            TreeAction::DeleteOne(p) => {
                proof { assert(seq![DeleteRequest::Single(p)][0] == DeleteRequest::Single(p)); }
                let r = d.send(DeleteRequest::Single(p));
                proof { keep_prefix(log0, d.log(), start); }
                if r.is_err() {
                    return r;
                }
            },
            TreeAction::Finish(last) => {
                if let Some(b) = last {
                    proof { assert(seq![DeleteRequest::Batch(b)][0] == DeleteRequest::Batch(b)); }
                    let r = d.send(DeleteRequest::Batch(b));
                    proof { keep_prefix(log0, d.log(), start); }
                    if r.is_err() {
                        return r;
                    }
                }
                let ghost log1 = d.log();
                let root_path = t.root_path();
                let r = d.send_root(&root_path);
                proof { keep_prefix(log1, d.log(), start); }
                return r;
            },
        }
    }
}

proof fn keep_prefix(before: Seq<Sent>, after: Seq<Sent>, start: Seq<Sent>)
    requires
        before.len() >= start.len(),
        before.take(start.len() as int) == start,
        after == before.push(after.last()),
        after.len() > 0,
    ensures
        after.take(start.len() as int) == start,
        forall|i: int| 0 <= i < before.len() ==> after[i] == before[i],
{
    assert(after.take(start.len() as int) =~= before.take(start.len() as int));
}

} // verus!
