//! Errors carried by every operation.
use vstd::prelude::*;

verus! {

/// The kind of an error, on which callers branch.
#[derive(Clone, Copy, Debug, PartialEq, Eq, Structural)]
pub enum ErrorKind {
    /// Something the façade did not expect; the message says what.
    Unexpected,
    /// The backend lacks the capability that the operation needs.
    Unsupported,
    /// The path does not exist.
    NotFound,
    /// The backend refused access.
    PermissionDenied,
    /// A file operation was given a directory path.
    IsADirectory,
    /// A directory operation was given a file path.
    NotADirectory,
    /// Source and target of a copy or rename are the same path.
    IsSameFile,
    /// The object exists but a conditional header did not match.
    ConditionNotMatch,
    /// A read returned a different number of bytes than its range holds.
    ContentIncomplete,
}

/// Whether `e` carries the context pair `key` = `value`.
pub open spec fn carries(e: Error, key: Seq<char>, value: Seq<char>) -> bool {
    exists|i: int|
        0 <= i < e.context@.len() && (#[trigger] e.context@[i]).0@ == key && e.context@[i].1@
            == value
}

/// An error with its kind, a message, the operation it arose in and
/// key/value context such as the backend scheme and the paths involved.
#[derive(Clone, Debug)]
pub struct Error {
    pub kind: ErrorKind,
    pub message: String,
    pub operation: String,
    pub context: Vec<(String, String)>,
}

impl Error {
    /// An error of `kind` with `message`, no operation and no context yet.
    pub fn new(kind: ErrorKind, message: &str) -> (r: Error)
        ensures
            r.kind == kind,
            r.message@ == message@,
            r.operation@.len() == 0,
            r.context@.len() == 0,
    {
        Error {
            kind,
            message: String::from_str(message),
            operation: String::new(),
            context: Vec::new(),
        }
    }

    /// Records the operation in which the error arose.
    pub fn with_operation(self, operation: &str) -> (r: Error)
        ensures
            r.kind == self.kind,
            r.message == self.message,
            r.operation@ == operation@,
            r.context == self.context,
    {
        Error { operation: String::from_str(operation), ..self }
    }

    /// Appends one key/value pair of context.
    pub fn with_context(self, key: &str, value: &str) -> (r: Error)
        ensures
            r.kind == self.kind,
            r.message == self.message,
            r.operation == self.operation,
            r.context@.len() == self.context@.len() + 1,
            r.context@.drop_last() == self.context@,
            r.context@.last().0@ == key@,
            r.context@.last().1@ == value@,
            carries(r, key@, value@),
            forall|k: Seq<char>, v: Seq<char>| carries(self, k, v) ==> #[trigger] carries(r, k, v),
    {
        let mut context = self.context;
        context.push((String::from_str(key), String::from_str(value)));
        proof {
            assert(context@.drop_last() =~= self.context@);
        }
        let r = Error { context, ..self };
        proof {
            let n = self.context@.len() as int;
            assert(r.context@[n].0@ == key@);
            assert forall|k: Seq<char>, v: Seq<char>| carries(self, k, v) implies #[trigger] carries(
                r,
                k,
                v,
            ) by {
                let i = choose|i: int|
                    0 <= i < self.context@.len() && (#[trigger] self.context@[i]).0@ == k
                        && self.context@[i].1@ == v;
                assert(r.context@[i] == self.context@[i]);
            }
        }
        r
    }

    /// The kind of this error.
    pub fn kind(&self) -> (r: ErrorKind)
        ensures
            r == self.kind,
    {
        self.kind
    }

    /// The message of this error.
    pub fn message(&self) -> (r: &str)
        ensures
            r@ == self.message@,
    {
        self.message.as_str()
    }

    /// The operation in which this error arose, empty if none was recorded.
    pub fn operation(&self) -> (r: &str)
        ensures
            r@ == self.operation@,
    {
        self.operation.as_str()
    }
}

} // verus!
