//! What a backend can do, queried once per façade.
use vstd::prelude::*;

verus! {

/// The batch size used when the backend names no maximum.
pub const DEFAULT_BATCH_LIMIT: usize = 1000;

/// Flags and limits that describe a backend.
#[derive(Clone, Copy, Debug, PartialEq, Eq, Structural)]
pub struct Capability {
    pub stat: bool,
    pub read: bool,
    pub write: bool,
    pub create_dir: bool,
    pub delete: bool,
    pub copy: bool,
    pub rename: bool,
    pub list: bool,
    pub presign: bool,
    /// The backend deletes many paths in one request.
    pub batch: bool,
    /// The most paths one batch request may hold, if the backend says.
    pub batch_max_operations: Option<usize>,
}

/// The batch size a façade starts with for a backend of capability `cap`:
/// the backend's own maximum when it names a positive one, else the
/// default.
pub open spec fn initial_limit(cap: Capability) -> usize {
    match cap.batch_max_operations {
        Some(n) => if n > 0 {
            n
        } else {
            DEFAULT_BATCH_LIMIT
        },
        None => DEFAULT_BATCH_LIMIT,
    }
}

impl Capability {
    /// A backend that can do nothing.
    pub fn new() -> (r: Capability)
        ensures
            !r.stat && !r.read && !r.write && !r.create_dir && !r.delete,
            !r.copy && !r.rename && !r.list && !r.presign && !r.batch,
            r.batch_max_operations is None,
    {
        Capability {
            stat: false,
            read: false,
            write: false,
            create_dir: false,
            delete: false,
            copy: false,
            rename: false,
            list: false,
            presign: false,
            batch: false,
            batch_max_operations: None,
        }
    }

    /// The batch size to start with, see [`initial_limit`].
    pub fn initial_limit(&self) -> (r: usize)
        ensures
            r == initial_limit(*self),
            r > 0,
    {
        match self.batch_max_operations {
            Some(n) => if n > 0 {
                n
            } else {
                DEFAULT_BATCH_LIMIT
            },
            None => DEFAULT_BATCH_LIMIT,
        }
    }
}

/// A backend's scheme (the kind of service, such as `s3` or `fs`) and
/// capability.
#[derive(Clone, Debug)]
pub struct AccessorInfo {
    pub scheme: String,
    pub capability: Capability,
}

impl AccessorInfo {
    /// Info for a backend of `scheme` with `capability`.
    pub fn new(scheme: &str, capability: Capability) -> (r: AccessorInfo)
        ensures
            r.scheme@ == scheme@,
            r.capability == capability,
    {
        AccessorInfo { scheme: String::from_str(scheme), capability }
    }
}

/// What a façade reports of its backend.
#[derive(Clone, Debug)]
pub struct OperatorInfo {
    pub info: AccessorInfo,
}

impl OperatorInfo {
    /// Wraps the backend's own info.
    pub fn new(info: AccessorInfo) -> (r: OperatorInfo)
        ensures
            r.info == info,
    {
        OperatorInfo { info }
    }

    /// The backend's scheme.
    pub fn scheme(&self) -> (r: &str)
        ensures
            r@ == self.info.scheme@,
    {
        self.info.scheme.as_str()
    }

    /// Everything the backend can do.
    pub fn full_capability(&self) -> (r: Capability)
        ensures
            r == self.info.capability,
    {
        self.info.capability
    }
}

} // verus!
