//! Per-call arguments of each operation, built by pure updates.
use vstd::prelude::*;

use crate::metadata::{Metakey, MetakeySet};
use crate::range::BytesRange;

verus! {

fn clone_opt(s: &Option<String>) -> (r: Option<String>)
    ensures
        r == *s,
{
    match s {
        Some(v) => Some(v.clone()),
        None => None,
    }
}

/// Arguments of a stat with no condition and no version.
pub open spec fn default_stat() -> OpStat {
    OpStat { if_match: None, if_none_match: None, version: None }
}

/// Arguments of a read of the whole object with no condition and no
/// override.
pub open spec fn default_read() -> OpRead {
    OpRead {
        range: BytesRange::full_spec(),
        if_match: None,
        if_none_match: None,
        version: None,
        override_content_type: None,
        override_content_disposition: None,
        override_cache_control: None,
    }
}

/// Arguments of an unbuffered overwrite with no headers.
pub open spec fn default_write() -> OpWrite {
    OpWrite {
        append: false,
        buffer: None,
        content_type: None,
        content_disposition: None,
        cache_control: None,
    }
}

/// Arguments of a listing of the direct children from the start, asking
/// for the mode only.
pub open spec fn is_default_list(args: OpList) -> bool {
    &&& args.limit is None
    &&& args.start_after is None
    &&& !args.recursive
    &&& args.metakey@ == Set::<Metakey>::empty().insert(Metakey::Mode)
}

/// Arguments of a stat.
#[derive(Clone, Debug)]
pub struct OpStat {
    pub if_match: Option<String>,
    pub if_none_match: Option<String>,
    pub version: Option<String>,
}

impl OpStat {
    /// No condition and no version.
    pub fn new() -> (r: OpStat)
        ensures
            r == default_stat(),
            r.if_match is None,
            r.if_none_match is None,
            r.version is None,
    {
        OpStat { if_match: None, if_none_match: None, version: None }
    }

    /// A copy of these arguments.
    pub fn clone_conditions(&self) -> (r: OpStat)
        ensures
            r == *self,
    {
        OpStat {
            if_match: clone_opt(&self.if_match),
            if_none_match: clone_opt(&self.if_none_match),
            version: clone_opt(&self.version),
        }
    }

    /// Requires the object's etag to be `v`.
    pub fn with_if_match(self, v: &str) -> (r: OpStat)
        ensures
            r.if_match matches Some(t) && t@ == v@,
            r == (OpStat { if_match: r.if_match, ..self }),
    {
        OpStat { if_match: Some(String::from_str(v)), ..self }
    }

    /// Requires the object's etag not to be `v`.
    pub fn with_if_none_match(self, v: &str) -> (r: OpStat)
        ensures
            r.if_none_match matches Some(t) && t@ == v@,
            r == (OpStat { if_none_match: r.if_none_match, ..self }),
    {
        OpStat { if_none_match: Some(String::from_str(v)), ..self }
    }

    /// Asks for version `v` of the object.
    pub fn with_version(self, v: &str) -> (r: OpStat)
        ensures
            r.version matches Some(t) && t@ == v@,
            r == (OpStat { version: r.version, ..self }),
    {
        OpStat { version: Some(String::from_str(v)), ..self }
    }
}

/// Arguments of a read.
#[derive(Clone, Debug)]
pub struct OpRead {
    pub range: BytesRange,
    pub if_match: Option<String>,
    pub if_none_match: Option<String>,
    pub version: Option<String>,
    pub override_content_type: Option<String>,
    pub override_content_disposition: Option<String>,
    pub override_cache_control: Option<String>,
}

impl OpRead {
    /// The whole object, with no condition and no override.
    pub fn new() -> (r: OpRead)
        ensures
            r == default_read(),
            r.range == BytesRange::full_spec(),
            r.if_match is None,
            r.if_none_match is None,
            r.version is None,
            r.override_content_type is None,
            r.override_content_disposition is None,
            r.override_cache_control is None,
    {
        OpRead {
            range: BytesRange::full(),
            if_match: None,
            if_none_match: None,
            version: None,
            override_content_type: None,
            override_content_disposition: None,
            override_cache_control: None,
        }
    }

    /// Reads `range` only.
    pub fn with_range(self, range: BytesRange) -> (r: OpRead)
        ensures
            r == (OpRead { range, ..self }),
    {
        OpRead { range, ..self }
    }

    /// Requires the object's etag to be `v`.
    pub fn with_if_match(self, v: &str) -> (r: OpRead)
        ensures
            r.if_match matches Some(t) && t@ == v@,
            r == (OpRead { if_match: r.if_match, ..self }),
    {
        OpRead { if_match: Some(String::from_str(v)), ..self }
    }

    /// Requires the object's etag not to be `v`.
    pub fn with_if_none_match(self, v: &str) -> (r: OpRead)
        ensures
            r.if_none_match matches Some(t) && t@ == v@,
            r == (OpRead { if_none_match: r.if_none_match, ..self }),
    {
        OpRead { if_none_match: Some(String::from_str(v)), ..self }
    }

    /// Asks for version `v` of the object.
    pub fn with_version(self, v: &str) -> (r: OpRead)
        ensures
            r.version matches Some(t) && t@ == v@,
            r == (OpRead { version: r.version, ..self }),
    {
        OpRead { version: Some(String::from_str(v)), ..self }
    }

    /// The content type the response should carry.
    pub fn with_override_content_type(self, v: &str) -> (r: OpRead)
        ensures
            r.override_content_type matches Some(t) && t@ == v@,
            r == (OpRead { override_content_type: r.override_content_type, ..self }),
    {
        OpRead { override_content_type: Some(String::from_str(v)), ..self }
    }

    /// The content disposition the response should carry.
    pub fn with_override_content_disposition(self, v: &str) -> (r: OpRead)
        ensures
            r.override_content_disposition matches Some(t) && t@ == v@,
            r == (OpRead { override_content_disposition: r.override_content_disposition, ..self }),
    {
        OpRead { override_content_disposition: Some(String::from_str(v)), ..self }
    }

    /// The cache control the response should carry.
    pub fn with_override_cache_control(self, v: &str) -> (r: OpRead)
        ensures
            r.override_cache_control matches Some(t) && t@ == v@,
            r == (OpRead { override_cache_control: r.override_cache_control, ..self }),
    {
        OpRead { override_cache_control: Some(String::from_str(v)), ..self }
    }
}

/// Arguments of a write.
#[derive(Clone, Debug)]
pub struct OpWrite {
    pub append: bool,
    pub buffer: Option<usize>,
    pub content_type: Option<String>,
    pub content_disposition: Option<String>,
    pub cache_control: Option<String>,
}

impl OpWrite {
    /// Overwrite, unbuffered, with no headers.
    pub fn new() -> (r: OpWrite)
        ensures
            r == default_write(),
            !r.append,
            r.buffer is None,
            r.content_type is None,
            r.content_disposition is None,
            r.cache_control is None,
    {
        OpWrite {
            append: false,
            buffer: None,
            content_type: None,
            content_disposition: None,
            cache_control: None,
        }
    }

    /// Appends to the object instead of replacing it when `v` holds.
    pub fn with_append(self, v: bool) -> (r: OpWrite)
        ensures
            r == (OpWrite { append: v, ..self }),
    {
        OpWrite { append: v, ..self }
    }

    /// Buffers `v` bytes before handing them to the backend.
    pub fn with_buffer(self, v: usize) -> (r: OpWrite)
        ensures
            r == (OpWrite { buffer: Some(v), ..self }),
    {
        OpWrite { buffer: Some(v), ..self }
    }

    /// Stores the object with content type `v`.
    pub fn with_content_type(self, v: &str) -> (r: OpWrite)
        ensures
            r.content_type matches Some(t) && t@ == v@,
            r == (OpWrite { content_type: r.content_type, ..self }),
    {
        OpWrite { content_type: Some(String::from_str(v)), ..self }
    }

    /// Stores the object with content disposition `v`.
    pub fn with_content_disposition(self, v: &str) -> (r: OpWrite)
        ensures
            r.content_disposition matches Some(t) && t@ == v@,
            r == (OpWrite { content_disposition: r.content_disposition, ..self }),
    {
        OpWrite { content_disposition: Some(String::from_str(v)), ..self }
    }

    /// Stores the object with cache control `v`.
    pub fn with_cache_control(self, v: &str) -> (r: OpWrite)
        ensures
            r.cache_control matches Some(t) && t@ == v@,
            r == (OpWrite { cache_control: r.cache_control, ..self }),
    {
        OpWrite { cache_control: Some(String::from_str(v)), ..self }
    }
}

/// Arguments of a delete.
#[derive(Clone, Debug)]
pub struct OpDelete {
    pub version: Option<String>,
}

impl OpDelete {
    /// The current version.
    pub fn new() -> (r: OpDelete)
        ensures
            r.version is None,
    {
        OpDelete { version: None }
    }

    /// Deletes version `v` of the object.
    pub fn with_version(self, v: &str) -> (r: OpDelete)
        ensures
            r.version matches Some(t) && t@ == v@,
    {
        OpDelete { version: Some(String::from_str(v)) }
    }
}

/// Arguments of a listing.
#[derive(Clone, Debug)]
pub struct OpList {
    /// How many entries the backend should return per page.
    pub limit: Option<usize>,
    /// List only entries after this path.
    pub start_after: Option<String>,
    /// List the whole subtree rather than the direct children.
    pub recursive: bool,
    /// The metadata fields each entry must carry.
    pub metakey: MetakeySet,
}

impl OpList {
    /// Direct children from the start, with their mode only.
    pub fn new() -> (r: OpList)
        ensures
            is_default_list(r),
            r.limit is None,
            r.start_after is None,
            !r.recursive,
            r.metakey@ == Set::<Metakey>::empty().insert(Metakey::Mode),
    {
        OpList { limit: None, start_after: None, recursive: false, metakey: MetakeySet::of(Metakey::Mode) }
    }

    /// Asks the backend for pages of `v` entries.
    pub fn with_limit(self, v: usize) -> (r: OpList)
        ensures
            r == (OpList { limit: Some(v), ..self }),
    {
        OpList { limit: Some(v), ..self }
    }

    /// Starts after path `v`.
    pub fn with_start_after(self, v: &str) -> (r: OpList)
        ensures
            r.start_after matches Some(t) && t@ == v@,
            r == (OpList { start_after: r.start_after, ..self }),
    {
        OpList { start_after: Some(String::from_str(v)), ..self }
    }

    /// Lists the whole subtree when `v` holds.
    pub fn with_recursive(self, v: bool) -> (r: OpList)
        ensures
            r == (OpList { recursive: v, ..self }),
    {
        OpList { recursive: v, ..self }
    }

    /// Asks for the fields in `v`.
    pub fn with_metakey(self, v: MetakeySet) -> (r: OpList)
        ensures
            r == (OpList { metakey: v, ..self }),
    {
        OpList { metakey: v, ..self }
    }
}

/// The operation a presigned request stands for.
#[derive(Clone, Debug)]
pub enum PresignOperation {
    Stat(OpStat),
    Read(OpRead),
    Write(OpWrite),
}

/// A signed request that performs an operation out of band until it
/// expires.
#[derive(Clone, Debug)]
pub struct PresignedRequest {
    pub method: String,
    pub uri: String,
    pub headers: Vec<(String, String)>,
}

impl PresignedRequest {
    /// The HTTP method.
    pub fn method(&self) -> (r: &str)
        ensures
            r@ == self.method@,
    {
        self.method.as_str()
    }

    /// The signed URI.
    pub fn uri(&self) -> (r: &str)
        ensures
            r@ == self.uri@,
    {
        self.uri.as_str()
    }
}

} // verus!
