//! Byte ranges of a read and their completion against a known length.
use vstd::prelude::*;

verus! {

/// A range of bytes: an optional start and an optional size. A missing
/// start with a size means the last `size` bytes; a missing size means up
/// to the end.
#[derive(Clone, Copy, Debug, PartialEq, Eq, Structural)]
pub struct BytesRange {
    pub offset: Option<u64>,
    pub size: Option<u64>,
}

/// The bounded range that `r` denotes in an object of `total` bytes. A
/// start beyond the end gives an empty range there; a suffix longer than
/// the object covers the whole object.
pub open spec fn complete_range(r: BytesRange, total: u64) -> BytesRange {
    match (r.offset, r.size) {
        (Some(_), Some(_)) => r,
        (Some(o), None) => BytesRange {
            offset: Some(o),
            size: Some(if o <= total { (total - o) as u64 } else { 0 }),
        },
        (None, Some(s)) => {
            let n = if s <= total { s } else { total };
            BytesRange { offset: Some((total - n) as u64), size: Some(n) }
        },
        (None, None) => BytesRange { offset: Some(0), size: Some(total) },
    }
}

impl BytesRange {
    /// The whole object.
    pub open spec fn full_spec() -> BytesRange {
        BytesRange { offset: None, size: None }
    }

    /// The range with the given start and size.
    pub fn new(offset: Option<u64>, size: Option<u64>) -> (r: BytesRange)
        ensures
            r.offset == offset,
            r.size == size,
    {
        BytesRange { offset, size }
    }

    /// The whole object: no start and no size.
    pub fn full() -> (r: BytesRange)
        ensures
            r == BytesRange::full_spec(),
    {
        BytesRange { offset: None, size: None }
    }

    /// The start, if one was given.
    pub fn offset(&self) -> (r: Option<u64>)
        ensures
            r == self.offset,
    {
        self.offset
    }

    /// The size, if one is known.
    pub fn size(&self) -> (r: Option<u64>)
        ensures
            r == self.size,
    {
        self.size
    }

    /// Whether the range has a known size, so that reading it needs no
    /// length lookup first.
    pub fn is_bounded(&self) -> (r: bool)
        ensures
            r == self.size is Some,
    {
        self.size.is_some()
    }

    /// This range made explicit for an object of `total` bytes.
    pub fn complete(&self, total: u64) -> (r: BytesRange)
        ensures
            r == complete_range(*self, total),
            r.offset is Some,
            r.size is Some,
    {
        match (self.offset, self.size) {
            (Some(_), Some(_)) => *self,
            (Some(o), None) => BytesRange {
                offset: Some(o),
                size: Some(
                    if o <= total {
                        total - o
                    } else {
                        0
                    },
                ),
            },
            (None, Some(s)) => {
                let n = if s <= total {
                    s
                } else {
                    total
                };
                BytesRange { offset: Some(total - n), size: Some(n) }
            },
            (None, None) => BytesRange { offset: Some(0), size: Some(total) },
        }
    }
}

} // verus!
