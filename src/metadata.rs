//! Object metadata, listing entries and the selection of metadata fields.
use vstd::prelude::*;

verus! {

/// What kind of object a path names.
#[derive(Clone, Copy, Debug, PartialEq, Eq, Structural)]
pub enum EntryMode {
    /// A regular file; its path never ends with `/`.
    File,
    /// A directory; its path always ends with `/`.
    Dir,
    /// The backend could not tell.
    Unknown,
}

/// Metadata of one object. A field that the backend did not report is
/// `None`, which is distinct from a zero or empty value.
#[derive(Clone, Debug)]
pub struct Metadata {
    pub mode: EntryMode,
    pub content_length: Option<u64>,
    pub content_type: Option<String>,
    pub etag: Option<String>,
    /// Seconds since the Unix epoch.
    pub last_modified: Option<i64>,
    pub version: Option<String>,
}

impl Metadata {
    /// Metadata with the given mode and no other field known.
    pub fn new(mode: EntryMode) -> (r: Metadata)
        ensures
            r.mode == mode,
            r.content_length is None,
            r.content_type is None,
            r.etag is None,
            r.last_modified is None,
            r.version is None,
    {
        Metadata {
            mode,
            content_length: None,
            content_type: None,
            etag: None,
            last_modified: None,
            version: None,
        }
    }

    /// The mode of the object.
    pub fn mode(&self) -> (r: EntryMode)
        ensures
            r == self.mode,
    {
        self.mode
    }

    /// True for a regular file.
    pub fn is_file(&self) -> (r: bool)
        ensures
            r == (self.mode == EntryMode::File),
    {
        self.mode == EntryMode::File
    }

    /// True for a directory.
    pub fn is_dir(&self) -> (r: bool)
        ensures
            r == (self.mode == EntryMode::Dir),
    {
        self.mode == EntryMode::Dir
    }

    /// The content length, if the backend reported it.
    pub fn content_length(&self) -> (r: Option<u64>)
        ensures
            r == self.content_length,
    {
        self.content_length
    }

    /// Sets the content length.
    pub fn with_content_length(self, v: u64) -> (r: Metadata)
        ensures
            r == (Metadata { content_length: Some(v), ..self }),
    {
        Metadata { content_length: Some(v), ..self }
    }

    /// Sets the content type.
    pub fn with_content_type(self, v: &str) -> (r: Metadata)
        ensures
            r.content_type matches Some(t) && t@ == v@,
            r == (Metadata { content_type: r.content_type, ..self }),
    {
        Metadata { content_type: Some(String::from_str(v)), ..self }
    }

    /// Sets the etag.
    pub fn with_etag(self, v: &str) -> (r: Metadata)
        ensures
            r.etag matches Some(t) && t@ == v@,
            r == (Metadata { etag: r.etag, ..self }),
    {
        Metadata { etag: Some(String::from_str(v)), ..self }
    }

    /// Sets the last-modified time, in seconds since the Unix epoch.
    pub fn with_last_modified(self, v: i64) -> (r: Metadata)
        ensures
            r == (Metadata { last_modified: Some(v), ..self }),
    {
        Metadata { last_modified: Some(v), ..self }
    }

    /// Sets the version.
    pub fn with_version(self, v: &str) -> (r: Metadata)
        ensures
            r.version matches Some(t) && t@ == v@,
            r == (Metadata { version: r.version, ..self }),
    {
        Metadata { version: Some(String::from_str(v)), ..self }
    }
}

/// One listed object: its path and the metadata the listing populated.
#[derive(Clone, Debug)]
pub struct Entry {
    pub path: String,
    pub metadata: Metadata,
}

impl Entry {
    /// An entry for `path` with `metadata`.
    pub fn new(path: &str, metadata: Metadata) -> (r: Entry)
        ensures
            r.path@ == path@,
            r.metadata == metadata,
    {
        Entry { path: String::from_str(path), metadata }
    }

    /// The path of the entry.
    pub fn path(&self) -> (r: &str)
        ensures
            r@ == self.path@,
    {
        self.path.as_str()
    }

    /// The metadata of the entry.
    pub fn metadata(&self) -> (r: &Metadata)
        ensures
            *r == self.metadata,
    {
        &self.metadata
    }
}

/// A metadata field that a listing can be asked to populate.
#[derive(Clone, Copy, Debug, PartialEq, Eq, Structural)]
pub enum Metakey {
    /// Every field.
    Complete,
    Mode,
    CacheControl,
    ContentDisposition,
    ContentLength,
    ContentMd5,
    ContentRange,
    ContentType,
    Etag,
    LastModified,
    Version,
}

/// The bit that stands for `k` in a [`MetakeySet`].
pub open spec fn metakey_bit(k: Metakey) -> u16 {
    match k {
        Metakey::Complete => 0,
        Metakey::Mode => 1,
        Metakey::CacheControl => 2,
        Metakey::ContentDisposition => 3,
        Metakey::ContentLength => 4,
        Metakey::ContentMd5 => 5,
        Metakey::ContentRange => 6,
        Metakey::ContentType => 7,
        Metakey::Etag => 8,
        Metakey::LastModified => 9,
        Metakey::Version => 10,
    }
}

proof fn lemma_metakey_bit_injective(a: Metakey, b: Metakey)
    ensures
        metakey_bit(a) == metakey_bit(b) ==> a == b,
{
}

impl Metakey {
    /// The bit that stands for this key.
    pub fn bit(self) -> (r: u16)
        ensures
            r == metakey_bit(self),
            r < 11,
    {
        match self {
            Metakey::Complete => 0,
            Metakey::Mode => 1,
            Metakey::CacheControl => 2,
            Metakey::ContentDisposition => 3,
            Metakey::ContentLength => 4,
            Metakey::ContentMd5 => 5,
            Metakey::ContentRange => 6,
            Metakey::ContentType => 7,
            Metakey::Etag => 8,
            Metakey::LastModified => 9,
            Metakey::Version => 10,
        }
    }
}

/// A set of metadata fields, one bit per [`Metakey`].
#[derive(Clone, Copy, Debug, PartialEq, Eq, Structural)]
pub struct MetakeySet {
    pub bits: u16,
}

proof fn lemma_or_bit(a: u16, i: u16, j: u16)
    requires
        i < 16,
        j < 16,
    ensures
        ((a | (1u16 << i)) & (1u16 << j) != 0) == ((a & (1u16 << j) != 0) || i == j),
        (0u16 & (1u16 << j)) == 0,
{
    assert(((a | (1u16 << i)) & (1u16 << j) != 0) == ((a & (1u16 << j) != 0) || i == j))
        by (bit_vector)
        requires
            i < 16,
            j < 16,
    ;
    assert((0u16 & (1u16 << j)) == 0) by (bit_vector);
}

impl View for MetakeySet {
    type V = Set<Metakey>;

    open spec fn view(&self) -> Set<Metakey> {
        Set::new(|k: Metakey| self.bits & (1u16 << metakey_bit(k)) != 0)
    }
}

impl MetakeySet {
    /// The empty set.
    pub fn empty() -> (r: MetakeySet)
        ensures
            r@ == Set::<Metakey>::empty(),
    {
        let r = MetakeySet { bits: 0 };
        assert forall|k: Metakey| !r@.contains(k) by {
            lemma_or_bit(0, 0, metakey_bit(k));
        }
        assert(r@ =~= Set::<Metakey>::empty());
        r
    }

    /// The set that holds `k` alone.
    pub fn of(k: Metakey) -> (r: MetakeySet)
        ensures
            r@ == Set::<Metakey>::empty().insert(k),
    {
        MetakeySet::empty().with(k)
    }

    /// This set with `k` added.
    pub fn with(self, k: Metakey) -> (r: MetakeySet)
        ensures
            r@ == self@.insert(k),
    {
        let b = k.bit();
        let r = MetakeySet { bits: self.bits | (1u16 << b) };
        assert forall|j: Metakey| r@.contains(j) == self@.insert(k).contains(j) by {
            lemma_or_bit(self.bits, b, metakey_bit(j));
            lemma_metakey_bit_injective(k, j);
        }
        assert(r@ =~= self@.insert(k));
        r
    }

    /// Whether `k` is in the set.
    pub fn contains(&self, k: Metakey) -> (r: bool)
        ensures
            r == self@.contains(k),
    {
        self.bits & (1u16 << k.bit()) != 0
    }
}

} // verus!
