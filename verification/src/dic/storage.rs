//! Materialized byte buffers backing resolved data sources.
//!
//! A [`Storage`] holds the bytes of one resource: a read-only memory
//! mapping of a file, a compiled-in slice, or an owned buffer.  Its content
//! is immutable for the lifetime of the value.  Creating a memory mapping
//! requires opening a file, which this crate leaves to its caller: a
//! `Storage::File` is built around an already-created mapping.

use vstd::prelude::*;

use crate::config::source::{DataSource, SourceView};

verus! {

#[verifier::external_type_specification]
#[verifier::external_body]
pub struct ExMmap(memmap2::Mmap);

/// The bytes a memory mapping holds.  A mapping is created read-only over a
/// file's full contents and never mutated through this crate, so its bytes
/// are a function of the mapping value.
pub uninterp spec fn mmap_bytes(m: memmap2::Mmap) -> Seq<u8>;

/// Relies on `AsRef<[u8]>` for `memmap2::Mmap`: the slice over the whole
/// mapped region.
#[verifier::external_body]
fn mmap_as_slice(m: &memmap2::Mmap) -> (r: &[u8])
    ensures
        r@ == mmap_bytes(*m),
{
    m.as_ref()
}

/// A materialized, immutable byte buffer backing one resolved data source.
pub enum Storage {
    File(memmap2::Mmap),
    Borrowed(&'static [u8]),
    Owned(Vec<u8>),
}

impl View for Storage {
    type V = Seq<u8>;

    open spec fn view(&self) -> Seq<u8> {
        match self {
            Storage::File(m) => mmap_bytes(*m),
            Storage::Borrowed(b) => b@,
            Storage::Owned(v) => v@,
        }
    }
}

impl DeepView for Storage {
    type V = Seq<u8>;

    open spec fn deep_view(&self) -> Seq<u8> {
        self@
    }
}

impl Storage {
    /// The stored bytes, identical whichever variant backs them: the same
    /// content read back regardless of how it was materialized.
    pub fn as_bytes(&self) -> (r: &[u8])
        ensures
            r@ == self@,
    {
        match self {
            Storage::File(m) => mmap_as_slice(m),
            Storage::Borrowed(b) => b,
            Storage::Owned(v) => v.as_slice(),
        }
    }

    /// Materialize an already-loaded data source.  A `File` source names a
    /// path that still has to be opened and mapped, which requires
    /// filesystem access this crate does not perform: such a source is
    /// handed back unchanged for the caller to map.
    pub fn try_from_loaded(value: DataSource) -> (r: Result<Storage, DataSource>)
        ensures
            match r {
                Ok(s) => match value@ {
                    SourceView::Borrowed(b) => s@ == b,
                    SourceView::Owned(b) => s@ == b,
                    SourceView::File(_) => false,
                },
                Err(d) => d == value && value@ is File,
            },
    {
        match value {
            DataSource::File(p) => Err(DataSource::File(p)),
            DataSource::Borrowed(b) => Ok(Storage::Borrowed(b)),
            DataSource::Owned(v) => Ok(Storage::Owned(v)),
        }
    }
}

/// The dictionary's materialized buffers: exactly one system storage and an
/// ordered sequence of user storages.  Earlier user dictionaries take
/// precedence downstream, so the order of insertion is kept.
pub struct SudachiDicData {
    system: Storage,
    user: Vec<Storage>,
}

impl SudachiDicData {
    /// The bytes of the system storage.
    pub closed spec fn system_bytes(&self) -> Seq<u8> {
        self.system@
    }

    /// The bytes of each user storage, in insertion order.
    pub closed spec fn user_bytes(&self) -> Seq<Seq<u8>> {
        self.user.deep_view()
    }

    /// Dictionary data over the given system storage, with no user
    /// storages yet.
    pub fn new(system: Storage) -> (r: Self)
        ensures
            r.system_bytes() == system@,
            r.user_bytes() == Seq::<Seq<u8>>::empty(),
    {
        let r = Self { system, user: Vec::new() };
        proof {
            assert(r.user_bytes() =~= Seq::<Seq<u8>>::empty());
        }
        r
    }

    /// Append one user storage after the current ones.
    pub fn add_user(&mut self, user: Storage)
        ensures
            final(self).system_bytes() == old(self).system_bytes(),
            final(self).user_bytes() == old(self).user_bytes().push(user@),
    {
        let ghost u = user@;
        self.user.push(user);
        proof {
            assert(final(self).user_bytes() =~= old(self).user_bytes().push(u));
        }
    }

    /// The bytes of the system storage.
    pub fn system(&self) -> (r: &[u8])
        ensures
            r@ == self.system_bytes(),
    {
        self.system.as_bytes()
    }

    /// How many user storages are held.
    pub fn user_count(&self) -> (r: usize)
        ensures
            r == self.user_bytes().len(),
    {
        self.user.len()
    }

    /// The bytes of the user storage at `i`.
    pub fn user(&self, i: usize) -> (r: &[u8])
        requires
            i < self.user_bytes().len(),
        ensures
            r@ == self.user_bytes()[i as int],
    {
        proof {
            assert(self.user.deep_view()[i as int] == self.user@[i as int]@);
        }
        self.user[i].as_bytes()
    }
}

} // verus!
