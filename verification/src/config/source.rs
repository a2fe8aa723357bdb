//! [`DataSource`]: a resolved, not yet materialized reference to bytes.

use vstd::prelude::*;

verus! {

/// A resolved reference to resource bytes: a filesystem path, a compiled-in
/// byte constant, or an already-owned buffer.  A `File` source is not yet
/// checked to exist; the other two variants always "exist".
#[derive(Debug, PartialEq, Eq)]
pub enum DataSource {
    File(String),
    Borrowed(&'static [u8]),
    Owned(Vec<u8>),
}

/// The mathematical value of a [`DataSource`]: the path it names, or the
/// bytes it carries.
pub enum SourceView {
    File(Seq<char>),
    Borrowed(Seq<u8>),
    Owned(Seq<u8>),
}

impl View for DataSource {
    type V = SourceView;

    open spec fn view(&self) -> SourceView {
        match self {
            DataSource::File(p) => SourceView::File(p@),
            DataSource::Borrowed(b) => SourceView::Borrowed(b@),
            DataSource::Owned(v) => SourceView::Owned(v@),
        }
    }
}

impl Clone for DataSource {
    fn clone(&self) -> (r: Self)
        ensures
            r@ == self@,
    {
        match self {
            DataSource::File(p) => DataSource::File(p.clone()),
            DataSource::Borrowed(b) => DataSource::Borrowed(b),
            DataSource::Owned(v) => {
                let mut out: Vec<u8> = Vec::new();
                let mut i: usize = 0;
                while i < v.len()
                    invariant
                        i <= v@.len(),
                        out@ == v@.subrange(0, i as int),
                    decreases v@.len() - i,
                {
                    out.push(v[i]);
                    assert(out@ =~= v@.subrange(0, i + 1));
                    i += 1;
                }
                assert(out@ =~= v@);
                DataSource::Owned(out)
            },
        }
    }
}

/// Relies on `std::path::Path::exists`: true when the path names an existing
/// filesystem entity.  The answer depends on the state of the disk, so
/// nothing is promised of it.
#[verifier::external_body]
pub(crate) fn path_exists(path: &str) -> bool {
    std::path::Path::new(path).exists()
}

impl DataSource {
    /// Whether the backing content exists: compiled-in and owned sources
    /// always do; a file source is probed on disk.
    pub fn is_present(&self) -> (r: bool)
        ensures
            !(self@ is File) ==> r,
    {
        match self {
            DataSource::File(p) => path_exists(p.as_str()),
            DataSource::Borrowed(_) => true,
            DataSource::Owned(_) => true,
        }
    }
}

} // verus!
