//! The ordered resolution chain used to locate named resources.
//!
//! A [`PathAnchor`] is an ordered sequence of [`PathResolver`] values.  Each
//! resolver either produces a candidate [`DataSource`] for a logical resource
//! name or states that it has none.  Order encodes priority: a caller's
//! overrides are searched before compiled-in fallbacks.

use vstd::prelude::*;
use vstd::string::StringSliceAdditionalSpecFns;

use crate::config::error::ConfigError;
use crate::config::paths::{join_path, spec_join};
use crate::config::source::{DataSource, SourceView};
use crate::config::{
    DEFAULT_CHAR_DEF_FILE, DEFAULT_REWRITE_DEF_FILE, DEFAULT_SETTING_FILE, DEFAULT_UNK_DEF_FILE,
};

verus! {

/// Compiled-in default character-category definitions.
pub const DEFAULT_CHAR_DEF_TEXT: &'static str = "DEFAULT 0 1 0\nSPACE 0 1 0\n";

/// Compiled-in default rewrite rules.
pub const DEFAULT_REWRITE_DEF_TEXT: &'static str = "# rewrite rules\n";

/// Compiled-in default unknown-word rules.
pub const DEFAULT_UNK_DEF_TEXT: &'static str = "DEFAULT,5000,5000,30000,*,*,*,*,*,*\n";

/// Compiled-in default settings document.
pub const DEFAULT_SETTING_TEXT: &'static str = "{}";

/// Rendered description of an embedded candidate, used in diagnostics.
pub const EMBEDDED_MATCH_TEXT: &'static str = "<embedded resource>";

/// Rendered description of an embedded lookup that found nothing.
pub const EMBEDDED_NO_MATCH_TEXT: &'static str = "<no embedded resource>";

/// A resolver that joins a logical name onto one root directory.  An empty
/// root stands for the current working directory.
#[derive(Debug)]
pub struct FileSystemAnchor {
    root: String,
}

/// A resolver that serves the fixed, closed table of compiled-in resources.
#[derive(Debug)]
pub struct EmbeddedAnchor {}

/// One strategy within an anchor: embedded-constant lookup or
/// filesystem-root lookup.
#[derive(Debug)]
pub enum PathResolver {
    Embedded(EmbeddedAnchor),
    FileSystem(FileSystemAnchor),
}

/// The mathematical value of a resolver: its kind, and for a filesystem
/// resolver its root directory.
pub enum ResolverView {
    Embedded,
    FileSystem(Seq<char>),
}

impl View for FileSystemAnchor {
    type V = Seq<char>;

    closed spec fn view(&self) -> Seq<char> {
        self.root@
    }
}

impl View for PathResolver {
    type V = ResolverView;

    open spec fn view(&self) -> ResolverView {
        match self {
            PathResolver::Embedded(_) => ResolverView::Embedded,
            PathResolver::FileSystem(f) => ResolverView::FileSystem(f@),
        }
    }
}

/// The embedded table: the bytes served for a logical name, or `None` for
/// every name outside the four compiled-in resources.
pub open spec fn embedded_bytes_for(path: Seq<char>) -> Option<Seq<u8>> {
    if path == DEFAULT_CHAR_DEF_FILE@ {
        Some(DEFAULT_CHAR_DEF_TEXT.spec_bytes())
    } else if path == DEFAULT_REWRITE_DEF_FILE@ {
        Some(DEFAULT_REWRITE_DEF_TEXT.spec_bytes())
    } else if path == DEFAULT_UNK_DEF_FILE@ {
        Some(DEFAULT_UNK_DEF_TEXT.spec_bytes())
    } else if path == DEFAULT_SETTING_FILE@ {
        Some(DEFAULT_SETTING_TEXT.spec_bytes())
    } else {
        None
    }
}

/// The candidate a resolver produces for a logical name: an embedded resolver
/// serves only the table above; a filesystem resolver always joins its root
/// with the name, without checking existence.
pub open spec fn resolver_candidate(r: ResolverView, path: Seq<char>) -> Option<SourceView> {
    match r {
        ResolverView::Embedded => match embedded_bytes_for(path) {
            Some(b) => Some(SourceView::Borrowed(b)),
            None => None,
        },
        ResolverView::FileSystem(root) => Some(SourceView::File(spec_join(root, path))),
    }
}

/// The root directory a resolver contributes to symbolic-path expansion.
pub open spec fn resolver_root(r: ResolverView) -> Option<Seq<char>> {
    match r {
        ResolverView::Embedded => None,
        ResolverView::FileSystem(root) => Some(root),
    }
}

/// The view of an optional data source.
pub open spec fn opt_source_view(o: Option<DataSource>) -> Option<SourceView> {
    match o {
        Some(d) => Some(d@),
        None => None,
    }
}

impl FileSystemAnchor {
    /// A resolver rooted at the given directory.
    pub fn new(path: String) -> (r: Self)
        ensures
            r@ == path@,
    {
        FileSystemAnchor { root: path }
    }

    /// A resolver rooted at the current working directory (an empty root).
    pub fn new_cwd() -> (r: Self)
        ensures
            r@ == Seq::<char>::empty(),
    {
        FileSystemAnchor { root: String::new() }
    }
}

impl Clone for FileSystemAnchor {
    fn clone(&self) -> (r: Self)
        ensures
            r@ == self@,
    {
        FileSystemAnchor { root: self.root.clone() }
    }
}

impl EmbeddedAnchor {
    /// The resolver over the compiled-in resource table.
    pub fn new() -> (r: Self) {
        EmbeddedAnchor {}
    }
}

impl Clone for EmbeddedAnchor {
    fn clone(&self) -> (r: Self)
        ensures
            r == *self,
    {
        EmbeddedAnchor {}
    }
}

impl Clone for PathResolver {
    fn clone(&self) -> (r: Self)
        ensures
            r@ == self@,
    {
        match self {
            PathResolver::Embedded(e) => PathResolver::Embedded(e.clone()),
            PathResolver::FileSystem(f) => PathResolver::FileSystem(f.clone()),
        }
    }
}

impl PathResolver {
    /// The candidate this resolver produces for `path`, exactly as
    /// [`resolver_candidate`] describes: a filesystem resolver always joins
    /// root and path regardless of existence; the embedded resolver answers
    /// only for the names of the four compiled-in resources.
    pub fn candidate(&self, path: &str) -> (r: Option<DataSource>)
        ensures
            opt_source_view(r) == resolver_candidate(self@, path@),
    {
        match self {
            PathResolver::Embedded(_) => {
                if crate::config::paths::str_eq(path, DEFAULT_CHAR_DEF_FILE) {
                    Some(DataSource::Borrowed(DEFAULT_CHAR_DEF_TEXT.as_bytes()))
                } else if crate::config::paths::str_eq(path, DEFAULT_REWRITE_DEF_FILE) {
                    Some(DataSource::Borrowed(DEFAULT_REWRITE_DEF_TEXT.as_bytes()))
                } else if crate::config::paths::str_eq(path, DEFAULT_UNK_DEF_FILE) {
                    Some(DataSource::Borrowed(DEFAULT_UNK_DEF_TEXT.as_bytes()))
                } else if crate::config::paths::str_eq(path, DEFAULT_SETTING_FILE) {
                    Some(DataSource::Borrowed(DEFAULT_SETTING_TEXT.as_bytes()))
                } else {
                    None
                }
            },
            PathResolver::FileSystem(f) => Some(DataSource::File(join_path(f.root.as_str(), path))),
        }
    }

    /// The root directory this resolver contributes, if it is
    /// filesystem-backed.
    pub fn filesystem_roots(&self) -> (r: Option<&String>)
        ensures
            match r {
                Some(p) => resolver_root(self@) == Some(p@),
                None => resolver_root(self@) is None,
            },
    {
        match self {
            PathResolver::Embedded(_) => None,
            PathResolver::FileSystem(f) => Some(&f.root),
        }
    }
}

/// An optional candidate as a sequence of zero or one elements.
pub open spec fn opt_to_seq(o: Option<SourceView>) -> Seq<SourceView> {
    match o {
        Some(c) => seq![c],
        None => Seq::empty(),
    }
}

/// Every candidate a chain of resolvers produces for `path`, in chain order,
/// skipping resolvers that produce none.
pub open spec fn candidates_of(rs: Seq<ResolverView>, path: Seq<char>) -> Seq<SourceView>
    decreases rs.len(),
{
    if rs.len() == 0 {
        Seq::empty()
    } else {
        candidates_of(rs.drop_last(), path) + opt_to_seq(resolver_candidate(rs.last(), path))
    }
}

/// The roots of the filesystem-backed resolvers of a chain, in chain order.
pub open spec fn spec_filesystem_roots(rs: Seq<ResolverView>) -> Seq<Seq<char>>
    decreases rs.len(),
{
    if rs.len() == 0 {
        Seq::empty()
    } else {
        spec_filesystem_roots(rs.drop_last()) + (match resolver_root(rs.last()) {
            Some(root) => seq![root],
            None => Seq::empty(),
        })
    }
}

/// The rendered description of one resolver's candidate, as it appears in a
/// resolution-failure diagnostic.
pub open spec fn rendered_candidate(r: ResolverView, path: Seq<char>) -> Seq<char> {
    match r {
        ResolverView::Embedded => if embedded_bytes_for(path) is Some {
            EMBEDDED_MATCH_TEXT@
        } else {
            EMBEDDED_NO_MATCH_TEXT@
        },
        ResolverView::FileSystem(root) => spec_join(root, path),
    }
}

/// The rendered candidate list of a whole chain: one entry per resolver,
/// whether or not it produced a candidate.
pub open spec fn rendered_candidates(rs: Seq<ResolverView>, path: Seq<char>) -> Seq<Seq<char>>
    decreases rs.len(),
{
    if rs.len() == 0 {
        Seq::empty()
    } else {
        rendered_candidates(rs.drop_last(), path) + seq![rendered_candidate(rs.last(), path)]
    }
}

/// `ds` is a candidate of the chain, and every candidate before it is a
/// filesystem path (whose existence only the disk can answer).
pub open spec fn found_at(cands: Seq<SourceView>, ds: SourceView) -> bool {
    exists|i: int|
        0 <= i < cands.len() && cands[i] == ds && (forall|j: int| 0 <= j < i ==> cands[j] is File)
}

/// Every candidate of the chain is a filesystem path; only then can
/// resolution fail.
pub open spec fn all_file_candidates(cands: Seq<SourceView>) -> bool {
    forall|i: int| 0 <= i < cands.len() ==> cands[i] is File
}

/// `e` is the resolution-failure diagnostic for `path` over the given chain:
/// it carries the original query and one rendered entry per resolver.
pub open spec fn is_resolution_failure_for(
    e: ConfigError,
    rs: Seq<ResolverView>,
    path: Seq<char>,
) -> bool {
    &&& e matches ConfigError::PathResolution(query, cands)
    &&& query@ == path
    &&& cands.deep_view() == rendered_candidates(rs, path)
}

/// Candidates of a concatenated chain are the candidates of the first chain
/// followed by those of the second: composition preserves order and priority.
pub proof fn lemma_candidates_concat(a: Seq<ResolverView>, b: Seq<ResolverView>, path: Seq<char>)
    ensures
        candidates_of(a + b, path) == candidates_of(a, path) + candidates_of(b, path),
    decreases b.len(),
{
    if b.len() == 0 {
        assert(a + b =~= a);
        assert(candidates_of(a, path) + candidates_of(b, path) =~= candidates_of(a, path));
    } else {
        lemma_candidates_concat(a, b.drop_last(), path);
        assert((a + b).drop_last() =~= a + b.drop_last());
        assert(candidates_of(a + b, path) =~= candidates_of(a, path) + candidates_of(b, path));
    }
}

/// Filesystem roots of a concatenated chain are those of the first chain
/// followed by those of the second.
pub proof fn lemma_roots_concat(a: Seq<ResolverView>, b: Seq<ResolverView>)
    ensures
        spec_filesystem_roots(a + b) == spec_filesystem_roots(a) + spec_filesystem_roots(b),
    decreases b.len(),
{
    if b.len() == 0 {
        assert(a + b =~= a);
        assert(spec_filesystem_roots(a) + spec_filesystem_roots(b) =~= spec_filesystem_roots(a));
    } else {
        lemma_roots_concat(a, b.drop_last());
        assert((a + b).drop_last() =~= a + b.drop_last());
        assert(spec_filesystem_roots(a + b) =~= spec_filesystem_roots(a) + spec_filesystem_roots(
            b,
        ));
    }
}

/// The embedded resolver answers only for the four compiled-in resource
/// names: every other logical name yields no candidate.
pub proof fn lemma_embedded_candidate_only_table(path: Seq<char>)
    requires
        path != DEFAULT_CHAR_DEF_FILE@,
        path != DEFAULT_REWRITE_DEF_FILE@,
        path != DEFAULT_UNK_DEF_FILE@,
        path != DEFAULT_SETTING_FILE@,
    ensures
        resolver_candidate(ResolverView::Embedded, path) is None,
{
}

/// A filesystem resolver always produces the root-joined path as its
/// candidate, whatever the path and whether or not anything exists there:
/// existence is checked only when resolving.
pub proof fn lemma_filesystem_candidate_always_joins(root: Seq<char>, path: Seq<char>)
    ensures
        resolver_candidate(ResolverView::FileSystem(root), path) == Some(
            SourceView::File(spec_join(root, path)),
        ),
{
}

/// Resolving a name against a chain of one embedded and one filesystem
/// resolver, when the name is in neither set, fails with a diagnostic of
/// exactly two entries: one saying the embedded table had no match, and one
/// naming the non-existent path under the filesystem root.
pub proof fn lemma_failure_lists_both_candidates(root: Seq<char>, path: Seq<char>)
    requires
        embedded_bytes_for(path) is None,
    ensures
        rendered_candidates(seq![ResolverView::Embedded, ResolverView::FileSystem(root)], path)
            == seq![EMBEDDED_NO_MATCH_TEXT@, spec_join(root, path)],
{
    let chain = seq![ResolverView::Embedded, ResolverView::FileSystem(root)];
    let emb = seq![ResolverView::Embedded];
    assert(chain.drop_last() =~= emb);
    assert(emb.drop_last() =~= Seq::<ResolverView>::empty());
    assert(rendered_candidates(Seq::<ResolverView>::empty(), path) =~= Seq::<Seq<char>>::empty());
    assert(rendered_candidates(emb, path) =~= seq![EMBEDDED_NO_MATCH_TEXT@]);
    assert(rendered_candidates(chain, path) =~= seq![
        EMBEDDED_NO_MATCH_TEXT@,
        spec_join(root, path),
    ]);
}

/// Appending chains preserves priority: when the first chain holds a
/// candidate that surely exists (an embedded or owned one), whatever
/// resolution returns over the combined chain is a candidate of the first
/// chain — a name present in both chains is answered by the first.
pub proof fn lemma_resolution_prefers_first_chain(
    a: Seq<ResolverView>,
    b: Seq<ResolverView>,
    path: Seq<char>,
    ds: SourceView,
)
    requires
        !all_file_candidates(candidates_of(a, path)),
        found_at(candidates_of(a + b, path), ds),
    ensures
        exists|i: int| 0 <= i < candidates_of(a, path).len() && candidates_of(a, path)[i] == ds,
{
    let ca = candidates_of(a, path);
    let cb = candidates_of(b, path);
    lemma_candidates_concat(a, b, path);
    let k = choose|k: int| 0 <= k < ca.len() && !(ca[k] is File);
    let i = choose|i: int|
        0 <= i < (ca + cb).len() && (ca + cb)[i] == ds && (forall|j: int|
            0 <= j < i ==> (ca + cb)[j] is File);
    if i >= ca.len() {
        assert((ca + cb)[k] is File);
        assert((ca + cb)[k] == ca[k]);
    } else {
        assert(ca[i] == ds);
    }
}

/// An ordered, composable chain of resolvers: the unit of "where do we look".
#[derive(Debug)]
pub struct PathAnchor {
    anchors: Vec<PathResolver>,
}

impl View for PathAnchor {
    type V = Seq<ResolverView>;

    closed spec fn view(&self) -> Seq<ResolverView> {
        self.anchors@.map_values(|r: PathResolver| r@)
    }
}

impl Clone for PathAnchor {
    fn clone(&self) -> (r: Self)
        ensures
            r@ == self@,
    {
        let mut anchors: Vec<PathResolver> = Vec::new();
        let mut i: usize = 0;
        while i < self.anchors.len()
            invariant
                i <= self.anchors@.len(),
                anchors@.len() == i,
                forall|j: int| 0 <= j < i ==> anchors@[j]@ == self.anchors@[j]@,
            decreases self.anchors@.len() - i,
        {
            anchors.push(self.anchors[i].clone());
            i += 1;
        }
        let r = PathAnchor { anchors };
        proof {
            assert(r@ =~= self@);
        }
        r
    }
}

impl Default for PathAnchor {
    /// The default value is the empty chain.
    fn default() -> (r: Self)
        ensures
            r@ == Seq::<ResolverView>::empty(),
    {
        PathAnchor::empty()
    }
}

impl PathAnchor {
    /// The empty chain: resolves nothing.
    pub fn empty() -> (r: Self)
        ensures
            r@ == Seq::<ResolverView>::empty(),
    {
        let r = PathAnchor { anchors: Vec::new() };
        proof {
            assert(r@ =~= Seq::<ResolverView>::empty());
        }
        r
    }

    /// The non-empty default: embedded resources first, then the current
    /// working directory.
    pub fn new_default() -> (r: Self)
        ensures
            r@ == seq![
                ResolverView::Embedded,
                ResolverView::FileSystem(Seq::<char>::empty()),
            ],
    {
        let mut anchors: Vec<PathResolver> = Vec::new();
        anchors.push(PathResolver::Embedded(EmbeddedAnchor::new()));
        anchors.push(PathResolver::FileSystem(FileSystemAnchor::new_cwd()));
        let r = PathAnchor { anchors };
        proof {
            assert(r@ =~= seq![
                ResolverView::Embedded,
                ResolverView::FileSystem(Seq::<char>::empty()),
            ]);
        }
        r
    }

    /// A chain holding only the embedded resolver.
    pub fn new_embedded() -> (r: Self)
        ensures
            r@ == seq![ResolverView::Embedded],
    {
        let mut anchors: Vec<PathResolver> = Vec::new();
        anchors.push(PathResolver::Embedded(EmbeddedAnchor::new()));
        let r = PathAnchor { anchors };
        proof {
            assert(r@ =~= seq![ResolverView::Embedded]);
        }
        r
    }

    /// A chain holding only the current working directory.
    pub fn new_cwd() -> (r: Self)
        ensures
            r@ == seq![ResolverView::FileSystem(Seq::<char>::empty())],
    {
        let mut anchors: Vec<PathResolver> = Vec::new();
        anchors.push(PathResolver::FileSystem(FileSystemAnchor::new_cwd()));
        let r = PathAnchor { anchors };
        proof {
            assert(r@ =~= seq![ResolverView::FileSystem(Seq::<char>::empty())]);
        }
        r
    }

    /// A chain holding one filesystem resolver rooted at `path`.
    pub fn new_filesystem(path: String) -> (r: Self)
        ensures
            r@ == seq![ResolverView::FileSystem(path@)],
    {
        let mut anchors: Vec<PathResolver> = Vec::new();
        anchors.push(PathResolver::FileSystem(FileSystemAnchor::new(path)));
        let r = PathAnchor { anchors };
        proof {
            assert(r@ =~= seq![ResolverView::FileSystem(r.anchors@[0]@->FileSystem_0)]);
        }
        r
    }

    /// Push one more resolver after the current chain.
    pub fn push(&mut self, other: PathResolver)
        ensures
            final(self)@ == old(self)@.push(other@),
    {
        let ghost o = other@;
        self.anchors.push(other);
        proof {
            assert(final(self)@ =~= old(self)@.push(o));
        }
    }

    /// Append another chain after this one, draining it; the caller's chain
    /// is searched first.
    pub fn append(&mut self, other: &mut PathAnchor)
        ensures
            final(self)@ == old(self)@ + old(other)@,
            final(other)@ == Seq::<ResolverView>::empty(),
    {
        self.anchors.append(&mut other.anchors);
        proof {
            assert(final(self)@ =~= old(self)@ + old(other)@);
            assert(final(other)@ =~= Seq::<ResolverView>::empty());
        }
    }

    /// Every candidate the chain produces for `path`, in chain order, as
    /// [`candidates_of`] describes.  Existence is not checked.
    pub fn all_candidates(&self, path: &str) -> (r: Vec<DataSource>)
        ensures
            r@.map_values(|d: DataSource| d@) == candidates_of(self@, path@),
    {
        let mut out: Vec<DataSource> = Vec::new();
        let mut i: usize = 0;
        while i < self.anchors.len()
            invariant
                i <= self.anchors@.len(),
                self@ == self.anchors@.map_values(|r: PathResolver| r@),
                self@.len() == self.anchors@.len(),
                out@.map_values(|d: DataSource| d@) == candidates_of(self@.take(i as int), path@),
            decreases self.anchors@.len() - i,
        {
            let ghost prefix = self@.take(i as int);
            match self.anchors[i].candidate(path) {
                Some(ds) => {
                    let ghost dsv = ds@;
                    out.push(ds);
                    proof {
                        assert(self@.take(i + 1).drop_last() =~= prefix);
                        assert(self@.take(i + 1).last() == self@[i as int]);
                        assert(out@.map_values(|d: DataSource| d@) =~= candidates_of(
                            self@.take(i + 1),
                            path@,
                        ));
                    }
                },
                None => {
                    proof {
                        assert(self@.take(i + 1).drop_last() =~= prefix);
                        assert(self@.take(i + 1).last() == self@[i as int]);
                        assert(out@.map_values(|d: DataSource| d@) =~= candidates_of(
                            self@.take(i + 1),
                            path@,
                        ));
                    }
                },
            }
            i += 1;
        }
        proof {
            assert(self@.take(self.anchors@.len() as int) =~= self@);
        }
        out
    }

    /// The first candidate whose backing content actually exists, in chain
    /// order.  Embedded and owned candidates always exist; filesystem
    /// candidates are probed on disk, so which of them exists is not known
    /// statically: what is promised is that the result is a candidate of the
    /// chain and that every candidate before it was a filesystem path.
    pub fn first_existing(&self, path: &str) -> (r: Option<DataSource>)
        ensures
            match r {
                Some(ds) => found_at(candidates_of(self@, path@), ds@),
                None => all_file_candidates(candidates_of(self@, path@)),
            },
    {
        let ghost spec_cands = candidates_of(self@, path@);
        let cands = self.all_candidates(path);
        let mut i: usize = 0;
        while i < cands.len()
            invariant
                i <= cands@.len(),
                cands@.map_values(|d: DataSource| d@) == spec_cands,
                spec_cands == candidates_of(self@, path@),
                forall|j: int| 0 <= j < i ==> spec_cands[j] is File,
            decreases cands@.len() - i,
        {
            proof {
                assert(cands@.map_values(|d: DataSource| d@)[i as int] == cands@[i as int]@);
            }
            if cands[i].is_present() {
                let r = cands[i].clone();
                proof {
                    assert(r@ == spec_cands[i as int]);
                }
                return Some(r);
            }
            i += 1;
        }
        None
    }

    /// Whether `resolve` would succeed for `path`.  Never fails; when every
    /// candidate is a filesystem path the answer depends on the disk.
    pub fn can_resolve(&self, path: &str) -> (r: bool)
        ensures
            !r ==> all_file_candidates(candidates_of(self@, path@)),
            r ==> candidates_of(self@, path@).len() > 0,
    {
        self.first_existing(path).is_some()
    }

    /// The first existing candidate, or a [`ConfigError::PathResolution`]
    /// diagnostic listing every candidate the chain considered.
    pub fn resolve(&self, path: &str) -> (r: Result<DataSource, ConfigError>)
        ensures
            match r {
                Ok(ds) => found_at(candidates_of(self@, path@), ds@),
                Err(e) => all_file_candidates(candidates_of(self@, path@))
                    && is_resolution_failure_for(e, self@, path@),
            },
    {
        match self.first_existing(path) {
            Some(ds) => Ok(ds),
            None => Err(self.resolution_failure(path)),
        }
    }

    /// The resolution-failure diagnostic for `path`: the original query and
    /// one rendered entry per resolver, as [`rendered_candidates`] describes.
    pub fn resolution_failure(&self, path: &str) -> (r: ConfigError)
        ensures
            is_resolution_failure_for(r, self@, path@),
    {
        let mut cands: Vec<String> = Vec::new();
        let mut i: usize = 0;
        while i < self.anchors.len()
            invariant
                i <= self.anchors@.len(),
                self@ == self.anchors@.map_values(|r: PathResolver| r@),
                self@.len() == self.anchors@.len(),
                cands.deep_view() == rendered_candidates(self@.take(i as int), path@),
            decreases self.anchors@.len() - i,
        {
            let entry: String = match self.anchors[i].candidate(path) {
                Some(ds) => match ds {
                    DataSource::File(p) => p,
                    DataSource::Borrowed(_) => String::from_str(EMBEDDED_MATCH_TEXT),
                    DataSource::Owned(_) => String::from_str(EMBEDDED_MATCH_TEXT),
                },
                None => String::from_str(EMBEDDED_NO_MATCH_TEXT),
            };
            proof {
                assert(entry@ == rendered_candidate(self@[i as int], path@));
            }
            let ghost prefix = self@.take(i as int);
            cands.push(entry);
            proof {
                assert(self@.take(i + 1).drop_last() =~= prefix);
                assert(self@.take(i + 1).last() == self@[i as int]);
                assert(cands.deep_view() =~= rendered_candidates(self@.take(i + 1), path@));
            }
            i += 1;
        }
        proof {
            assert(self@.take(self.anchors@.len() as int) =~= self@);
        }
        ConfigError::PathResolution(String::from_str(path), cands)
    }

    /// The roots of the filesystem-backed resolvers, in chain order.
    pub fn filesystem_roots(&self) -> (r: Vec<String>)
        ensures
            r.deep_view() == spec_filesystem_roots(self@),
    {
        let mut out: Vec<String> = Vec::new();
        let mut i: usize = 0;
        while i < self.anchors.len()
            invariant
                i <= self.anchors@.len(),
                self@ == self.anchors@.map_values(|r: PathResolver| r@),
                self@.len() == self.anchors@.len(),
                out.deep_view() == spec_filesystem_roots(self@.take(i as int)),
            decreases self.anchors@.len() - i,
        {
            let ghost prefix = self@.take(i as int);
            match self.anchors[i].filesystem_roots() {
                Some(root) => {
                    out.push(root.clone());
                },
                None => {},
            }
            proof {
                assert(self@.take(i + 1).drop_last() =~= prefix);
                assert(self@.take(i + 1).last() == self@[i as int]);
                assert(out.deep_view() =~= spec_filesystem_roots(self@.take(i + 1)));
            }
            i += 1;
        }
        proof {
            assert(self@.take(self.anchors@.len() as int) =~= self@);
        }
        out
    }

    /// The first root-joined path that exists on disk, scanning the
    /// filesystem roots in chain order.  Which joined path exists only the
    /// disk can answer; what is promised is that the result, if any, is one
    /// of the joined paths.
    pub fn first_existing_path(&self, path: &str) -> (r: Option<String>)
        ensures
            r matches Some(p) ==> exists|i: int|
                0 <= i < spec_filesystem_roots(self@).len() && p@ == spec_join(
                    spec_filesystem_roots(self@)[i],
                    path@,
                ),
    {
        let roots = self.filesystem_roots();
        let mut i: usize = 0;
        while i < roots.len()
            invariant
                i <= roots@.len(),
                roots.deep_view() == spec_filesystem_roots(self@),
            decreases roots@.len() - i,
        {
            proof {
                assert(roots.deep_view()[i as int] == roots@[i as int]@);
            }
            let joined = join_path(roots[i].as_str(), path);
            if crate::config::source::path_exists(joined.as_str()) {
                return Some(joined);
            }
            i += 1;
        }
        None
    }
}

} // verus!
