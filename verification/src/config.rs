//! Configuration loading: path anchors, builders and the resolved [`Config`].

pub mod anchor;
pub mod error;
pub mod json;
pub mod paths;
pub mod projection;
pub mod resolver;
pub mod source;

pub mod builder;

use vstd::prelude::*;
use vstd::string::StringSliceAdditionalSpecFns;

use crate::config::anchor::{
    all_file_candidates, candidates_of, found_at, is_resolution_failure_for, spec_filesystem_roots,
    PathAnchor, ResolverView,
};
use crate::config::builder::{
    builder_of_doc, default_anchor_view, embedded_setting_bytes, spec_build, BuilderView,
    ConfigBuilder,
};
use crate::config::error::ConfigError;
use crate::config::json::{is_valid_json, json_value_of, parse_json};
use crate::config::paths::{
    has_prefix, is_absolute, join_path, path_is_absolute, spec_join, str_has_prefix,
};
use crate::config::projection::SurfaceProjection;
use crate::config::source::{path_exists, DataSource};

verus! {

/// Name of the default settings document.
pub const DEFAULT_SETTING_FILE: &'static str = "sudachi.json";

/// Name of the default binary system dictionary.
pub const DEFAULT_DICT_FILE: &'static str = "system_core.dic";

/// Name of the default character-category definition file.
pub const DEFAULT_CHAR_DEF_FILE: &'static str = "char.def";

/// Name of the default rewrite-rules file.
pub const DEFAULT_REWRITE_DEF_FILE: &'static str = "rewrite.def";

/// Name of the default unknown-word-rules file.
pub const DEFAULT_UNK_DEF_FILE: &'static str = "unk.def";

/// The mathematical value of a [`Config`]: every field fully resolved.
pub struct ConfigView {
    pub anchor: Seq<ResolverView>,
    pub system_dict: Seq<char>,
    pub user_dicts: Seq<Seq<char>>,
    pub character_definition_file: Seq<char>,
    pub connection_cost_plugins: Seq<serde_json::Value>,
    pub input_text_plugins: Seq<serde_json::Value>,
    pub oov_provider_plugins: Seq<serde_json::Value>,
    pub path_rewrite_plugins: Seq<serde_json::Value>,
    pub projection: SurfaceProjection,
}

/// The fully resolved, immutable configuration: every optional builder field
/// has its default substituted.  Shared read-only by all downstream
/// resolution calls.
#[derive(Debug)]
pub struct Config {
    /// Paths are resolved against this anchor until a data source is found.
    pub anchor: PathAnchor,
    pub system_dict: String,
    pub user_dicts: Vec<String>,
    pub character_definition_file: String,
    pub connection_cost_plugins: Vec<serde_json::Value>,
    pub input_text_plugins: Vec<serde_json::Value>,
    pub oov_provider_plugins: Vec<serde_json::Value>,
    pub path_rewrite_plugins: Vec<serde_json::Value>,
    /// The projection is consumed by language bindings only; the analysis
    /// entry points here ignore it.
    pub projection: SurfaceProjection,
}

impl View for Config {
    type V = ConfigView;

    open spec fn view(&self) -> ConfigView {
        ConfigView {
            anchor: self.anchor@,
            system_dict: self.system_dict@,
            user_dicts: self.user_dicts.deep_view(),
            character_definition_file: self.character_definition_file@,
            connection_cost_plugins: self.connection_cost_plugins@,
            input_text_plugins: self.input_text_plugins@,
            oov_provider_plugins: self.oov_provider_plugins@,
            path_rewrite_plugins: self.path_rewrite_plugins@,
            projection: self.projection,
        }
    }
}

impl Clone for Config {
    fn clone(&self) -> (r: Self)
        ensures
            r@ == self@,
    {
        let mut user_dicts: Vec<String> = Vec::new();
        let mut i: usize = 0;
        while i < self.user_dicts.len()
            invariant
                i <= self.user_dicts@.len(),
                user_dicts@.len() == i,
                forall|j: int| 0 <= j < i ==> user_dicts@[j]@ == self.user_dicts@[j]@,
            decreases self.user_dicts@.len() - i,
        {
            user_dicts.push(self.user_dicts[i].clone());
            i += 1;
        }
        let r = Config {
            anchor: self.anchor.clone(),
            system_dict: self.system_dict.clone(),
            user_dicts,
            character_definition_file: self.character_definition_file.clone(),
            connection_cost_plugins: crate::config::builder::clone_values(
                &self.connection_cost_plugins,
            ),
            input_text_plugins: crate::config::builder::clone_values(
                &self.input_text_plugins,
            ),
            oov_provider_plugins: crate::config::builder::clone_values(
                &self.oov_provider_plugins,
            ),
            path_rewrite_plugins: crate::config::builder::clone_values(
                &self.path_rewrite_plugins,
            ),
            projection: self.projection,
        };
        proof {
            assert(r@.user_dicts =~= self@.user_dicts);
        }
        r
    }
}

impl Default for Config {
    /// The default configuration: an empty anchor, empty paths and plugin
    /// lists, and the surface projection.
    fn default() -> (r: Self)
        ensures
            r@.anchor == Seq::<ResolverView>::empty(),
            r@.system_dict == Seq::<char>::empty(),
            r@.user_dicts == Seq::<Seq<char>>::empty(),
            r@.character_definition_file == Seq::<char>::empty(),
            r@.connection_cost_plugins == Seq::<serde_json::Value>::empty(),
            r@.input_text_plugins == Seq::<serde_json::Value>::empty(),
            r@.oov_provider_plugins == Seq::<serde_json::Value>::empty(),
            r@.path_rewrite_plugins == Seq::<serde_json::Value>::empty(),
            r@.projection == SurfaceProjection::Surface,
    {
        let r = Config {
            anchor: PathAnchor::empty(),
            system_dict: String::new(),
            user_dicts: Vec::new(),
            character_definition_file: String::new(),
            connection_cost_plugins: Vec::new(),
            input_text_plugins: Vec::new(),
            oov_provider_plugins: Vec::new(),
            path_rewrite_plugins: Vec::new(),
            projection: SurfaceProjection::Surface,
        };
        proof {
            assert(r@.user_dicts =~= Seq::<Seq<char>>::empty());
        }
        r
    }
}

/// The default plugin block of a minimal configuration: one simple provider
/// for out-of-vocabulary words.
pub const DEFAULT_OOV_TEXT: &'static str =
    "{ \"class\": \"com.worksap.nlp.sudachi.SimpleOovPlugin\", \"oovPOS\": [\"\u{540d}\u{8a5e}\", \"\u{666e}\u{901a}\u{540d}\u{8a5e}\", \"\u{4e00}\u{822c}\", \"*\", \"*\", \"*\"], \"leftId\": 0, \"rightId\": 0, \"cost\": 30000 }";

/// The bytes of the default out-of-vocabulary plugin block.
pub open spec fn default_oov_bytes() -> Seq<u8> {
    DEFAULT_OOV_TEXT.spec_bytes()
}

/// The two candidate paths that `$exe/<rest>` expands to: first under the
/// executable's `deps` directory, then directly beside the executable.
pub open spec fn exe_expansion(exe_dir: Seq<char>, path: Seq<char>) -> Seq<Seq<char>> {
    seq![exe_dir + "/deps"@ + path.skip(4), exe_dir + path.skip(4)]
}

/// One candidate path per filesystem root: `<root>/<rest>`, in anchor order.
pub open spec fn cfg_expansion(roots: Seq<Seq<char>>, rest: Seq<char>) -> Seq<Seq<char>> {
    Seq::new(roots.len(), |i: int| spec_join(roots[i], rest))
}

/// What `resolve_paths` returns: the `$exe` expansion, the `$cfg` expansion
/// over the anchor's filesystem roots, or the path itself, unchanged.
pub open spec fn spec_resolve_paths(
    anchor: Seq<ResolverView>,
    exe_dir: Seq<char>,
    path: Seq<char>,
) -> Seq<Seq<char>> {
    if has_prefix(path, "$exe"@) {
        exe_expansion(exe_dir, path)
    } else if has_prefix(path, "$cfg/"@) || has_prefix(path, "$cfg\\"@) {
        cfg_expansion(spec_filesystem_roots(anchor), path.skip(5))
    } else {
        seq![path]
    }
}

/// The configuration that `Config::new` produces from a base builder and the
/// two explicit overrides: the resource directory is prepended to the
/// anchor, the dictionary path overrides the builder's, and the result is
/// built.  Explicit argument beats config-file value beats compiled-in
/// default, independently per field.
pub open spec fn spec_new_config(
    b: BuilderView,
    resource_dir: Option<Seq<char>>,
    dictionary_path: Option<Seq<char>>,
) -> ConfigView {
    let with_dir = match resource_dir {
        Some(p) => BuilderView { anchor: seq![ResolverView::FileSystem(p)] + b.anchor, ..b },
        None => b,
    };
    let with_dict = match dictionary_path {
        Some(d) => BuilderView { system_dict: Some(d), ..with_dir },
        None => with_dir,
    };
    spec_build(with_dict)
}

/// An explicit dictionary argument always wins: whatever the document holds,
/// the built configuration uses the explicitly given dictionary path.
pub proof fn lemma_explicit_dictionary_wins(
    b: BuilderView,
    resource_dir: Option<Seq<char>>,
    dictionary_path: Seq<char>,
)
    ensures
        spec_new_config(b, resource_dir, Some(dictionary_path)).system_dict == dictionary_path,
{
}

/// Without an explicit dictionary argument, the document's value is used
/// when present, and the compiled-in default name otherwise: precedence is
/// per field, not all-or-nothing.
pub proof fn lemma_document_dictionary_otherwise(b: BuilderView, resource_dir: Option<Seq<char>>)
    ensures
        spec_new_config(b, resource_dir, None).system_dict == (match b.system_dict {
            Some(s) => s,
            None => DEFAULT_DICT_FILE@,
        }),
{
}

impl Config {
    /// Combine an optional already-loaded configuration document with the
    /// explicit overrides, with per-field precedence: explicit argument over
    /// config-file value over compiled-in default.  When no document is
    /// given the compiled-in default settings are used.
    pub fn new(
        config: Option<ConfigBuilder>,
        resource_dir: Option<String>,
        dictionary_path: Option<String>,
    ) -> (r: Result<Self, ConfigError>)
        ensures
            config matches Some(b) ==> r matches Ok(c) && c@ == spec_new_config(
                b@,
                crate::config::builder::opt_str_view(resource_dir),
                crate::config::builder::opt_str_view(dictionary_path),
            ),
            config is None ==> {
                &&& r is Ok <==> is_valid_json(embedded_setting_bytes())
                    && crate::config::builder::doc_well_formed(
                    json_value_of(embedded_setting_bytes()),
                )
                &&& r matches Ok(c) ==> c@ == spec_new_config(
                    builder_of_doc(json_value_of(embedded_setting_bytes()), default_anchor_view()),
                    crate::config::builder::opt_str_view(resource_dir),
                    crate::config::builder::opt_str_view(dictionary_path),
                )
                &&& r matches Err(e) ==> (e is InvalidFormat || e is JsonParse)
            },
    {
        let mut builder = match config {
            Some(b) => b,
            None => match ConfigBuilder::from_embedded() {
                Ok(b) => b,
                Err(e) => {
                    return Err(e);
                },
            },
        };
        builder = match resource_dir {
            Some(p) => {
                let mut anchor = PathAnchor::new_filesystem(p);
                anchor.append(&mut builder.anchor);
                builder.with_anchor(anchor)
            },
            None => builder,
        };
        builder = match dictionary_path {
            Some(p) => builder.system_dict(p),
            None => builder,
        };
        Ok(builder.build())
    }

    /// The default configuration: the compiled-in settings document over the
    /// default anchor.
    pub fn new_embedded() -> (r: Result<Self, ConfigError>)
        ensures
            r is Ok <==> is_valid_json(embedded_setting_bytes())
                && crate::config::builder::doc_well_formed(
                json_value_of(embedded_setting_bytes()),
            ),
            r matches Ok(c) ==> c@ == spec_build(
                builder_of_doc(json_value_of(embedded_setting_bytes()), default_anchor_view()),
            ),
    {
        match ConfigBuilder::from_embedded() {
            Ok(b) => Ok(b.build()),
            Err(e) => Err(e),
        }
    }

    /// A minimal configuration over one resource directory: the default
    /// dictionary and character-definition names, and the default
    /// out-of-vocabulary plugin block.
    pub fn minimal_at(resource_dir: String) -> (r: Self)
        ensures
            r@.anchor == seq![ResolverView::FileSystem(resource_dir@)],
            r@.system_dict == DEFAULT_DICT_FILE@,
            r@.user_dicts == Seq::<Seq<char>>::empty(),
            r@.character_definition_file == DEFAULT_CHAR_DEF_FILE@,
            r@.connection_cost_plugins == Seq::<serde_json::Value>::empty(),
            r@.input_text_plugins == Seq::<serde_json::Value>::empty(),
            r@.path_rewrite_plugins == Seq::<serde_json::Value>::empty(),
            r@.projection == SurfaceProjection::Surface,
            is_valid_json(default_oov_bytes()) ==> r@.oov_provider_plugins == seq![
                json_value_of(default_oov_bytes()),
            ],
            !is_valid_json(default_oov_bytes()) ==> r@.oov_provider_plugins == Seq::<
                serde_json::Value,
            >::empty(),
    {
        let mut oov: Vec<serde_json::Value> = Vec::new();
        match parse_json(DEFAULT_OOV_TEXT.as_bytes()) {
            Ok(v) => {
                oov.push(v);
            },
            Err(_) => {},
        }
        let r = Config {
            anchor: PathAnchor::new_filesystem(resource_dir),
            system_dict: String::from_str(DEFAULT_DICT_FILE),
            user_dicts: Vec::new(),
            character_definition_file: String::from_str(DEFAULT_CHAR_DEF_FILE),
            connection_cost_plugins: Vec::new(),
            input_text_plugins: Vec::new(),
            oov_provider_plugins: oov,
            path_rewrite_plugins: Vec::new(),
            projection: SurfaceProjection::Surface,
        };
        proof {
            assert(r@.user_dicts =~= Seq::<Seq<char>>::empty());
            if is_valid_json(default_oov_bytes()) {
                assert(r@.oov_provider_plugins =~= seq![json_value_of(default_oov_bytes())]);
            } else {
                assert(r@.oov_provider_plugins =~= Seq::<serde_json::Value>::empty());
            }
        }
        r
    }

    /// The same configuration with the system dictionary set to `system`.
    pub fn with_system_dic(self, system: String) -> (r: Self)
        ensures
            r@ == (ConfigView { system_dict: system@, ..self@ }),
    {
        let mut this = self;
        this.system_dict = system;
        this
    }

    /// Expand the symbolic tokens `$exe` and `$cfg` in `path`, as
    /// [`spec_resolve_paths`] describes.  `$exe/<rest>` becomes two
    /// candidates under the executable's directory (`exe_dir`, supplied by
    /// the caller); `$cfg/<rest>` becomes one candidate per filesystem root
    /// of the anchor; any other path is returned unchanged, alone.
    pub fn resolve_paths(&self, path: String, exe_dir: &str) -> (r: Vec<String>)
        ensures
            r.deep_view() == spec_resolve_paths(self@.anchor, exe_dir@, path@),
    {
        let n = path.as_str().unicode_len();
        if str_has_prefix(path.as_str(), "$exe") {
            proof {
                reveal_strlit("$exe");
            }
            let rest = path.as_str().substring_char(4, n);
            let mut deps_path = String::from_str(exe_dir);
            deps_path.append("/deps");
            deps_path.append(rest);
            let mut plain_path = String::from_str(exe_dir);
            plain_path.append(rest);
            let mut out: Vec<String> = Vec::new();
            out.push(deps_path);
            out.push(plain_path);
            proof {
                reveal_strlit("/deps");
                assert(rest@ =~= path@.skip(4));
                assert(out.deep_view() =~= spec_resolve_paths(self@.anchor, exe_dir@, path@));
            }
            return out;
        }
        if str_has_prefix(path.as_str(), "$cfg/") || str_has_prefix(path.as_str(), "$cfg\\") {
            proof {
                reveal_strlit("$cfg/");
                reveal_strlit("$cfg\\");
            }
            let rest = path.as_str().substring_char(5, n);
            proof {
                assert(rest@ =~= path@.skip(5));
            }
            let roots = self.anchor.filesystem_roots();
            let ghost root_views = spec_filesystem_roots(self@.anchor);
            let mut out: Vec<String> = Vec::new();
            let mut i: usize = 0;
            while i < roots.len()
                invariant
                    i <= roots@.len(),
                    roots.deep_view() == root_views,
                    root_views.len() == roots@.len(),
                    rest@ == path@.skip(5),
                    out@.len() == i,
                    forall|j: int| 0 <= j < i ==> out@[j]@ == spec_join(root_views[j], path@.skip(5)),
                decreases roots@.len() - i,
            {
                proof {
                    assert(roots.deep_view()[i as int] == roots@[i as int]@);
                }
                out.push(join_path(roots[i].as_str(), rest));
                i += 1;
            }
            proof {
                assert(out.deep_view() =~= cfg_expansion(root_views, path@.skip(5)));
            }
            return out;
        }
        let mut out: Vec<String> = Vec::new();
        out.push(path);
        proof {
            assert(out.deep_view() =~= spec_resolve_paths(self@.anchor, exe_dir@, out@[0]@));
        }
        out
    }

    /// Resolve a possibly relative path: an absolute path stays as it is; a
    /// relative path is joined against the anchor's filesystem roots and the
    /// first existing join wins; a path that exists relative to the current
    /// working directory is kept; otherwise every candidate is reported in a
    /// resolution failure.
    pub fn complete_path(&self, file_path: String) -> (r: Result<String, ConfigError>)
        ensures
            is_absolute(file_path@) ==> (r matches Ok(p) && p@ == file_path@),
            match r {
                Ok(p) => p@ == file_path@ || (exists|i: int|
                    0 <= i < spec_filesystem_roots(self@.anchor).len() && p@ == spec_join(
                        spec_filesystem_roots(self@.anchor)[i],
                        file_path@,
                    )),
                Err(e) => !is_absolute(file_path@) && is_resolution_failure_for(
                    e,
                    self@.anchor,
                    file_path@,
                ),
            },
    {
        if path_is_absolute(file_path.as_str()) {
            return Ok(file_path);
        }
        match self.anchor.first_existing_path(file_path.as_str()) {
            Some(p) => {
                proof {
                    let i = choose|i: int|
                        0 <= i < spec_filesystem_roots(self@.anchor).len() && p@ == spec_join(
                            spec_filesystem_roots(self@.anchor)[i],
                            file_path@,
                        );
                    assert(0 <= i < spec_filesystem_roots(self@.anchor).len() && p@ == spec_join(
                        spec_filesystem_roots(self@.anchor)[i],
                        file_path@,
                    ));
                }
                return Ok(p);
            },
            None => {},
        }
        if path_exists(file_path.as_str()) {
            return Ok(file_path);
        }
        Err(self.anchor.resolution_failure(file_path.as_str()))
    }

    /// Resolve a logical name to a data source against the anchor.
    pub fn resolve(&self, path: &str) -> (r: Result<DataSource, ConfigError>)
        ensures
            match r {
                Ok(ds) => found_at(candidates_of(self@.anchor, path@), ds@),
                Err(e) => all_file_candidates(candidates_of(self@.anchor, path@))
                    && is_resolution_failure_for(e, self@.anchor, path@),
            },
    {
        self.anchor.resolve(path)
    }

    /// Resolve the system dictionary as a data source.
    pub fn resolved_system_dict(&self) -> (r: Result<DataSource, ConfigError>)
        ensures
            match r {
                Ok(ds) => found_at(candidates_of(self@.anchor, self@.system_dict), ds@),
                Err(e) => all_file_candidates(candidates_of(self@.anchor, self@.system_dict))
                    && is_resolution_failure_for(e, self@.anchor, self@.system_dict),
            },
    {
        self.resolve(self.system_dict.as_str())
    }

    /// Resolve every user dictionary, in order, stopping at the first
    /// failure.
    pub fn resolved_user_dicts(&self) -> (r: Result<Vec<DataSource>, ConfigError>)
        ensures
            match r {
                Ok(out) => out@.len() == self@.user_dicts.len() && (forall|i: int|
                    0 <= i < out@.len() ==> found_at(
                        candidates_of(self@.anchor, self@.user_dicts[i]),
                        out@[i]@,
                    )),
                Err(e) => exists|i: int|
                    0 <= i < self@.user_dicts.len() && all_file_candidates(
                        candidates_of(self@.anchor, self@.user_dicts[i]),
                    ) && is_resolution_failure_for(e, self@.anchor, self@.user_dicts[i]),
            },
    {
        let mut out: Vec<DataSource> = Vec::new();
        let mut i: usize = 0;
        while i < self.user_dicts.len()
            invariant
                i <= self.user_dicts@.len(),
                self@.user_dicts == self.user_dicts.deep_view(),
                self@.user_dicts.len() == self.user_dicts@.len(),
                out@.len() == i,
                forall|j: int|
                    0 <= j < i ==> found_at(
                        candidates_of(self@.anchor, self@.user_dicts[j]),
                        out@[j]@,
                    ),
            decreases self.user_dicts@.len() - i,
        {
            proof {
                assert(self.user_dicts.deep_view()[i as int] == self.user_dicts@[i as int]@);
            }
            match self.resolve(self.user_dicts[i].as_str()) {
                Ok(ds) => {
                    out.push(ds);
                },
                Err(e) => {
                    return Err(e);
                },
            }
            i += 1;
        }
        Ok(out)
    }

    /// Resolve the character-definition file as a data source.
    pub fn resolved_char_category(&self) -> (r: Result<DataSource, ConfigError>)
        ensures
            match r {
                Ok(ds) => found_at(
                    candidates_of(self@.anchor, self@.character_definition_file),
                    ds@,
                ),
                Err(e) => all_file_candidates(
                    candidates_of(self@.anchor, self@.character_definition_file),
                ) && is_resolution_failure_for(e, self@.anchor, self@.character_definition_file),
            },
    {
        self.resolve(self.character_definition_file.as_str())
    }
}

} // verus!
