//! A partially-specified configuration and its layered merge.
//!
//! A [`ConfigBuilder`] mirrors the raw configuration document: every field is
//! independently optional, and absence means "inherit from fallback".
//! Builders merge with [`ConfigBuilder::fallback`] (self wins, field by
//! field) and finalize with [`ConfigBuilder::build`], which substitutes
//! defaults for absent fields.

use vstd::prelude::*;
use vstd::string::StringSliceAdditionalSpecFns;

use crate::config::anchor::{PathAnchor, ResolverView};
use crate::config::error::ConfigError;
use crate::config::json::{
    field_of, is_object, is_valid_json, items_of, json_as_array, json_as_str, json_clone,
    json_error_message, json_get, json_is_object, json_value_of, parse_json, str_of,
};
use crate::config::paths::spec_join;
use crate::config::projection::{parse_projection, SurfaceProjection};
use crate::config::{
    Config, ConfigView, DEFAULT_CHAR_DEF_FILE, DEFAULT_DICT_FILE, DEFAULT_SETTING_FILE,
};

verus! {

/// Directory of bundled resource files, kept for compatibility: resources
/// are now compiled into the binary.
pub fn default_resource_dir() -> (r: String)
    ensures
        r@ == "resources"@,
{
    String::from_str("resources")
}

/// Location of the bundled settings document, kept for compatibility: the
/// default settings are now compiled into the binary.
pub fn default_config_location() -> (r: String)
    ensures
        r@ == spec_join("resources"@, DEFAULT_SETTING_FILE@),
{
    crate::config::paths::join_path("resources", DEFAULT_SETTING_FILE)
}

/// The mathematical value of a [`ConfigBuilder`]: each optional field, and
/// the anchor chain.
pub struct BuilderView {
    pub anchor: Seq<ResolverView>,
    pub path: Option<Seq<char>>,
    pub system_dict: Option<Seq<char>>,
    pub user_dicts: Option<Seq<Seq<char>>>,
    pub character_definition_file: Option<Seq<char>>,
    pub connection_cost_plugins: Option<Seq<serde_json::Value>>,
    pub input_text_plugins: Option<Seq<serde_json::Value>>,
    pub oov_provider_plugins: Option<Seq<serde_json::Value>>,
    pub path_rewrite_plugins: Option<Seq<serde_json::Value>>,
    pub projection: Option<SurfaceProjection>,
}

/// The view of an optional string.
pub open spec fn opt_str_view(o: Option<String>) -> Option<Seq<char>> {
    match o {
        Some(s) => Some(s@),
        None => None,
    }
}

/// The view of an optional list of strings.
pub open spec fn opt_str_list_view(o: Option<Vec<String>>) -> Option<Seq<Seq<char>>> {
    match o {
        Some(v) => Some(v.deep_view()),
        None => None,
    }
}

/// The view of an optional list of opaque plugin-configuration values.
pub open spec fn opt_values_view(o: Option<Vec<serde_json::Value>>) -> Option<
    Seq<serde_json::Value>,
> {
    match o {
        Some(v) => Some(v@),
        None => None,
    }
}

/// The first of two optional values that is present, if any: the merge rule
/// of one field.
pub open spec fn or_opt<T>(a: Option<T>, b: Option<T>) -> Option<T> {
    if a is Some {
        a
    } else {
        b
    }
}

/// A raw configuration record: every scalar field is independently optional.
#[allow(non_snake_case)]
#[derive(Debug)]
pub struct ConfigBuilder {
    /// Paths inside the document are resolved against this anchor.
    pub anchor: PathAnchor,
    /// A legacy single override directory, prepended to the anchor on build.
    pub path: Option<String>,
    pub systemDict: Option<String>,
    pub userDict: Option<Vec<String>>,
    pub characterDefinitionFile: Option<String>,
    pub connectionCostPlugin: Option<Vec<serde_json::Value>>,
    pub inputTextPlugin: Option<Vec<serde_json::Value>>,
    pub oovProviderPlugin: Option<Vec<serde_json::Value>>,
    pub pathRewritePlugin: Option<Vec<serde_json::Value>>,
    pub projection: Option<SurfaceProjection>,
}

impl View for ConfigBuilder {
    type V = BuilderView;

    open spec fn view(&self) -> BuilderView {
        BuilderView {
            anchor: self.anchor@,
            path: opt_str_view(self.path),
            system_dict: opt_str_view(self.systemDict),
            user_dicts: opt_str_list_view(self.userDict),
            character_definition_file: opt_str_view(self.characterDefinitionFile),
            connection_cost_plugins: opt_values_view(self.connectionCostPlugin),
            input_text_plugins: opt_values_view(self.inputTextPlugin),
            oov_provider_plugins: opt_values_view(self.oovProviderPlugin),
            path_rewrite_plugins: opt_values_view(self.pathRewritePlugin),
            projection: self.projection,
        }
    }
}

/// The builder with nothing set over the given anchor chain.
pub open spec fn empty_builder_view(anchor: Seq<ResolverView>) -> BuilderView {
    BuilderView {
        anchor: anchor,
        path: None,
        system_dict: None,
        user_dicts: None,
        character_definition_file: None,
        connection_cost_plugins: None,
        input_text_plugins: None,
        oov_provider_plugins: None,
        path_rewrite_plugins: None,
        projection: None,
    }
}

// --- what the configuration document denotes, over the parsed JSON value ---
/// The value of `key1`, or of the alias `key2` where `key1` is absent.
pub open spec fn aliased_field(v: serde_json::Value, key1: Seq<char>, key2: Seq<char>) -> Option<
    serde_json::Value,
> {
    match field_of(v, key1) {
        Some(f) => Some(f),
        None => field_of(v, key2),
    }
}

/// An optional field holds a string, or is absent.
pub open spec fn opt_field_is_str(f: Option<serde_json::Value>) -> bool {
    match f {
        Some(x) => str_of(x) is Some,
        None => true,
    }
}

/// The characters of an optional string field.
pub open spec fn opt_field_str(f: Option<serde_json::Value>) -> Option<Seq<char>> {
    match f {
        Some(x) => str_of(x),
        None => None,
    }
}

/// Every element of a JSON array is a string.
pub open spec fn items_are_strings(items: Seq<serde_json::Value>) -> bool {
    forall|i: int| 0 <= i < items.len() ==> str_of(items[i]) is Some
}

/// The characters of each element of a JSON array of strings.
pub open spec fn items_strings(items: Seq<serde_json::Value>) -> Seq<Seq<char>> {
    Seq::new(
        items.len(),
        |i: int|
            match str_of(items[i]) {
                Some(s) => s,
                None => Seq::empty(),
            },
    )
}

/// An optional field holds an array of strings, or is absent.
pub open spec fn opt_field_is_str_array(f: Option<serde_json::Value>) -> bool {
    match f {
        Some(x) => match items_of(x) {
            Some(items) => items_are_strings(items),
            None => false,
        },
        None => true,
    }
}

/// The strings of an optional array-of-strings field.
pub open spec fn opt_field_str_array(f: Option<serde_json::Value>) -> Option<Seq<Seq<char>>> {
    match f {
        Some(x) => match items_of(x) {
            Some(items) => Some(items_strings(items)),
            None => None,
        },
        None => None,
    }
}

/// An optional field holds an array, or is absent.
pub open spec fn opt_field_is_array(f: Option<serde_json::Value>) -> bool {
    match f {
        Some(x) => items_of(x) is Some,
        None => true,
    }
}

/// The elements of an optional array field.
pub open spec fn opt_field_array(f: Option<serde_json::Value>) -> Option<Seq<serde_json::Value>> {
    match f {
        Some(x) => items_of(x),
        None => None,
    }
}

/// An optional field holds one of the seven projection tokens, or is absent.
pub open spec fn opt_field_is_projection(f: Option<serde_json::Value>) -> bool {
    match f {
        Some(x) => match str_of(x) {
            Some(s) => parse_projection(s) is Some,
            None => false,
        },
        None => true,
    }
}

/// The projection of an optional projection field.
pub open spec fn opt_field_projection(f: Option<serde_json::Value>) -> Option<SurfaceProjection> {
    match f {
        Some(x) => match str_of(x) {
            Some(s) => parse_projection(s),
            None => None,
        },
        None => None,
    }
}

/// The document is well formed: every known key that is present holds a
/// value of the expected shape.  Unknown keys are ignored.
pub open spec fn doc_well_formed(v: serde_json::Value) -> bool {
    &&& is_object(v)
    &&& opt_field_is_str(field_of(v, "path"@))
    &&& opt_field_is_str(aliased_field(v, "systemDict"@, "system"@))
    &&& opt_field_is_str_array(aliased_field(v, "userDict"@, "user"@))
    &&& opt_field_is_str(field_of(v, "characterDefinitionFile"@))
    &&& opt_field_is_array(field_of(v, "connectionCostPlugin"@))
    &&& opt_field_is_array(field_of(v, "inputTextPlugin"@))
    &&& opt_field_is_array(field_of(v, "oovProviderPlugin"@))
    &&& opt_field_is_array(field_of(v, "pathRewritePlugin"@))
    &&& opt_field_is_projection(field_of(v, "projection"@))
}

/// The builder a well-formed document denotes, anchored at `anchor`.
pub open spec fn builder_of_doc(v: serde_json::Value, anchor: Seq<ResolverView>) -> BuilderView {
    BuilderView {
        anchor: anchor,
        path: opt_field_str(field_of(v, "path"@)),
        system_dict: opt_field_str(aliased_field(v, "systemDict"@, "system"@)),
        user_dicts: opt_field_str_array(aliased_field(v, "userDict"@, "user"@)),
        character_definition_file: opt_field_str(field_of(v, "characterDefinitionFile"@)),
        connection_cost_plugins: opt_field_array(field_of(v, "connectionCostPlugin"@)),
        input_text_plugins: opt_field_array(field_of(v, "inputTextPlugin"@)),
        oov_provider_plugins: opt_field_array(field_of(v, "oovProviderPlugin"@)),
        path_rewrite_plugins: opt_field_array(field_of(v, "pathRewritePlugin"@)),
        projection: opt_field_projection(field_of(v, "projection"@)),
    }
}

/// The bytes of the compiled-in default settings document.
pub open spec fn embedded_setting_bytes() -> Seq<u8> {
    crate::config::anchor::DEFAULT_SETTING_TEXT.spec_bytes()
}

/// The default anchor chain: embedded resources, then the current working
/// directory.
pub open spec fn default_anchor_view() -> Seq<ResolverView> {
    seq![ResolverView::Embedded, ResolverView::FileSystem(Seq::<char>::empty())]
}

// --- private helpers over the parsed document ---
/// A copy of an optional string.
fn clone_opt_string(o: &Option<String>) -> (r: Option<String>)
    ensures
        r == *o,
{
    match o {
        Some(s) => Some(s.clone()),
        None => None,
    }
}

/// A copy of a list of opaque plugin values.
pub(crate) fn clone_values(v: &Vec<serde_json::Value>) -> (r: Vec<serde_json::Value>)
    ensures
        r@ == v@,
{
    let mut out: Vec<serde_json::Value> = Vec::new();
    let mut i: usize = 0;
    while i < v.len()
        invariant
            i <= v@.len(),
            out@ == v@.subrange(0, i as int),
        decreases v@.len() - i,
    {
        out.push(json_clone(&v[i]));
        assert(out@ =~= v@.subrange(0, i + 1));
        i += 1;
    }
    assert(out@ =~= v@);
    out
}

/// A copy of an optional list of strings, equal at the view level.
fn clone_opt_string_list(o: &Option<Vec<String>>) -> (r: Option<Vec<String>>)
    ensures
        opt_str_list_view(r) == opt_str_list_view(*o),
{
    match o {
        Some(v) => {
            let mut out: Vec<String> = Vec::new();
            let mut i: usize = 0;
            while i < v.len()
                invariant
                    i <= v@.len(),
                    out@.len() == i,
                    forall|j: int| 0 <= j < i ==> out@[j]@ == v@[j]@,
                decreases v@.len() - i,
            {
                out.push(v[i].clone());
                i += 1;
            }
            proof {
                assert(out.deep_view() =~= v.deep_view());
            }
            Some(out)
        },
        None => None,
    }
}

/// A copy of an optional list of plugin values, equal at the view level.
fn clone_opt_values(o: &Option<Vec<serde_json::Value>>) -> (r: Option<Vec<serde_json::Value>>)
    ensures
        opt_values_view(r) == opt_values_view(*o),
{
    match o {
        Some(v) => Some(clone_values(v)),
        None => None,
    }
}

/// An "invalid format" error whose message names the offending key.
fn bad_field_error(what: &str, key: &str) -> (r: ConfigError)
    ensures
        r is InvalidFormat,
{
    let mut msg = String::from_str(what);
    msg.append(key);
    ConfigError::InvalidFormat(msg)
}

/// Read an optional string field.
fn read_str_field(v: &serde_json::Value, key: &str) -> (r: Result<Option<String>, ConfigError>)
    ensures
        match r {
            Ok(o) => opt_field_is_str(field_of(*v, key@)) && opt_str_view(o) == opt_field_str(
                field_of(*v, key@),
            ),
            Err(e) => !opt_field_is_str(field_of(*v, key@)) && e is InvalidFormat,
        },
{
    match json_get(v, key) {
        None => Ok(None),
        Some(f) => match json_as_str(f) {
            Some(s) => Ok(Some(s)),
            None => Err(bad_field_error("config field does not hold a string: ", key)),
        },
    }
}

/// Read an optional string field under its primary key or its alias.
fn read_aliased_str_field(v: &serde_json::Value, key1: &str, key2: &str) -> (r: Result<
    Option<String>,
    ConfigError,
>)
    ensures
        match r {
            Ok(o) => opt_field_is_str(aliased_field(*v, key1@, key2@)) && opt_str_view(o)
                == opt_field_str(aliased_field(*v, key1@, key2@)),
            Err(e) => !opt_field_is_str(aliased_field(*v, key1@, key2@)) && e is InvalidFormat,
        },
{
    match json_get(v, key1) {
        Some(f) => match json_as_str(f) {
            Some(s) => Ok(Some(s)),
            None => Err(bad_field_error("config field does not hold a string: ", key1)),
        },
        None => read_str_field(v, key2),
    }
}

/// Read a JSON array of strings into a list of strings.
fn read_string_items(f: &serde_json::Value, key: &str) -> (r: Result<Vec<String>, ConfigError>)
    ensures
        match r {
            Ok(out) => items_of(*f) matches Some(items) && items_are_strings(items)
                && out.deep_view() == items_strings(items),
            Err(e) => (items_of(*f) is None || !items_are_strings(items_of(*f)->0)) && e
                is InvalidFormat,
        },
{
    match json_as_array(f) {
        None => Err(bad_field_error("config field does not hold an array: ", key)),
        Some(arr) => {
            let ghost items = items_of(*f)->0;
            let mut out: Vec<String> = Vec::new();
            let mut i: usize = 0;
            while i < arr.len()
                invariant
                    i <= arr@.len(),
                    items_of(*f) == Some(arr@),
                    items == arr@,
                    out@.len() == i,
                    forall|j: int| 0 <= j < i ==> str_of(items[j]) is Some,
                    forall|j: int| 0 <= j < i ==> out@[j]@ == str_of(items[j])->0,
                decreases arr@.len() - i,
            {
                match json_as_str(&arr[i]) {
                    Some(s) => {
                        out.push(s);
                    },
                    None => {
                        return Err(
                            bad_field_error("config array element is not a string: ", key),
                        );
                    },
                }
                i += 1;
            }
            proof {
                assert(out.deep_view() =~= items_strings(items));
            }
            Ok(out)
        },
    }
}

/// Read the optional user-dictionary list under `userDict` or `user`.
fn read_user_dicts(v: &serde_json::Value) -> (r: Result<Option<Vec<String>>, ConfigError>)
    ensures
        match r {
            Ok(o) => opt_field_is_str_array(aliased_field(*v, "userDict"@, "user"@))
                && opt_str_list_view(o) == opt_field_str_array(
                aliased_field(*v, "userDict"@, "user"@),
            ),
            Err(e) => !opt_field_is_str_array(aliased_field(*v, "userDict"@, "user"@)) && e
                is InvalidFormat,
        },
{
    let field = match json_get(v, "userDict") {
        Some(f) => Some(f),
        None => json_get(v, "user"),
    };
    match field {
        None => Ok(None),
        Some(f) => match read_string_items(f, "userDict") {
            Ok(out) => Ok(Some(out)),
            Err(e) => Err(e),
        },
    }
}

/// Read an optional array field of opaque plugin values.
fn read_values_field(v: &serde_json::Value, key: &str) -> (r: Result<
    Option<Vec<serde_json::Value>>,
    ConfigError,
>)
    ensures
        match r {
            Ok(o) => opt_field_is_array(field_of(*v, key@)) && opt_values_view(o)
                == opt_field_array(field_of(*v, key@)),
            Err(e) => !opt_field_is_array(field_of(*v, key@)) && e is InvalidFormat,
        },
{
    match json_get(v, key) {
        None => Ok(None),
        Some(f) => match json_as_array(f) {
            Some(arr) => Ok(Some(clone_values(arr))),
            None => Err(bad_field_error("config field does not hold an array: ", key)),
        },
    }
}

/// Read the optional projection token.
fn read_projection(v: &serde_json::Value) -> (r: Result<Option<SurfaceProjection>, ConfigError>)
    ensures
        match r {
            Ok(o) => opt_field_is_projection(field_of(*v, "projection"@)) && o
                == opt_field_projection(field_of(*v, "projection"@)),
            Err(e) => !opt_field_is_projection(field_of(*v, "projection"@)) && e is InvalidFormat,
        },
{
    match json_get(v, "projection") {
        None => Ok(None),
        Some(f) => match json_as_str(f) {
            None => Err(bad_field_error("config field does not hold a string: ", "projection")),
            Some(s) => match SurfaceProjection::try_from(s.as_str()) {
                Ok(p) => Ok(Some(p)),
                Err(e) => Err(e),
            },
        },
    }
}

impl Clone for ConfigBuilder {
    fn clone(&self) -> (r: Self)
        ensures
            r@ == self@,
    {
        ConfigBuilder {
            anchor: self.anchor.clone(),
            path: clone_opt_string(&self.path),
            systemDict: clone_opt_string(&self.systemDict),
            userDict: clone_opt_string_list(&self.userDict),
            characterDefinitionFile: clone_opt_string(&self.characterDefinitionFile),
            connectionCostPlugin: clone_opt_values(&self.connectionCostPlugin),
            inputTextPlugin: clone_opt_values(&self.inputTextPlugin),
            oovProviderPlugin: clone_opt_values(&self.oovProviderPlugin),
            pathRewritePlugin: clone_opt_values(&self.pathRewritePlugin),
            projection: self.projection,
        }
    }
}

impl ConfigBuilder {
    /// The empty builder: nothing set, over an empty anchor.
    pub fn empty() -> (r: Self)
        ensures
            r@ == empty_builder_view(Seq::<ResolverView>::empty()),
    {
        ConfigBuilder {
            anchor: PathAnchor::empty(),
            path: None,
            systemDict: None,
            userDict: None,
            characterDefinitionFile: None,
            connectionCostPlugin: None,
            inputTextPlugin: None,
            oovProviderPlugin: None,
            pathRewritePlugin: None,
            projection: None,
        }
    }

    /// Parse a configuration document from a parsed JSON value, anchored at
    /// `anchor`.  Succeeds exactly when the document is well formed.
    fn from_value(v: &serde_json::Value, anchor: PathAnchor) -> (r: Result<Self, ConfigError>)
        ensures
            r is Ok <==> doc_well_formed(*v),
            r matches Ok(b) ==> b@ == builder_of_doc(*v, anchor@),
            r matches Err(e) ==> e is InvalidFormat,
    {
        if !json_is_object(v) {
            return Err(
                ConfigError::InvalidFormat(
                    String::from_str("config document is not a JSON object"),
                ),
            );
        }
        let path = match read_str_field(v, "path") {
            Ok(o) => o,
            Err(e) => {
                return Err(e);
            },
        };
        let system_dict = match read_aliased_str_field(v, "systemDict", "system") {
            Ok(o) => o,
            Err(e) => {
                return Err(e);
            },
        };
        let user_dicts = match read_user_dicts(v) {
            Ok(o) => o,
            Err(e) => {
                return Err(e);
            },
        };
        let char_def = match read_str_field(v, "characterDefinitionFile") {
            Ok(o) => o,
            Err(e) => {
                return Err(e);
            },
        };
        let connection_cost = match read_values_field(v, "connectionCostPlugin") {
            Ok(o) => o,
            Err(e) => {
                return Err(e);
            },
        };
        let input_text = match read_values_field(v, "inputTextPlugin") {
            Ok(o) => o,
            Err(e) => {
                return Err(e);
            },
        };
        let oov_provider = match read_values_field(v, "oovProviderPlugin") {
            Ok(o) => o,
            Err(e) => {
                return Err(e);
            },
        };
        let path_rewrite = match read_values_field(v, "pathRewritePlugin") {
            Ok(o) => o,
            Err(e) => {
                return Err(e);
            },
        };
        let projection = match read_projection(v) {
            Ok(o) => o,
            Err(e) => {
                return Err(e);
            },
        };
        Ok(
            ConfigBuilder {
                anchor,
                path,
                systemDict: system_dict,
                userDict: user_dicts,
                characterDefinitionFile: char_def,
                connectionCostPlugin: connection_cost,
                inputTextPlugin: input_text,
                oovProviderPlugin: oov_provider,
                pathRewritePlugin: path_rewrite,
                projection,
            },
        )
    }

    /// Read a configuration document from bytes and anchor it at `anchor`.
    /// Succeeds exactly when the bytes are valid JSON and the document is
    /// well formed.
    pub fn from_bytes_and_anchor(data: &[u8], anchor: PathAnchor) -> (r: Result<Self, ConfigError>)
        ensures
            r is Ok <==> is_valid_json(data@) && doc_well_formed(json_value_of(data@)),
            r matches Ok(b) ==> b@ == builder_of_doc(json_value_of(data@), anchor@),
            r matches Err(e) ==> (if is_valid_json(data@) {
                e is InvalidFormat
            } else {
                e is JsonParse
            }),
    {
        match parse_json(data) {
            Ok(v) => Self::from_value(&v, anchor),
            Err(e) => Err(ConfigError::JsonParse(json_error_message(&e))),
        }
    }

    /// Read a configuration document from bytes, anchored at the current
    /// working directory.
    pub fn from_bytes(data: &[u8]) -> (r: Result<Self, ConfigError>)
        ensures
            r is Ok <==> is_valid_json(data@) && doc_well_formed(json_value_of(data@)),
            r matches Ok(b) ==> b@ == builder_of_doc(
                json_value_of(data@),
                seq![ResolverView::FileSystem(Seq::<char>::empty())],
            ),
            r matches Err(e) ==> (if is_valid_json(data@) {
                e is InvalidFormat
            } else {
                e is JsonParse
            }),
    {
        Self::from_bytes_and_anchor(data, PathAnchor::new_cwd())
    }

    /// Load the compiled-in default settings document, anchored at the
    /// default chain.  The embedded resolver stands first in that chain and
    /// always serves the settings document, so no disk access happens.
    pub fn from_embedded() -> (r: Result<Self, ConfigError>)
        ensures
            r is Ok <==> is_valid_json(embedded_setting_bytes()) && doc_well_formed(
                json_value_of(embedded_setting_bytes()),
            ),
            r matches Ok(b) ==> b@ == builder_of_doc(
                json_value_of(embedded_setting_bytes()),
                default_anchor_view(),
            ),
            r matches Err(e) ==> (if is_valid_json(embedded_setting_bytes()) {
                e is InvalidFormat
            } else {
                e is JsonParse
            }),
    {
        let anchor = PathAnchor::new_default();
        let source = anchor.resolve(DEFAULT_SETTING_FILE);
        proof {
            reveal_strlit("sudachi.json");
            reveal_strlit("char.def");
            reveal_strlit("rewrite.def");
            reveal_strlit("unk.def");
            let vs = anchor@;
            let p = DEFAULT_SETTING_FILE@;
            assert(p != DEFAULT_CHAR_DEF_FILE@);
            assert(p != crate::config::DEFAULT_REWRITE_DEF_FILE@);
            assert(p != crate::config::DEFAULT_UNK_DEF_FILE@);
            assert(crate::config::anchor::embedded_bytes_for(p) == Some(embedded_setting_bytes()));
            let emb = seq![ResolverView::Embedded];
            assert(vs.drop_last() =~= emb);
            assert(emb.drop_last() =~= Seq::<ResolverView>::empty());
            assert(crate::config::anchor::candidates_of(Seq::<ResolverView>::empty(), p)
                =~= Seq::<crate::config::source::SourceView>::empty());
            assert(crate::config::anchor::candidates_of(emb, p) =~= seq![
                crate::config::source::SourceView::Borrowed(embedded_setting_bytes()),
            ]);
            assert(crate::config::anchor::candidates_of(vs, p) =~= seq![
                crate::config::source::SourceView::Borrowed(embedded_setting_bytes()),
                crate::config::source::SourceView::File(p),
            ]);
        }
        match source {
            Ok(ds) => match ds {
                crate::config::source::DataSource::Borrowed(b) => Self::from_bytes_and_anchor(
                    b,
                    anchor,
                ),
                crate::config::source::DataSource::File(_) => {
                    proof {
                        assert(false);
                    }
                    Err(ConfigError::InvalidFormat(String::new()))
                },
                crate::config::source::DataSource::Owned(_) => {
                    proof {
                        assert(false);
                    }
                    Err(ConfigError::InvalidFormat(String::new()))
                },
            },
            Err(_) => {
                proof {
                    assert(false);
                }
                Err(ConfigError::InvalidFormat(String::new()))
            },
        }
    }

    /// Replace the anchor with the provided one.
    pub fn with_anchor(self, anchor: PathAnchor) -> (r: Self)
        ensures
            r@ == (BuilderView { anchor: anchor@, ..self@ }),
    {
        ConfigBuilder { anchor, ..self }
    }

    /// Append the provided chain after the current one, draining it.
    pub fn append_anchor(self, anchor: &mut PathAnchor) -> (r: Self)
        ensures
            r@ == (BuilderView { anchor: self@.anchor + old(anchor)@, ..self@ }),
            final(anchor)@ == Seq::<ResolverView>::empty(),
    {
        let mut this = self;
        this.anchor.append(anchor);
        this
    }

    /// Set the system dictionary path.
    pub fn system_dict(self, dict: String) -> (r: Self)
        ensures
            r@ == (BuilderView { system_dict: Some(dict@), ..self@ }),
    {
        let mut this = self;
        this.systemDict = Some(dict);
        this
    }

    /// Push one user dictionary path.  Prefer [`ConfigBuilder::add_user_dict`].
    pub fn user_dict(self, dict: String) -> (r: Self)
        ensures
            r@ == (BuilderView {
                user_dicts: Some(
                    match self@.user_dicts {
                        Some(s) => s.push(dict@),
                        None => seq![dict@],
                    },
                ),
                ..self@
            }),
    {
        self.add_user_dict(dict)
    }

    /// Push one user dictionary path after the current ones.
    pub fn add_user_dict(self, dict: String) -> (r: Self)
        ensures
            r@ == (BuilderView {
                user_dicts: Some(
                    match self@.user_dicts {
                        Some(s) => s.push(dict@),
                        None => seq![dict@],
                    },
                ),
                ..self@
            }),
    {
        let mut this = self;
        let mut dicts = match this.userDict {
            Some(d) => d,
            None => Vec::new(),
        };
        let ghost before = dicts.deep_view();
        dicts.push(dict);
        proof {
            assert(dicts.deep_view() =~= before.push(dicts@[dicts@.len() - 1]@));
            match this@.user_dicts {
                Some(_) => {},
                None => {
                    assert(dicts.deep_view() =~= seq![dicts@[dicts@.len() - 1]@]);
                },
            }
        }
        this.userDict = Some(dicts);
        this
    }

    /// Clear the user dictionary list.
    pub fn clear_user_dict(self) -> (r: Self)
        ensures
            r@ == (BuilderView { user_dicts: None, ..self@ }),
    {
        let mut this = self;
        this.userDict = None;
        this
    }

    /// Finalize the builder into an immutable [`Config`], substituting
    /// defaults for absent fields, as [`spec_build`] describes.  Never fails.
    pub fn build(self) -> (r: Config)
        ensures
            r@ == spec_build(self@),
    {
        let ghost input = self@;
        let ConfigBuilder {
            mut anchor,
            path,
            systemDict,
            userDict,
            characterDefinitionFile,
            connectionCostPlugin,
            inputTextPlugin,
            oovProviderPlugin,
            pathRewritePlugin,
            projection,
        } = self;
        let anchor = match path {
            Some(p) => {
                let mut prepended = PathAnchor::new_filesystem(p);
                prepended.append(&mut anchor);
                prepended
            },
            None => anchor,
        };
        let r = Config {
            anchor,
            system_dict: match systemDict {
                Some(s) => s,
                None => String::from_str(DEFAULT_DICT_FILE),
            },
            user_dicts: match userDict {
                Some(d) => d,
                None => Vec::new(),
            },
            character_definition_file: match characterDefinitionFile {
                Some(s) => s,
                None => String::from_str(DEFAULT_CHAR_DEF_FILE),
            },
            connection_cost_plugins: match connectionCostPlugin {
                Some(p) => p,
                None => Vec::new(),
            },
            input_text_plugins: match inputTextPlugin {
                Some(p) => p,
                None => Vec::new(),
            },
            oov_provider_plugins: match oovProviderPlugin {
                Some(p) => p,
                None => Vec::new(),
            },
            path_rewrite_plugins: match pathRewritePlugin {
                Some(p) => p,
                None => Vec::new(),
            },
            projection: match projection {
                Some(p) => p,
                None => SurfaceProjection::Surface,
            },
        };
        proof {
            assert(r@.anchor =~= spec_build(input).anchor);
            if input.user_dicts is None {
                assert(r@.user_dicts =~= Seq::<Seq<char>>::empty());
            }
        }
        r
    }

    /// Merge another builder under this one: for every field, keep this
    /// builder's value when present, else take the other's; the anchors are
    /// concatenated with this builder's resolvers searched first.
    pub fn fallback(self, other: &ConfigBuilder) -> (r: ConfigBuilder)
        ensures
            r@ == spec_fallback(self@, other@),
    {
        let mut this = self;
        let mut other_anchor = other.anchor.clone();
        this.anchor.append(&mut other_anchor);
        if this.path.is_none() {
            this.path = clone_opt_string(&other.path);
        }
        if this.systemDict.is_none() {
            this.systemDict = clone_opt_string(&other.systemDict);
        }
        if this.userDict.is_none() {
            this.userDict = clone_opt_string_list(&other.userDict);
        }
        if this.characterDefinitionFile.is_none() {
            this.characterDefinitionFile = clone_opt_string(&other.characterDefinitionFile);
        }
        if this.connectionCostPlugin.is_none() {
            this.connectionCostPlugin = clone_opt_values(&other.connectionCostPlugin);
        }
        if this.inputTextPlugin.is_none() {
            this.inputTextPlugin = clone_opt_values(&other.inputTextPlugin);
        }
        if this.oovProviderPlugin.is_none() {
            this.oovProviderPlugin = clone_opt_values(&other.oovProviderPlugin);
        }
        if this.pathRewritePlugin.is_none() {
            this.pathRewritePlugin = clone_opt_values(&other.pathRewritePlugin);
        }
        if this.projection.is_none() {
            this.projection = other.projection;
        }
        this
    }
}

/// The configuration a builder finalizes to: the `path` override, when
/// present, is prepended to the anchor as a filesystem resolver, and every
/// absent field gets its default.
pub open spec fn spec_build(b: BuilderView) -> ConfigView {
    ConfigView {
        anchor: match b.path {
            Some(p) => seq![ResolverView::FileSystem(p)] + b.anchor,
            None => b.anchor,
        },
        system_dict: match b.system_dict {
            Some(s) => s,
            None => DEFAULT_DICT_FILE@,
        },
        user_dicts: match b.user_dicts {
            Some(s) => s,
            None => Seq::empty(),
        },
        character_definition_file: match b.character_definition_file {
            Some(s) => s,
            None => DEFAULT_CHAR_DEF_FILE@,
        },
        connection_cost_plugins: match b.connection_cost_plugins {
            Some(s) => s,
            None => Seq::empty(),
        },
        input_text_plugins: match b.input_text_plugins {
            Some(s) => s,
            None => Seq::empty(),
        },
        oov_provider_plugins: match b.oov_provider_plugins {
            Some(s) => s,
            None => Seq::empty(),
        },
        path_rewrite_plugins: match b.path_rewrite_plugins {
            Some(s) => s,
            None => Seq::empty(),
        },
        projection: match b.projection {
            Some(p) => p,
            None => SurfaceProjection::Surface,
        },
    }
}

/// The field-by-field merge of two builders: `a` wins wherever it has a
/// value; the anchors concatenate with `a`'s resolvers first.
pub open spec fn spec_fallback(a: BuilderView, b: BuilderView) -> BuilderView {
    BuilderView {
        anchor: a.anchor + b.anchor,
        path: or_opt(a.path, b.path),
        system_dict: or_opt(a.system_dict, b.system_dict),
        user_dicts: or_opt(a.user_dicts, b.user_dicts),
        character_definition_file: or_opt(
            a.character_definition_file,
            b.character_definition_file,
        ),
        connection_cost_plugins: or_opt(a.connection_cost_plugins, b.connection_cost_plugins),
        input_text_plugins: or_opt(a.input_text_plugins, b.input_text_plugins),
        oov_provider_plugins: or_opt(a.oov_provider_plugins, b.oov_provider_plugins),
        path_rewrite_plugins: or_opt(a.path_rewrite_plugins, b.path_rewrite_plugins),
        projection: or_opt(a.projection, b.projection),
    }
}

/// The fallback merge is associative: however a chain of merges is
/// parenthesized, the merged builder is the same, so for any field the
/// leftmost set value wins.
pub proof fn lemma_fallback_assoc(a: BuilderView, b: BuilderView, c: BuilderView)
    ensures
        spec_fallback(spec_fallback(a, b), c) == spec_fallback(a, spec_fallback(b, c)),
{
    assert(spec_fallback(spec_fallback(a, b), c).anchor =~= spec_fallback(
        a,
        spec_fallback(b, c),
    ).anchor);
}

} // verus!
