//! Tests for configuration loading, merging and symbolic path expansion.

use sudachi::config::builder::{default_config_location, default_resource_dir, ConfigBuilder};
use sudachi::config::error::ConfigError;
use sudachi::config::projection::SurfaceProjection;
use sudachi::config::Config;

#[test]
fn resolve_exe() {
    let cfg = Config::new_embedded().unwrap();
    let exe_dir: &str = "/opt/sudachi/bin";
    let npath = cfg.resolve_paths("$exe/data".to_owned(), exe_dir);
    assert_eq!(npath.len(), 2);
    assert!(npath[0].starts_with(exe_dir));
}

#[test]
fn resolve_cfg() {
    let cfg = Config::new_embedded().unwrap();
    let npath = cfg.resolve_paths("$cfg/data".to_owned(), "/opt/sudachi/bin");
    let path_dir: &str = "data";
    assert_eq!(1, npath.len());
    assert!(npath[0] == path_dir);
}

#[test]
fn config_builder_fallback() {
    let mut cfg = ConfigBuilder::empty();
    cfg.path = Some("test".into());
    let cfg2 = ConfigBuilder::empty();
    let cfg2 = cfg2.fallback(&cfg);
    assert_eq!(cfg2.path, Some("test".into()));
}

#[test]
fn surface_projection_tryfrom() {
    assert_eq!(
        SurfaceProjection::Surface,
        SurfaceProjection::try_from("surface").unwrap()
    );
}

#[test]
fn resolve_exe_exact_candidates() {
    let cfg = Config::new_embedded().unwrap();
    let npath = cfg.resolve_paths("$exe/data".to_owned(), "/opt");
    assert_eq!(npath, vec!["/opt/deps/data".to_owned(), "/opt/data".to_owned()]);
}

#[test]
fn resolve_cfg_two_roots_in_order() {
    let mut anchor = sudachi::config::anchor::PathAnchor::new_filesystem("r1".to_owned());
    anchor.push(sudachi::config::anchor::PathResolver::FileSystem(
        sudachi::config::anchor::FileSystemAnchor::new("r2".to_owned()),
    ));
    let cfg = ConfigBuilder::empty().with_anchor(anchor).build();
    let npath = cfg.resolve_paths("$cfg/data".to_owned(), "/opt");
    assert_eq!(npath, vec!["r1/data".to_owned(), "r2/data".to_owned()]);
}

#[test]
fn resolve_cfg_no_roots_is_empty() {
    let anchor = sudachi::config::anchor::PathAnchor::new_embedded();
    let cfg = ConfigBuilder::empty().with_anchor(anchor).build();
    let npath = cfg.resolve_paths("$cfg/data".to_owned(), "/opt");
    assert!(npath.is_empty());
}

#[test]
fn resolve_cfg_accepts_backslash_style() {
    let cfg = Config::new_embedded().unwrap();
    let npath = cfg.resolve_paths("$cfg\\data".to_owned(), "/opt");
    assert_eq!(npath, vec!["data".to_owned()]);
}

#[test]
fn resolve_paths_plain_path_unchanged() {
    let cfg = Config::new_embedded().unwrap();
    let npath = cfg.resolve_paths("plain/path.dic".to_owned(), "/opt");
    assert_eq!(npath, vec!["plain/path.dic".to_owned()]);
}

#[test]
fn fallback_leftmost_wins() {
    let mut a = ConfigBuilder::empty();
    a.path = Some("a".into());
    let mut b = ConfigBuilder::empty();
    b.path = Some("b".into());
    let merged = a.fallback(&b);
    assert_eq!(merged.path, Some("a".into()));
}

#[test]
fn fallback_takes_other_when_absent() {
    let a = ConfigBuilder::empty();
    let mut b = ConfigBuilder::empty();
    b.path = Some("x".into());
    let merged = a.fallback(&b);
    assert_eq!(merged.path, Some("x".into()));
}

#[test]
fn fallback_merges_every_field() {
    let a = ConfigBuilder::empty().system_dict("sd".to_owned());
    let mut b = ConfigBuilder::empty().add_user_dict("u1".to_owned());
    b.projection = Some(SurfaceProjection::Reading);
    let merged = a.fallback(&b);
    assert_eq!(merged.systemDict, Some("sd".to_owned()));
    assert_eq!(merged.userDict, Some(vec!["u1".to_owned()]));
    assert_eq!(merged.projection, Some(SurfaceProjection::Reading));
}

#[test]
fn surface_projection_all_seven_tokens() {
    let cases = vec![
        ("surface", SurfaceProjection::Surface),
        ("normalized", SurfaceProjection::Normalized),
        ("reading", SurfaceProjection::Reading),
        ("dictionary", SurfaceProjection::Dictionary),
        ("dictionary_and_surface", SurfaceProjection::DictionaryAndSurface),
        ("normalized_and_surface", SurfaceProjection::NormalizedAndSurface),
        ("normalized_nouns", SurfaceProjection::NormalizedNouns),
    ];
    for (token, expected) in cases {
        assert_eq!(expected, SurfaceProjection::try_from(token).unwrap());
    }
}

#[test]
fn surface_projection_rejects_unknown_tokens() {
    for bad in ["bogus", "Surface", "SURFACE", "surface ", ""] {
        match SurfaceProjection::try_from(bad) {
            Err(ConfigError::InvalidFormat(msg)) => {
                assert_eq!(msg, format!("unknown projection: {}", bad));
            }
            other => panic!("expected InvalidFormat, got {:?}", other),
        }
    }
}

#[test]
fn required_subset_per_projection() {
    assert_eq!(SurfaceProjection::Surface.required_subset().bits, 0);
    assert_eq!(
        SurfaceProjection::Normalized.required_subset().bits,
        sudachi::dic::subset::NORMALIZED_FORM_BIT
    );
    assert_eq!(
        SurfaceProjection::Reading.required_subset().bits,
        sudachi::dic::subset::READING_FORM_BIT
    );
    assert_eq!(
        SurfaceProjection::Dictionary.required_subset().bits,
        sudachi::dic::subset::DIC_FORM_WORD_ID_BIT
    );
    assert_eq!(
        SurfaceProjection::DictionaryAndSurface.required_subset().bits,
        sudachi::dic::subset::DIC_FORM_WORD_ID_BIT
    );
    assert_eq!(
        SurfaceProjection::NormalizedAndSurface.required_subset().bits,
        sudachi::dic::subset::NORMALIZED_FORM_BIT
    );
    assert_eq!(
        SurfaceProjection::NormalizedNouns.required_subset().bits,
        sudachi::dic::subset::NORMALIZED_FORM_BIT
    );
}

#[test]
fn builder_from_bytes_reads_fields() {
    let doc = br#"{
        "path": "override",
        "systemDict": "system.dic",
        "userDict": ["u1.dic", "u2.dic"],
        "characterDefinitionFile": "chars.def",
        "projection": "reading",
        "unknownKeysAreIgnored": 42
    }"#;
    let b = ConfigBuilder::from_bytes(doc).unwrap();
    assert_eq!(b.path, Some("override".to_owned()));
    assert_eq!(b.systemDict, Some("system.dic".to_owned()));
    assert_eq!(b.userDict, Some(vec!["u1.dic".to_owned(), "u2.dic".to_owned()]));
    assert_eq!(b.characterDefinitionFile, Some("chars.def".to_owned()));
    assert_eq!(b.projection, Some(SurfaceProjection::Reading));
}

#[test]
fn builder_from_bytes_accepts_aliases() {
    let doc = br#"{ "system": "s.dic", "user": ["u.dic"] }"#;
    let b = ConfigBuilder::from_bytes(doc).unwrap();
    assert_eq!(b.systemDict, Some("s.dic".to_owned()));
    assert_eq!(b.userDict, Some(vec!["u.dic".to_owned()]));
}

#[test]
fn builder_from_bytes_rejects_invalid_json() {
    match ConfigBuilder::from_bytes(b"{ not json") {
        Err(ConfigError::JsonParse(_)) => {}
        other => panic!("expected JsonParse, got {:?}", other),
    }
}

#[test]
fn builder_from_bytes_rejects_wrong_field_type() {
    match ConfigBuilder::from_bytes(br#"{ "systemDict": 5 }"#) {
        Err(ConfigError::InvalidFormat(_)) => {}
        other => panic!("expected InvalidFormat, got {:?}", other),
    }
    match ConfigBuilder::from_bytes(br#"{ "userDict": "not-a-list" }"#) {
        Err(ConfigError::InvalidFormat(_)) => {}
        other => panic!("expected InvalidFormat, got {:?}", other),
    }
    match ConfigBuilder::from_bytes(br#"{ "projection": "bogus" }"#) {
        Err(ConfigError::InvalidFormat(_)) => {}
        other => panic!("expected InvalidFormat, got {:?}", other),
    }
}

#[test]
fn builder_reads_plugin_blocks_verbatim() {
    let doc = br#"{ "oovProviderPlugin": [ { "class": "x", "cost": 1 }, { "class": "y" } ] }"#;
    let b = ConfigBuilder::from_bytes(doc).unwrap();
    let plugins = b.oovProviderPlugin.as_ref().unwrap();
    assert_eq!(plugins.len(), 2);
    let expected: serde_json::Value =
        serde_json::from_str(r#"{ "class": "x", "cost": 1 }"#).unwrap();
    assert_eq!(plugins[0], expected);
    let cfg = b.build();
    assert_eq!(cfg.oov_provider_plugins.len(), 2);
    assert_eq!(cfg.oov_provider_plugins[0], expected);
}

#[test]
fn build_substitutes_defaults() {
    let cfg = ConfigBuilder::empty().build();
    assert_eq!(cfg.system_dict, "system_core.dic");
    assert_eq!(cfg.character_definition_file, "char.def");
    assert!(cfg.user_dicts.is_empty());
    assert!(cfg.connection_cost_plugins.is_empty());
    assert_eq!(cfg.projection, SurfaceProjection::Surface);
}

#[test]
fn build_prepends_path_override_to_anchor() {
    let mut b = ConfigBuilder::empty();
    b.path = Some("override".to_owned());
    let cfg = b.build();
    let roots = cfg.anchor.filesystem_roots();
    assert_eq!(roots, vec!["override".to_owned()]);
}

#[test]
fn builder_setters_are_visible_to_build() {
    let cfg = ConfigBuilder::empty()
        .system_dict("sd.dic".to_owned())
        .add_user_dict("u1.dic".to_owned())
        .add_user_dict("u2.dic".to_owned())
        .build();
    assert_eq!(cfg.system_dict, "sd.dic");
    assert_eq!(cfg.user_dicts, vec!["u1.dic".to_owned(), "u2.dic".to_owned()]);
    let cleared = ConfigBuilder::empty()
        .add_user_dict("u.dic".to_owned())
        .clear_user_dict()
        .build();
    assert!(cleared.user_dicts.is_empty());
}

#[test]
fn config_new_gives_explicit_args_priority() {
    let doc = br#"{ "systemDict": "from_file.dic" }"#;
    let b = ConfigBuilder::from_bytes(doc).unwrap();
    let cfg = Config::new(Some(b), Some("resdir".to_owned()), Some("explicit.dic".to_owned()))
        .unwrap();
    assert_eq!(cfg.system_dict, "explicit.dic");
    assert_eq!(cfg.anchor.filesystem_roots()[0], "resdir");

    let b2 = ConfigBuilder::from_bytes(doc).unwrap();
    let cfg2 = Config::new(Some(b2), None, None).unwrap();
    assert_eq!(cfg2.system_dict, "from_file.dic");
}

#[test]
fn config_new_embedded_uses_defaults() {
    let cfg = Config::new(None, None, None).unwrap();
    assert_eq!(cfg.system_dict, "system_core.dic");
    assert_eq!(cfg.character_definition_file, "char.def");
    assert_eq!(cfg.projection, SurfaceProjection::Surface);
}

#[test]
fn minimal_at_sets_resource_dir_and_oov() {
    let cfg = Config::minimal_at("res".to_owned());
    assert_eq!(cfg.anchor.filesystem_roots(), vec!["res".to_owned()]);
    assert_eq!(cfg.system_dict, "system_core.dic");
    assert_eq!(cfg.character_definition_file, "char.def");
    assert_eq!(cfg.oov_provider_plugins.len(), 1);
    assert_eq!(
        cfg.oov_provider_plugins[0]["class"],
        serde_json::Value::String("com.worksap.nlp.sudachi.SimpleOovPlugin".to_owned())
    );
    assert!(cfg.user_dicts.is_empty());
}

#[test]
fn with_system_dic_overrides_dictionary() {
    let cfg = Config::minimal_at("res".to_owned()).with_system_dic("other.dic".to_owned());
    assert_eq!(cfg.system_dict, "other.dic");
}

#[test]
fn complete_path_keeps_absolute_paths() {
    let cfg = Config::new_embedded().unwrap();
    let done = cfg.complete_path("/absolute/path.dic".to_owned()).unwrap();
    assert_eq!(done, "/absolute/path.dic");
}

#[test]
fn complete_path_reports_all_candidates() {
    let anchor = sudachi::config::anchor::PathAnchor::new_filesystem("no-such-root".to_owned());
    let cfg = ConfigBuilder::empty().with_anchor(anchor).build();
    match cfg.complete_path("missing.dic".to_owned()) {
        Err(ConfigError::PathResolution(query, cands)) => {
            assert_eq!(query, "missing.dic");
            assert_eq!(cands, vec!["no-such-root/missing.dic".to_owned()]);
        }
        other => panic!("expected PathResolution, got {:?}", other),
    }
}

#[test]
fn from_embedded_uses_default_anchor() {
    let b = ConfigBuilder::from_embedded().unwrap();
    assert_eq!(b.systemDict, None);
    assert_eq!(b.path, None);
    // the default chain holds the embedded resolver and the working directory
    assert_eq!(b.anchor.filesystem_roots(), vec!["".to_owned()]);
}

#[test]
fn from_bytes_anchors_at_working_directory() {
    let b = ConfigBuilder::from_bytes(b"{}").unwrap();
    assert_eq!(b.anchor.filesystem_roots(), vec!["".to_owned()]);
}

#[test]
fn non_object_documents_are_rejected() {
    match ConfigBuilder::from_bytes(b"[1, 2]") {
        Err(ConfigError::InvalidFormat(_)) => {}
        other => panic!("expected InvalidFormat, got {:?}", other),
    }
    match ConfigBuilder::from_bytes(b"\"just a string\"") {
        Err(ConfigError::InvalidFormat(_)) => {}
        other => panic!("expected InvalidFormat, got {:?}", other),
    }
}

#[test]
fn json_parse_failure_carries_a_message() {
    match ConfigBuilder::from_bytes(b"[1, 2") {
        Err(ConfigError::JsonParse(msg)) => assert!(!msg.is_empty()),
        other => panic!("expected JsonParse, got {:?}", other),
    }
}

#[test]
fn default_locations_are_under_resources() {
    assert_eq!(default_resource_dir(), "resources");
    assert_eq!(default_config_location(), "resources/sudachi.json");
}
