//! Tests for the resolver chain, data sources and storage.

use sudachi::config::anchor::{
    EmbeddedAnchor, FileSystemAnchor, PathAnchor, PathResolver, DEFAULT_CHAR_DEF_TEXT,
    DEFAULT_SETTING_TEXT, EMBEDDED_NO_MATCH_TEXT,
};
use sudachi::config::error::ConfigError;
use sudachi::config::source::DataSource;
use sudachi::dic::storage::{Storage, SudachiDicData};
use sudachi::split_mode::SentenceSplitMode;

#[test]
fn embedded_candidate_serves_only_the_table() {
    let embedded = PathResolver::Embedded(EmbeddedAnchor::new());
    assert_eq!(
        embedded.candidate("char.def"),
        Some(DataSource::Borrowed(DEFAULT_CHAR_DEF_TEXT.as_bytes()))
    );
    assert_eq!(
        embedded.candidate("sudachi.json"),
        Some(DataSource::Borrowed(DEFAULT_SETTING_TEXT.as_bytes()))
    );
    assert!(embedded.candidate("rewrite.def").is_some());
    assert!(embedded.candidate("unk.def").is_some());
    assert_eq!(embedded.candidate("no-such-resource"), None);
    assert_eq!(embedded.candidate("CHAR.DEF"), None);
    assert_eq!(embedded.candidate(""), None);
}

#[test]
fn filesystem_candidate_always_joins_root() {
    let fs = PathResolver::FileSystem(FileSystemAnchor::new("root".to_owned()));
    assert_eq!(
        fs.candidate("definitely/not/existing.bin"),
        Some(DataSource::File("root/definitely/not/existing.bin".to_owned()))
    );
    let cwd = PathResolver::FileSystem(FileSystemAnchor::new_cwd());
    assert_eq!(
        cwd.candidate("name.dic"),
        Some(DataSource::File("name.dic".to_owned()))
    );
}

#[test]
fn default_anchor_resolves_embedded_resources_first() {
    let anchor = PathAnchor::new_default();
    let resolved = anchor.resolve("char.def").unwrap();
    assert_eq!(
        resolved,
        DataSource::Borrowed(DEFAULT_CHAR_DEF_TEXT.as_bytes())
    );
}

#[test]
fn resolution_failure_lists_every_candidate() {
    let mut anchor = PathAnchor::new_embedded();
    anchor.push(PathResolver::FileSystem(FileSystemAnchor::new(
        "some-root".to_owned(),
    )));
    match anchor.resolve("neither.here") {
        Err(ConfigError::PathResolution(query, cands)) => {
            assert_eq!(query, "neither.here");
            assert_eq!(cands.len(), 2);
            assert_eq!(cands[0], EMBEDDED_NO_MATCH_TEXT);
            assert_eq!(cands[1], "some-root/neither.here");
        }
        other => panic!("expected PathResolution, got {:?}", other),
    }
}

#[test]
fn append_searches_own_chain_first() {
    let mut first = PathAnchor::new_filesystem("first-root".to_owned());
    let mut second = PathAnchor::new_default();
    first.append(&mut second);
    assert_eq!(first.filesystem_roots().len(), 2);
    // the embedded resolver arrived with the appended chain, after the
    // caller's filesystem resolver; the caller's candidate comes first
    let cands = first.all_candidates("char.def");
    assert_eq!(cands.len(), 3);
    assert_eq!(cands[0], DataSource::File("first-root/char.def".to_owned()));
    assert_eq!(
        cands[1],
        DataSource::Borrowed(DEFAULT_CHAR_DEF_TEXT.as_bytes())
    );
    assert_eq!(cands[2], DataSource::File("char.def".to_owned()));
}

#[test]
fn append_preserves_resolution_order() {
    let mut combined = PathAnchor::new_embedded();
    let mut fallback = PathAnchor::new_cwd();
    combined.append(&mut fallback);
    // "char.def" is available both from the embedded table and (possibly) on
    // disk: the first chain's candidate wins
    let resolved = combined.resolve("char.def").unwrap();
    assert_eq!(
        resolved,
        DataSource::Borrowed(DEFAULT_CHAR_DEF_TEXT.as_bytes())
    );
    assert_eq!(fallback.filesystem_roots().len(), 0);
}

#[test]
fn all_candidates_skips_resolvers_without_candidate() {
    let anchor = PathAnchor::new_default();
    let cands = anchor.all_candidates("not-embedded.bin");
    assert_eq!(cands, vec![DataSource::File("not-embedded.bin".to_owned())]);
}

#[test]
fn empty_anchor_resolves_nothing() {
    let anchor = PathAnchor::empty();
    match anchor.resolve("anything") {
        Err(ConfigError::PathResolution(query, cands)) => {
            assert_eq!(query, "anything");
            assert!(cands.is_empty());
        }
        other => panic!("expected PathResolution, got {:?}", other),
    }
    assert!(anchor.all_candidates("anything").is_empty());
}

#[test]
fn can_resolve_embedded_names() {
    let anchor = PathAnchor::new_embedded();
    assert!(anchor.can_resolve("unk.def"));
    assert!(!anchor.can_resolve("missing.bin"));
}

#[test]
fn first_existing_finds_files_on_disk() {
    // "/" always exists; an empty root keeps the queried path unchanged
    let anchor = PathAnchor::new_cwd();
    assert_eq!(
        anchor.first_existing("/"),
        Some(DataSource::File("/".to_owned()))
    );
    assert_eq!(anchor.first_existing("/no-such-file.xyz"), None);
    assert_eq!(anchor.first_existing_path("/"), Some("/".to_owned()));
}

#[test]
fn data_source_presence() {
    assert!(DataSource::Borrowed(b"abc").is_present());
    assert!(DataSource::Owned(vec![1, 2, 3]).is_present());
    assert!(DataSource::File("/".to_owned()).is_present());
    assert!(!DataSource::File("/no-such-file.xyz".to_owned()).is_present());
}

#[test]
fn flat_resolver_joins_roots_in_order() {
    let mut resolver = sudachi::config::resolver::PathResolver::with_capacity(2);
    resolver.add("r1".to_owned());
    resolver.add("r2".to_owned());
    assert!(resolver.contains("r1"));
    assert!(!resolver.contains("r3"));
    assert_eq!(
        resolver.all_candidates("f.dic"),
        vec!["r1/f.dic".to_owned(), "r2/f.dic".to_owned()]
    );
    assert_eq!(resolver.roots(), &vec!["r1".to_owned(), "r2".to_owned()]);
    match resolver.resolution_failure("f.dic") {
        ConfigError::PathResolution(query, cands) => {
            assert_eq!(query, "f.dic");
            assert_eq!(cands, vec!["r1/f.dic".to_owned(), "r2/f.dic".to_owned()]);
        }
        other => panic!("expected PathResolution, got {:?}", other),
    }
    assert_eq!(resolver.first_existing("f.dic"), None);
}

#[test]
fn flat_resolver_finds_existing_roots() {
    let mut resolver = sudachi::config::resolver::PathResolver::with_capacity(2);
    resolver.add("no-such-dir".to_owned());
    resolver.add("".to_owned());
    assert_eq!(resolver.first_existing("/"), Some("/".to_owned()));
}

#[test]
fn storage_borrowed_and_owned_agree_on_bytes() {
    let content: &'static [u8] = b"binary dictionary content \x00\x01\x02";
    let borrowed = Storage::Borrowed(content);
    let owned = Storage::Owned(content.to_vec());
    assert_eq!(borrowed.as_bytes(), content);
    assert_eq!(owned.as_bytes(), content);
    assert_eq!(borrowed.as_bytes(), owned.as_bytes());
}

#[test]
fn storage_from_loaded_sources() {
    let from_borrowed = Storage::try_from_loaded(DataSource::Borrowed(b"xy")).unwrap();
    assert_eq!(from_borrowed.as_bytes(), b"xy");
    let from_owned = Storage::try_from_loaded(DataSource::Owned(vec![9, 8])).unwrap();
    assert_eq!(from_owned.as_bytes(), &[9, 8]);
    match Storage::try_from_loaded(DataSource::File("p.dic".to_owned())) {
        Err(ds) => assert_eq!(ds, DataSource::File("p.dic".to_owned())),
        Ok(_) => panic!("a file source must be handed back for mapping"),
    }
}

#[test]
fn dictionary_data_keeps_storage_order() {
    let mut data = SudachiDicData::new(Storage::Owned(b"system".to_vec()));
    assert_eq!(data.system(), b"system");
    assert_eq!(data.user_count(), 0);
    data.add_user(Storage::Owned(b"user-a".to_vec()));
    data.add_user(Storage::Borrowed(b"user-b"));
    assert_eq!(data.user_count(), 2);
    assert_eq!(data.user(0), b"user-a");
    assert_eq!(data.user(1), b"user-b");
    assert_eq!(data.system(), b"system");
}

#[test]
fn split_mode_tokens() {
    assert_eq!(
        SentenceSplitMode::parse_mode("yes").unwrap(),
        SentenceSplitMode::Default
    );
    assert_eq!(
        SentenceSplitMode::parse_mode("default").unwrap(),
        SentenceSplitMode::Default
    );
    assert_eq!(
        SentenceSplitMode::parse_mode("no").unwrap(),
        SentenceSplitMode::NoSplit
    );
    assert_eq!(
        SentenceSplitMode::parse_mode("none").unwrap(),
        SentenceSplitMode::NoSplit
    );
    assert_eq!(
        SentenceSplitMode::parse_mode("only").unwrap(),
        SentenceSplitMode::Only
    );
    assert!(SentenceSplitMode::parse_mode("sometimes").is_err());
    assert_eq!(SentenceSplitMode::default(), SentenceSplitMode::Default);
}

#[test]
fn join_path_inserts_one_separator() {
    assert_eq!(sudachi::config::paths::join_path("root", "x"), "root/x");
    assert_eq!(sudachi::config::paths::join_path("", "x"), "x");
}
