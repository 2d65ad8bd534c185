use meilisearch_bridge::handle::Handle;
use meilisearch_bridge::engine::{
    check_base_path, check_index_absent, check_index_present, creation_settings, handle_primary_key,
    open_mode, visible_index_names, IndexDirEntry, OpenMode, ENV_MAP_SIZE,
};
use meilisearch_bridge::errors::BridgeErrorCode;
use meilisearch_bridge::node::{Exports, VENDORED_MEILISEARCH_VERSION};

fn entry(name: Option<&str>, is_dir: bool) -> IndexDirEntry {
    IndexDirEntry { name: name.map(|s| s.to_string()), is_dir }
}

#[test]
fn hidden_entries_and_files_are_not_indexes() {
    let names = visible_index_names(&vec![
        entry(Some("movies"), true),
        entry(Some(".tasks"), true),
        entry(Some("notes.txt"), false),
        entry(None, true),
        entry(Some("books"), true),
    ]);
    assert_eq!(names, vec!["movies".to_string(), "books".to_string()]);
}

#[test]
fn base_path_must_be_a_directory() {
    assert!(check_base_path("/data", true).is_ok());
    let e = check_base_path("/nope", false).unwrap_err();
    assert_eq!(e.code, BridgeErrorCode::InvalidArgument);
    assert_eq!(e.message, "base_path is not an existing directory: /nope");
}

#[test]
fn creating_an_existing_index_is_refused() {
    assert!(check_index_absent("movies", "/d/movies", false).is_ok());
    let e = check_index_absent("movies", "/d/movies", true).unwrap_err();
    assert_eq!(e.code, BridgeErrorCode::IndexAlreadyExists);
    assert_eq!(e.message, "Index \"movies\" already exists at \"/d/movies\"");
}

#[test]
fn deleting_a_missing_index_is_refused() {
    assert!(check_index_present("movies", true).is_ok());
    let e = check_index_present("mo\"vies", false).unwrap_err();
    assert_eq!(e.code, BridgeErrorCode::IndexNotFound);
    assert_eq!(e.message, "Index \"mo\\\"vies\" does not exist");
}

#[test]
fn existing_directories_are_opened() {
    assert_eq!(open_mode(true), OpenMode::Open);
    assert_eq!(open_mode(false), OpenMode::Create);
    assert_eq!(ENV_MAP_SIZE, 4 * 1024 * 1024 * 1024);
    assert_eq!(VENDORED_MEILISEARCH_VERSION, "1.48.3");
    let _ = Exports { _phantom: () };
}

#[test]
fn a_disposed_handle_refuses_use() {
    let mut h = Handle::new(17u32);
    assert!(!h.disposed());
    assert_eq!(*h.acquire().unwrap(), 17);
    h.dispose();
    assert!(h.disposed());
    let e = h.acquire().unwrap_err();
    assert_eq!(e.code, BridgeErrorCode::Disposed);
    h.dispose();
    assert!(h.acquire().is_err());
}

#[test]
fn the_index_path_is_quoted_as_a_path() {
    let e = check_index_absent("o'k", "/d/o'k\tx", true).unwrap_err();
    let expected = format!("Index {:?} already exists at {:?}", "o'k", std::path::Path::new("/d/o'k\tx"));
    assert_eq!(e.message, expected);
}

#[test]
fn a_new_index_starts_with_its_primary_key() {
    let s = creation_settings("id");
    assert_eq!(s.primary_key.as_deref(), Some("id"));
    assert!(s.searchable_attributes.is_none() && s.displayed_attributes.is_none());
    assert!(s.filterable_attributes.is_none() && s.sortable_attributes.is_none());
}

#[test]
fn the_requested_primary_key_is_ignored_for_an_existing_index() {
    assert_eq!(handle_primary_key(false, Some("id".into()), None), Some("id".to_string()));
    assert_eq!(handle_primary_key(true, Some("id".into()), Some("sku".into())), Some("sku".to_string()));
    assert_eq!(handle_primary_key(true, Some("id".into()), None), None);
}
