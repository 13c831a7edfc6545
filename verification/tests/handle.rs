use hoard::db::Database;
use hoard::db::DatabaseBackend;

#[test]
fn locator_is_unknown_until_recorded_and_known_after() {
    let mut backend = DatabaseBackend::new("data/download.db");
    let mut db = backend.take_db();
    assert!(!db.check_for_url("https://x/1"));
    db.insert_url("https://x/1");
    assert!(db.check_for_url("https://x/1"));
    assert!(!db.check_for_url("https://x/2"));
    assert_eq!(db.backend.file, "data/download.db");
}

#[test]
fn every_handle_on_an_actor_works_on_its_one_store() {
    let mut backend = DatabaseBackend::new("db");
    {
        let mut first = backend.take_db();
        first.insert_url("u");
        first.update_new_downloads("src", "item", "loc");
    }
    assert_eq!(backend.store.urls().len(), 1);
    assert_eq!(backend.store.item_log().len(), 1);
    {
        let mut second = backend.take_db();
        assert!(second.check_for_url("u"));
        assert!(!second.check_for_url("v"));
        second.insert_url("v");
        second.update_new_downloads("src", "item", "loc");
    }
    let mut third = Database::new(&mut backend);
    assert!(third.check_for_url("u"));
    assert!(third.check_for_url("v"));
    assert_eq!(third.backend.store.urls().len(), 2);
    assert_eq!(third.backend.store.item_log().len(), 1);
}

#[test]
fn recording_twice_changes_no_answer() {
    let mut backend = DatabaseBackend::new("db");
    let mut db = Database::new(&mut backend);
    db.insert_url("u");
    db.insert_url("u");
    assert!(db.check_for_url("u"));
    assert_eq!(backend.store.urls().len(), 2);
}

#[test]
fn noting_an_item_twice_leaves_one_row() {
    let mut backend = DatabaseBackend::new("db");
    let mut db = backend.take_db();
    db.update_new_downloads("src", "item", "url");
    assert_eq!(db.backend.store.item_log().len(), 1);
    db.update_new_downloads("src", "item", "url");
    let rows = db.backend.store.item_log();
    assert_eq!(rows.len(), 1);
    assert_eq!(rows[0].source, "src");
    assert_eq!(rows[0].item_name, "item");
    assert_eq!(rows[0].item_url, "url");
    assert!(db.backend.store.urls().is_empty());
}

#[test]
fn noting_an_item_does_not_record_a_locator() {
    let mut backend = DatabaseBackend::new("db");
    let mut db = backend.take_db();
    db.update_new_downloads("src", "item", "url");
    assert!(!db.check_for_url("url"));
}
