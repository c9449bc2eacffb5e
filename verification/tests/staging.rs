use rusqlite::{Connection, OpenFlags};
use std::path::{Path, PathBuf};
use tempfile::TempDir;
use windows_browser_decrypt::instance::ChromeInstance;
use windows_browser_decrypt::item::ChromeItem;
use windows_browser_decrypt::user::ChromeUser;

/// A directory with exactly the given name under `parent`.
fn make_dir(parent: &Path, name: &str) -> PathBuf {
    tempfile::Builder::new()
        .prefix(name)
        .rand_bytes(0)
        .tempdir_in(parent)
        .unwrap()
        .keep()
}

/// A small database whose single row carries `marker`.
fn make_marker_db(path: &Path, marker: &str) {
    let conn = Connection::open(path).unwrap();
    conn.execute(
        "CREATE TABLE urls (url TEXT, title TEXT, visit_count INTEGER, last_visit_time INTEGER)",
        [],
    )
    .unwrap();
    conn.execute("INSERT INTO urls VALUES (?1, 'marker', 1, 1)", [marker]).unwrap();
}

/// Performs one staging copy of a database file.
fn copy_db(source: &str, dest: &str) -> Result<(), rusqlite::Error> {
    let conn = Connection::open_with_flags(source, OpenFlags::SQLITE_OPEN_READ_ONLY)?;
    conn.execute("VACUUM INTO ?1", [dest])?;
    Ok(())
}

fn marker_of(db: &str) -> String {
    let conn = Connection::open_with_flags(db, OpenFlags::SQLITE_OPEN_READ_ONLY).unwrap();
    conn.query_row("SELECT url FROM urls", [], |r| r.get(0)).unwrap()
}

#[test]
fn staging_is_idempotent_per_kind() {
    let mut u = ChromeUser::new(None, "/stage/p0".to_string());
    let c1 = u.add_item(ChromeItem::Cookies, "/inst/Default/Cookies");
    let c2 = u.add_item(ChromeItem::Cookies, "/inst/Default/Network/Cookies");
    assert_eq!(u.get_items().len(), 1);
    assert!(matches!(u.get_items()[0], ChromeItem::Cookies));
    assert_eq!(c1.dest, "/stage/p0/cookies");
    assert_eq!(c2.dest, c1.dest);
    assert_eq!(c2.source, "/inst/Default/Network/Cookies");
}

#[test]
fn staging_reflects_most_recent_successful_copy() {
    let srcs = TempDir::new().unwrap();
    let stage = TempDir::new().unwrap();
    let d1 = make_dir(srcs.path(), "a");
    let f1 = d1.join("History");
    make_marker_db(&f1, "reachable");
    let missing = srcs.path().join("held-open").join("History");

    let mut u = ChromeUser::new(None, stage.path().to_str().unwrap().to_string());
    let c1 = u.add_item(ChromeItem::History, missing.to_str().unwrap());
    assert!(copy_db(&c1.source, &c1.dest).is_err());
    let c2 = u.add_item(ChromeItem::History, f1.to_str().unwrap());
    assert_eq!(c2.dest, c1.dest);
    copy_db(&c2.source, &c2.dest).unwrap();

    assert_eq!(u.get_items().len(), 1);
    assert_eq!(marker_of(&c2.dest), "reachable");
}

#[test]
fn failed_copy_keeps_earlier_staged_bytes() {
    let srcs = TempDir::new().unwrap();
    let stage = TempDir::new().unwrap();
    let d1 = make_dir(srcs.path(), "a");
    let f1 = d1.join("History");
    make_marker_db(&f1, "good");

    let mut u = ChromeUser::new(None, stage.path().to_str().unwrap().to_string());
    let c1 = u.add_item(ChromeItem::History, f1.to_str().unwrap());
    copy_db(&c1.source, &c1.dest).unwrap();
    let c2 = u.add_item(ChromeItem::History, srcs.path().join("gone").join("History").to_str().unwrap());
    assert!(copy_db(&c2.source, &c2.dest).is_err());
    assert_eq!(marker_of(&c1.dest), "good");
    assert_eq!(u.get_items().len(), 1);
}

#[test]
fn network_cookies_fold_to_parent_profile() {
    let files = vec!["/inst/Profile 1/Network/Cookies".to_string()];
    let mut inst = ChromeInstance::new("/inst".to_string(), None, files);
    let copies = inst.load_users("/stage");
    assert_eq!(copies.len(), 1);
    assert_eq!(inst.users.len(), 1);
    assert_eq!(inst.users[0].0, "/inst/Profile 1");
    assert_eq!(copies[0].source, "/inst/Profile 1/Network/Cookies");
    assert_eq!(copies[0].dest, "/stage/p0/cookies");
}

#[test]
fn plain_cookies_stay_with_their_directory() {
    let files = vec!["/inst/Profile 1/Cookies".to_string()];
    let mut inst = ChromeInstance::new("/inst".to_string(), None, files);
    inst.load_users("/stage");
    assert_eq!(inst.users[0].0, "/inst/Profile 1");
}

#[test]
fn system_profile_is_skipped() {
    let files = vec![
        "/inst/System Profile/Login Data".to_string(),
        "/inst/System Profile/Network/Cookies".to_string(),
    ];
    let mut inst = ChromeInstance::new("/inst".to_string(), None, files);
    let copies = inst.load_users("/stage");
    assert_eq!(copies.len(), 0);
    assert_eq!(inst.users.len(), 0);
}

#[test]
fn walk_groups_profiles_and_skips_noise() {
    let files = vec![
        "/inst/Default/Login Data".to_string(),
        "/inst/Default/Cookies".to_string(),
        "/inst/Default/random.txt".to_string(),
        "/inst/Profile 1/History".to_string(),
        "/inst/Local State".to_string(),
    ];
    let mut inst = ChromeInstance::new("/inst".to_string(), None, files);
    let copies = inst.load_users("/stage");
    assert_eq!(copies.len(), 3);
    assert_eq!(inst.users.len(), 2);
    assert_eq!(inst.users[0].0, "/inst/Default");
    assert_eq!(inst.users[1].0, "/inst/Profile 1");
    assert_eq!(inst.users[0].1.get_items().len(), 2);
    assert_eq!(inst.users[1].1.get_items().len(), 1);
    assert_eq!(inst.users[0].1.tmp_dir, "/stage/p0");
    assert_eq!(inst.users[1].1.tmp_dir, "/stage/p1");
    let users = inst.get_users();
    assert_eq!(users.len(), 2);
    assert_eq!(users[0].tmp_dir, "/stage/p0");
}

#[test]
fn master_key_is_copied_to_each_profile() {
    let files = vec!["/inst/Default/History".to_string()];
    let key = vec![1u8, 2, 3];
    let mut inst = ChromeInstance::new("/inst".to_string(), Some(key.clone()), files);
    inst.load_users("/stage");
    assert_eq!(inst.users[0].1.master_key, Some(key));
}
