use aes_gcm::aead::Aead;
use aes_gcm::{Aes256Gcm, KeyInit};
use base64::engine::general_purpose;
use base64::Engine;
use rusqlite::{Connection, OpenFlags};
use std::path::{Path, PathBuf};
use tempfile::TempDir;
use windows_browser_decrypt::decrypt::{decrypt_value, finish_os_unwrap, DecryptedValue};
use windows_browser_decrypt::instance::ChromeInstance;
use windows_browser_decrypt::item::ChromeItem;
use windows_browser_decrypt::local_state::parse_local_state;
use windows_browser_decrypt::user::StagedCopy;

fn protect(key: &[u8; 32], nonce: &[u8; 12], plaintext: &str) -> Vec<u8> {
    let cipher = Aes256Gcm::new_from_slice(key).unwrap();
    let n = aes_gcm::aead::Nonce::<Aes256Gcm>::try_from(&nonce[..]).unwrap();
    let ct = cipher.encrypt(&n, plaintext.as_bytes()).unwrap();
    let mut buf = b"v10".to_vec();
    buf.extend_from_slice(nonce);
    buf.extend_from_slice(&ct);
    buf
}

/// A directory with exactly the given name under `parent`.
fn make_dir(parent: &Path, name: &str) -> PathBuf {
    tempfile::Builder::new()
        .prefix(name)
        .rand_bytes(0)
        .tempdir_in(parent)
        .unwrap()
        .keep()
}

fn walk_files(root: &Path) -> Vec<String> {
    walkdir::WalkDir::new(root)
        .follow_links(true)
        .sort_by_file_name()
        .into_iter()
        .filter_map(|e| e.ok())
        .filter(|e| e.file_type().is_file())
        .map(|e| e.path().to_string_lossy().into_owned())
        .collect()
}

/// Performs the staging copies the library asked for; every staged source
/// here is a database file, so the copy is a database copy. A source that
/// cannot be read leaves any earlier staged copy in place.
fn perform_copies(copies: &[StagedCopy]) {
    for c in copies {
        if let Some(parent) = Path::new(&c.dest).parent() {
            if !parent.exists() {
                let name = parent.file_name().unwrap().to_str().unwrap().to_string();
                make_dir(parent.parent().unwrap(), &name);
            }
        }
        let copied = Connection::open_with_flags(&c.source, OpenFlags::SQLITE_OPEN_READ_ONLY)
            .and_then(|conn| conn.execute("VACUUM INTO ?1", [&c.dest]).map(|_| ()));
        let _ = copied;
    }
}

fn decrypt_text(master_key: &Option<Vec<u8>>, blob: Vec<u8>) -> String {
    match decrypt_value(master_key.clone(), blob) {
        DecryptedValue::Text(s) => s,
        DecryptedValue::NeedsOsUnwrap(b) => finish_os_unwrap(fake_host_unwrap(b)),
    }
}

/// The stand-in for the host-bound unwrap primitive: it reverses the bytes
/// it is given, so a test can tell its output from its input.
fn fake_host_unwrap(mut b: Vec<u8>) -> Option<Vec<u8>> {
    b.reverse();
    Some(b)
}

#[test]
fn end_to_end_login_extraction() {
    let root = TempDir::new().unwrap();
    let inst_dir = make_dir(root.path(), "User Data");
    let profile_dir = make_dir(&inst_dir, "Default");

    // the state file's document, carrying the wrapped key; the test's host
    // unwraps by identity, so the wrapped bytes are the key itself
    let key = [0x42u8; 32];
    let mut blob = b"DPAPI".to_vec();
    blob.extend_from_slice(&key);
    let doc = format!(
        "{{\"os_crypt\":{{\"encrypted_key\":\"{}\"}}}}",
        general_purpose::STANDARD.encode(&blob)
    );
    let wrapped = parse_local_state(&doc).unwrap();
    assert_eq!(wrapped, key.to_vec());
    let master_key = Some(wrapped);

    let login_db = profile_dir.join("Login Data");
    let conn = Connection::open(&login_db).unwrap();
    conn.execute(
        "CREATE TABLE logins (origin_url TEXT, username_value TEXT, password_value BLOB, date_created INTEGER)",
        [],
    )
    .unwrap();
    conn.execute(
        "INSERT INTO logins VALUES (?1, ?2, ?3, ?4)",
        ("https://example.com", "alice", protect(&key, &[9u8; 12], "secret123"), 13300000000000i64),
    )
    .unwrap();
    drop(conn);

    let mut inst = ChromeInstance::new(
        inst_dir.to_string_lossy().into_owned(),
        master_key,
        walk_files(&inst_dir),
    );
    let stage = TempDir::new().unwrap();
    let copies = inst.load_users(stage.path().to_str().unwrap());
    perform_copies(&copies);

    let users = inst.get_users();
    assert_eq!(users.len(), 1);
    let u = &users[0];
    let staged = u.staged_path(&ChromeItem::LoginData);
    let conn = Connection::open_with_flags(&staged, OpenFlags::SQLITE_OPEN_READ_ONLY).unwrap();
    let mut stmt = conn
        .prepare("SELECT origin_url, username_value, password_value, date_created FROM logins")
        .unwrap();
    let rows: Vec<(String, String, Vec<u8>, i64)> = stmt
        .query_map([], |r| Ok((r.get(0)?, r.get(1)?, r.get(2)?, r.get(3)?)))
        .unwrap()
        .filter_map(|x| x.ok())
        .collect();
    assert_eq!(rows.len(), 1);
    assert_eq!(rows[0].0, "https://example.com");
    assert_eq!(rows[0].1, "alice");
    assert_eq!(rows[0].3, 13300000000000i64);
    let pwd = match decrypt_value(u.master_key.clone(), rows[0].2.clone()) {
        DecryptedValue::Text(s) => s,
        DecryptedValue::NeedsOsUnwrap(_) => panic!("a master key was present"),
    };
    assert_eq!(pwd, "secret123");
}

#[test]
fn missing_state_file_degrades_to_host_unwrap() {
    let root = TempDir::new().unwrap();
    let inst_dir = make_dir(root.path(), "User Data");
    let profile_dir = make_dir(&inst_dir, "Default");

    // no state file anywhere under the installation: the master key is None
    let master_key: Option<Vec<u8>> = None;

    // the raw cookie value reversed spells the expected text
    let raw: Vec<u8> = b"eulav".to_vec();
    let cookie_db = profile_dir.join("Cookies");
    let conn = Connection::open(&cookie_db).unwrap();
    conn.execute(
        "CREATE TABLE cookies (name TEXT, encrypted_value BLOB, host_key TEXT, path TEXT, \
         creation_utc INTEGER, expires_utc INTEGER, is_secure INTEGER, is_httponly INTEGER, \
         has_expires INTEGER, is_persistent INTEGER)",
        [],
    )
    .unwrap();
    conn.execute(
        "INSERT INTO cookies VALUES (?1, ?2, ?3, ?4, ?5, ?6, ?7, ?8, ?9, ?10)",
        ("sid", raw.clone(), ".example.com", "/", 1i64, 2i64, 1i64, 0i64, 1i64, 1i64),
    )
    .unwrap();
    drop(conn);

    let mut inst = ChromeInstance::new(
        inst_dir.to_string_lossy().into_owned(),
        master_key,
        walk_files(&inst_dir),
    );
    let stage = TempDir::new().unwrap();
    let copies = inst.load_users(stage.path().to_str().unwrap());
    perform_copies(&copies);

    let users = inst.get_users();
    assert_eq!(users.len(), 1);
    let u = &users[0];
    assert!(u.master_key.is_none());
    let staged = u.staged_path(&ChromeItem::Cookies);
    let conn = Connection::open_with_flags(&staged, OpenFlags::SQLITE_OPEN_READ_ONLY).unwrap();
    let mut stmt = conn.prepare("SELECT name, encrypted_value FROM cookies").unwrap();
    let rows: Vec<(String, Vec<u8>)> = stmt
        .query_map([], |r| Ok((r.get(0)?, r.get(1)?)))
        .unwrap()
        .filter_map(|x| x.ok())
        .collect();
    assert_eq!(rows.len(), 1);
    assert_eq!(rows[0].0, "sid");
    let value = decrypt_text(&u.master_key, rows[0].1.clone());
    assert_eq!(value, "value");
}

#[test]
fn invalid_cookie_store_leaves_history_extractable() {
    let root = TempDir::new().unwrap();
    let inst_dir = make_dir(root.path(), "User Data");
    let profile_dir = make_dir(&inst_dir, "Default");

    // a Cookies store with no usable schema at all
    let empty = Connection::open(profile_dir.join("Cookies")).unwrap();
    empty.execute("CREATE TABLE misc (x INTEGER)", []).unwrap();
    drop(empty);

    let conn = Connection::open(profile_dir.join("History")).unwrap();
    conn.execute(
        "CREATE TABLE urls (url TEXT, title TEXT, visit_count INTEGER, last_visit_time INTEGER)",
        [],
    )
    .unwrap();
    conn.execute(
        "INSERT INTO urls VALUES (?1, ?2, ?3, ?4)",
        ("https://example.com", "Example", 3i64, 1234i64),
    )
    .unwrap();
    drop(conn);

    let mut inst = ChromeInstance::new(
        inst_dir.to_string_lossy().into_owned(),
        None,
        walk_files(&inst_dir),
    );
    let stage = TempDir::new().unwrap();
    let copies = inst.load_users(stage.path().to_str().unwrap());
    perform_copies(&copies);

    let users = inst.get_users();
    assert_eq!(users.len(), 1);
    let u = &users[0];

    // the cookie extractor alone fails: its staged store has no cookie table
    let bad = u.staged_path(&ChromeItem::Cookies);
    let cookie_err = Connection::open_with_flags(&bad, OpenFlags::SQLITE_OPEN_READ_ONLY)
        .and_then(|c| c.prepare("SELECT name FROM cookies").map(|_| ()));
    assert!(cookie_err.is_err());

    // history for the same profile still extracts
    let good = u.staged_path(&ChromeItem::History);
    let conn = Connection::open_with_flags(&good, OpenFlags::SQLITE_OPEN_READ_ONLY).unwrap();
    let mut stmt = conn
        .prepare("SELECT url, title, visit_count, last_visit_time FROM urls")
        .unwrap();
    let rows: Vec<(String, String, i64, i64)> = stmt
        .query_map([], |r| Ok((r.get(0)?, r.get(1)?, r.get(2)?, r.get(3)?)))
        .unwrap()
        .filter_map(|x| x.ok())
        .collect();
    assert_eq!(rows.len(), 1);
    assert_eq!(rows[0].0, "https://example.com");
    assert_eq!(rows[0].1, "Example");
    assert_eq!(rows[0].2, 3);
}
