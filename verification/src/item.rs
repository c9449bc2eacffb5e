use vstd::prelude::*;
use vstd::string::*;
use crate::paths::{base_name, file_name, joined};

verus! {

/// One saved-password row from a profile's login database.
#[derive(Debug, Clone)]
pub struct ChromeLogin {
    pub origin_url: String,
    pub username_value: String,
    pub password_value: String,
    pub date_created: i64,
}

/// One cookie row from a profile's cookie database.
#[derive(Debug, Clone)]
pub struct ChromeCookie {
    pub name: String,
    pub value: String,
    pub host_key: String,
    pub path: String,
    pub creation_utc: u64,
    pub expires_utc: u64,
    pub is_secure: bool,
    pub is_httponly: bool,
    pub has_expires: bool,
    pub is_persistent: bool,
}

/// One visited-URL row from a profile's history database.
#[derive(Debug, Clone)]
pub struct ChromeHistory {
    pub url: String,
    pub title: String,
    pub visit_count: u64,
    pub last_visit_time: u64,
}

/// One download row from a profile's history database.
#[derive(Debug, Clone)]
pub struct ChromeDownload {
    pub target_path: String,
    pub tab_url: String,
    pub total_bytes: u64,
    pub start_time: u64,
    pub end_time: u64,
    pub mime_type: String,
}

/// A bookmark entry; the bookmark store carries no decrypted fields.
#[derive(Debug, Clone)]
pub struct ChromeBookmark {
}

/// One credit-card row from a profile's web-data database.
#[derive(Debug, Clone)]
pub struct ChromeCreditCard {
    pub guid: String,
    pub name_on_card: String,
    pub expiration_month: u64,
    pub expiration_year: u64,
    pub card_number: String,
    pub billing_address_id: String,
    pub nickname: String,
}

/// The closed enumeration of artifact kinds a profile can hold. A file's
/// kind is decided by its base name alone.
#[derive(Clone, Copy, Debug, PartialEq, Eq, Hash, Structural)]
pub enum ChromeItem {
    LoginData,
    WebData,
    History,
    Cookies,
    Bookmarks,
    LocalStorage,
    SessionStorage,
    Extensions,
}

/// The artifact kind named by a file's base name, if any.
pub open spec fn classify_name(n: Seq<char>) -> Option<ChromeItem> {
    if n == "Login Data"@ {
        Some(ChromeItem::LoginData)
    } else if n == "Web Data"@ {
        Some(ChromeItem::WebData)
    } else if n == "History"@ {
        Some(ChromeItem::History)
    } else if n == "Cookies"@ {
        Some(ChromeItem::Cookies)
    } else if n == "Bookmarks"@ {
        Some(ChromeItem::Bookmarks)
    } else if n == "leveldb"@ {
        Some(ChromeItem::LocalStorage)
    } else if n == "Session Storage"@ {
        Some(ChromeItem::SessionStorage)
    } else if n == "Extensions"@ {
        Some(ChromeItem::Extensions)
    } else {
        None
    }
}

/// The artifact kind of a whole path: its base name classified.
pub open spec fn classify_path(p: Seq<char>) -> Option<ChromeItem> {
    classify_name(base_name(p))
}

/// The fixed file name an artifact kind is staged under.
pub open spec fn temp_name_spec(item: ChromeItem) -> Seq<char> {
    match item {
        ChromeItem::LoginData => "logindata"@,
        ChromeItem::WebData => "webdata"@,
        ChromeItem::History => "history"@,
        ChromeItem::Cookies => "cookies"@,
        ChromeItem::Bookmarks => "bookmarks"@,
        ChromeItem::LocalStorage => "localstorage"@,
        ChromeItem::SessionStorage => "sessionstorage"@,
        ChromeItem::Extensions => "extensions"@,
    }
}

/// The path an artifact of kind `item` is staged at inside `dir`.
pub open spec fn staged_path_spec(dir: Seq<char>, item: ChromeItem) -> Seq<char> {
    joined(dir, temp_name_spec(item))
}

/// The fixed read-only query an artifact kind is extracted with; its table
/// and column names are the vendor's and must match that schema exactly.
/// Kinds without a database extractor have none.
pub open spec fn extraction_query_spec(item: ChromeItem) -> Option<Seq<char>> {
    match item {
        ChromeItem::LoginData => Some(
            "SELECT origin_url, username_value, password_value, date_created FROM logins"@,
        ),
        ChromeItem::Cookies => Some(
            "SELECT name, encrypted_value, host_key, path, creation_utc, expires_utc, is_secure, is_httponly, has_expires, is_persistent FROM cookies"@,
        ),
        ChromeItem::History => Some("SELECT url, title, visit_count, last_visit_time FROM urls"@),
        ChromeItem::WebData => Some(
            "SELECT guid, name_on_card, expiration_month, expiration_year, card_number_encrypted, billing_address_id, nickname FROM credit_cards"@,
        ),
        _ => None,
    }
}

impl ChromeItem {
    /// Classifies a file path by its base name; a name that matches no
    /// artifact kind, or a path without a base name, is not an artifact.
    pub fn new(file_path: &str) -> (r: Result<ChromeItem, String>)
        ensures
            match r {
                Ok(k) => classify_path(file_path@) == Some(k),
                Err(_) => classify_path(file_path@) is None,
            },
    {
        let name = match file_name(file_path) {
            Some(n) => n,
            None => {
                proof {
                    reveal_strlit("Login Data");
                    reveal_strlit("Web Data");
                    reveal_strlit("History");
                    reveal_strlit("Cookies");
                    reveal_strlit("Bookmarks");
                    reveal_strlit("leveldb");
                    reveal_strlit("Session Storage");
                    reveal_strlit("Extensions");
                }
                return Err("Failed to get filename.".to_owned());
            },
        };
        if name == "Login Data".to_owned() {
            Ok(ChromeItem::LoginData)
        } else if name == "Web Data".to_owned() {
            Ok(ChromeItem::WebData)
        } else if name == "History".to_owned() {
            Ok(ChromeItem::History)
        } else if name == "Cookies".to_owned() {
            Ok(ChromeItem::Cookies)
        } else if name == "Bookmarks".to_owned() {
            Ok(ChromeItem::Bookmarks)
        } else if name == "leveldb".to_owned() {
            Ok(ChromeItem::LocalStorage)
        } else if name == "Session Storage".to_owned() {
            Ok(ChromeItem::SessionStorage)
        } else if name == "Extensions".to_owned() {
            Ok(ChromeItem::Extensions)
        } else {
            Err("File is not a exporter item.".to_owned())
        }
    }

    /// The fixed read-only query this artifact kind is extracted with, for
    /// the kinds that carry an embedded database of records.
    pub fn extraction_query(item: &ChromeItem) -> (r: Option<String>)
        ensures
            match r {
                Some(q) => extraction_query_spec(*item) == Some(q@),
                None => extraction_query_spec(*item) is None,
            },
    {
        match item {
            ChromeItem::LoginData => Some(
                "SELECT origin_url, username_value, password_value, date_created FROM logins"
                    .to_owned(),
            ),
            ChromeItem::Cookies => Some(
                "SELECT name, encrypted_value, host_key, path, creation_utc, expires_utc, is_secure, is_httponly, has_expires, is_persistent FROM cookies"
                    .to_owned(),
            ),
            ChromeItem::History => Some(
                "SELECT url, title, visit_count, last_visit_time FROM urls".to_owned(),
            ),
            ChromeItem::WebData => Some(
                "SELECT guid, name_on_card, expiration_month, expiration_year, card_number_encrypted, billing_address_id, nickname FROM credit_cards"
                    .to_owned(),
            ),
            _ => None,
        }
    }

    /// The fixed file name artifacts of this kind are staged under.
    pub fn temp_name(item: &ChromeItem) -> (r: String)
        ensures
            r@ == temp_name_spec(*item),
    {
        match item {
            ChromeItem::LoginData => "logindata",
            ChromeItem::WebData => "webdata",
            ChromeItem::History => "history",
            ChromeItem::Cookies => "cookies",
            ChromeItem::Bookmarks => "bookmarks",
            ChromeItem::LocalStorage => "localstorage",
            ChromeItem::SessionStorage => "sessionstorage",
            ChromeItem::Extensions => "extensions",
        }.to_owned()
    }
}

} // verus!
