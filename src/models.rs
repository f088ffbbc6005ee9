//! Records of the local metadata store.

use vstd::prelude::*;

verus! {

/// A stored connection profile. The password is kept encrypted; only the
/// resolver decrypts it, to connect.
#[derive(Debug, Clone, PartialEq, Eq)]
pub struct Connection {
    pub connection_id: i64,
    pub folder_id: Option<i64>,
    pub user_id: i64,
    pub connection_name: String,
    pub host: String,
    pub port: Option<i64>,
    pub db_name: String,
    pub db_user: String,
    pub db_password_encrypted: String,
    pub ssl_mode: Option<String>,
}

#[derive(Debug, Clone, PartialEq, Eq)]
pub struct Tag {
    pub tag_id: i64,
    pub user_id: i64,
    pub tag_name: String,
    pub color_hex: Option<String>,
}

#[derive(Debug, Clone, PartialEq, Eq)]
pub struct ConnectionTag {
    pub tag_id: i64,
    pub connection_id: i64,
}

#[derive(Debug, Clone, PartialEq, Eq)]
pub struct ConnectionFolder {
    pub folder_id: i64,
    pub user_id: i64,
    pub folder_name: String,
}

#[derive(Debug, Clone, PartialEq, Eq)]
pub struct Bookmark {
    pub bookmark_id: i64,
    pub connection_id: i64,
    pub schema_name: String,
    pub object_name: String,
    pub object_type: String,
}

} // verus!
