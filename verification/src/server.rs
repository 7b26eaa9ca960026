//! The records of the server's HTTP interface, read from its JSON replies.

use crate::document::{
    decode_optional, field, not_an_object, optional, required, FromDocument,
};
use crate::error::{ErrorKind, SearpcError};
use crate::json::{Json, JsonValue};
use vstd::prelude::*;

verus! {

/// The text of an optional member: none where the member is missing or
/// `null`, else the string that the member must be.
pub open spec fn optional_text(member: Option<Json>) -> Option<Option<Seq<char>>> {
    match member {
        None => Some(None),
        Some(Json::Null) => Some(None),
        Some(value) => match value.as_str() {
            Some(text) => Some(Some(text)),
            None => None,
        },
    }
}

/// Reads an optional text member of a record, see [`optional_text`].
pub fn read_optional_text(doc: &JsonValue, key: &str) -> (result: Result<
    Option<String>,
    SearpcError,
>)
    ensures
        match result {
            Ok(Some(text)) => optional_text(doc@.member(key@)) == Some(Some(text@)),
            Ok(None) => optional_text(doc@.member(key@)) == Some(None::<Seq<char>>),
            Err(e) => optional_text(doc@.member(key@)) is None && e.kind() == ErrorKind::Type,
        },
{
    match doc.get(key) {
        None => Ok(None),
        Some(member) => decode_optional::<String>(member),
    }
}

/// A library as the server lists it.
#[derive(Debug)]
pub struct RepoInfo {
    pub id: String,
    pub name: String,
    pub encrypted: bool,
}

/// The mathematical content of a [`RepoInfo`].
pub struct RepoInfoView {
    pub id: Seq<char>,
    pub name: Seq<char>,
    pub encrypted: bool,
}

impl View for RepoInfo {
    type V = RepoInfoView;

    open spec fn view(&self) -> RepoInfoView {
        RepoInfoView {
            id: self.id@,
            name: self.name@,
            encrypted: self.encrypted,
        }
    }
}

/// A `RepoInfo` is read from an object. Required are
/// `id`, `name`;
/// the other fields default to empty, false or absent.
impl FromDocument for RepoInfo {
    open spec fn decoded(doc: Json) -> Option<RepoInfoView> {
        let id = field(doc, "id"@, |d: Json| <String as FromDocument>::decoded(d), None);
        let name = field(doc, "name"@, |d: Json| <String as FromDocument>::decoded(d), None);
        let encrypted = field(
            doc,
            "encrypted"@,
            |d: Json| <bool as FromDocument>::decoded(d),
            Some(false),
        );
        if doc is Object && id is Some
            && name is Some
            && encrypted is Some {
            Some(RepoInfoView {
                id: id->0,
                name: name->0,
                encrypted: encrypted->0,
            })
        } else {
            None
        }
    }

    fn from_document(doc: &JsonValue) -> (result: Result<RepoInfo, SearpcError>) {
        if !doc.is_object() {
            return Err(not_an_object());
        }
        let id = match required::<String>(doc, "id") {
            Ok(value) => value,
            Err(e) => {
                return Err(e);
            },
        };
        let name = match required::<String>(doc, "name") {
            Ok(value) => value,
            Err(e) => {
                return Err(e);
            },
        };
        let encrypted = match optional::<bool>(doc, "encrypted", false) {
            Ok(value) => value,
            Err(e) => {
                return Err(e);
            },
        };
        Ok(RepoInfo { id, name, encrypted })
    }
}

/// What the server tells about a library that is to be downloaded.
#[derive(Debug)]
pub struct RepoDownloadInfo {
    pub token: String,
    pub email: String,
    pub repo_name: String,
    pub encrypted: String,
    pub magic: String,
    pub enc_version: i32,
    pub random_key: String,
    pub repo_version: i32,
    pub salt: String,
    pub permission: Option<String>,
}

/// The mathematical content of a [`RepoDownloadInfo`].
pub struct RepoDownloadInfoView {
    pub token: Seq<char>,
    pub email: Seq<char>,
    pub repo_name: Seq<char>,
    pub encrypted: Seq<char>,
    pub magic: Seq<char>,
    pub enc_version: i32,
    pub random_key: Seq<char>,
    pub repo_version: i32,
    pub salt: Seq<char>,
    pub permission: Option<Seq<char>>,
}

impl View for RepoDownloadInfo {
    type V = RepoDownloadInfoView;

    open spec fn view(&self) -> RepoDownloadInfoView {
        RepoDownloadInfoView {
            token: self.token@,
            email: self.email@,
            repo_name: self.repo_name@,
            encrypted: self.encrypted@,
            magic: self.magic@,
            enc_version: self.enc_version,
            random_key: self.random_key@,
            repo_version: self.repo_version,
            salt: self.salt@,
            permission: match self.permission {
                Some(text) => Some(text@),
                None => None,
            },
        }
    }
}

/// A `RepoDownloadInfo` is read from an object. Required are
/// `token`, `email`, `repo_name`, `encrypted`, `magic`, `enc_version`,
/// `random_key`, `repo_version`, `salt`;
/// the other fields default to empty, false or absent.
impl FromDocument for RepoDownloadInfo {
    open spec fn decoded(doc: Json) -> Option<RepoDownloadInfoView> {
        let token = field(doc, "token"@, |d: Json| <String as FromDocument>::decoded(d), None);
        let email = field(doc, "email"@, |d: Json| <String as FromDocument>::decoded(d), None);
        let repo_name = field(
            doc,
            "repo_name"@,
            |d: Json| <String as FromDocument>::decoded(d),
            None,
        );
        let encrypted = field(
            doc,
            "encrypted"@,
            |d: Json| <String as FromDocument>::decoded(d),
            None,
        );
        let magic = field(doc, "magic"@, |d: Json| <String as FromDocument>::decoded(d), None);
        let enc_version = field(
            doc,
            "enc_version"@,
            |d: Json| <i32 as FromDocument>::decoded(d),
            None,
        );
        let random_key = field(
            doc,
            "random_key"@,
            |d: Json| <String as FromDocument>::decoded(d),
            None,
        );
        let repo_version = field(
            doc,
            "repo_version"@,
            |d: Json| <i32 as FromDocument>::decoded(d),
            None,
        );
        let salt = field(doc, "salt"@, |d: Json| <String as FromDocument>::decoded(d), None);
        let permission = optional_text(doc.member("permission"@));
        if doc is Object && token is Some
            && email is Some
            && repo_name is Some
            && encrypted is Some
            && magic is Some
            && enc_version is Some
            && random_key is Some
            && repo_version is Some
            && salt is Some
            && permission is Some {
            Some(RepoDownloadInfoView {
                token: token->0,
                email: email->0,
                repo_name: repo_name->0,
                encrypted: encrypted->0,
                magic: magic->0,
                enc_version: enc_version->0,
                random_key: random_key->0,
                repo_version: repo_version->0,
                salt: salt->0,
                permission: permission->0,
            })
        } else {
            None
        }
    }

    fn from_document(doc: &JsonValue) -> (result: Result<RepoDownloadInfo, SearpcError>) {
        if !doc.is_object() {
            return Err(not_an_object());
        }
        let token = match required::<String>(doc, "token") {
            Ok(value) => value,
            Err(e) => {
                return Err(e);
            },
        };
        let email = match required::<String>(doc, "email") {
            Ok(value) => value,
            Err(e) => {
                return Err(e);
            },
        };
        let repo_name = match required::<String>(doc, "repo_name") {
            Ok(value) => value,
            Err(e) => {
                return Err(e);
            },
        };
        let encrypted = match required::<String>(doc, "encrypted") {
            Ok(value) => value,
            Err(e) => {
                return Err(e);
            },
        };
        let magic = match required::<String>(doc, "magic") {
            Ok(value) => value,
            Err(e) => {
                return Err(e);
            },
        };
        let enc_version = match required::<i32>(doc, "enc_version") {
            Ok(value) => value,
            Err(e) => {
                return Err(e);
            },
        };
        let random_key = match required::<String>(doc, "random_key") {
            Ok(value) => value,
            Err(e) => {
                return Err(e);
            },
        };
        let repo_version = match required::<i32>(doc, "repo_version") {
            Ok(value) => value,
            Err(e) => {
                return Err(e);
            },
        };
        let salt = match required::<String>(doc, "salt") {
            Ok(value) => value,
            Err(e) => {
                return Err(e);
            },
        };
        let permission = match read_optional_text(doc, "permission") {
            Ok(value) => value,
            Err(e) => {
                return Err(e);
            },
        };
        Ok(
            RepoDownloadInfo {
                token,
                email,
                repo_name,
                encrypted,
                magic,
                enc_version,
                random_key,
                repo_version,
                salt,
                permission,
            },
        )
    }
}

} // verus!
