//! The records that the API returns, and how each is read from JSON.
use crate::category::Category;
use crate::deser::{
    empty_as_none, flexible_timestamp, flexible_u64, optional_text, parse_timestamp,
    u64_from_str, unit_array, unit_decoding, FromJson,
};
use crate::error::DecodeError;
use crate::json::{get_member, json_of, member, text_of, Json};
use crate::text::same_text;
use crate::time::Timestamp;
use serde_json::Value;
use vstd::prelude::*;

verus! {

/// The trust status of an uploader.
#[derive(Debug, Clone, Copy, PartialEq, Eq)]
#[non_exhaustive]
pub enum UserStatus {
    Member,
    Trusted,
    Helper,
    Vip,
    Moderator,
    SuperMod,
    Admin,
}

impl DeepView for UserStatus {
    type V = UserStatus;

    open spec fn deep_view(&self) -> UserStatus {
        *self
    }
}

/// The status that a tag names. Tags are the variants' names in lower case.
pub open spec fn status_named(tag: Seq<char>) -> Option<UserStatus> {
    if tag == "member"@ {
        Some(UserStatus::Member)
    } else if tag == "trusted"@ {
        Some(UserStatus::Trusted)
    } else if tag == "helper"@ {
        Some(UserStatus::Helper)
    } else if tag == "vip"@ {
        Some(UserStatus::Vip)
    } else if tag == "moderator"@ {
        Some(UserStatus::Moderator)
    } else if tag == "supermod"@ {
        Some(UserStatus::SuperMod)
    } else if tag == "admin"@ {
        Some(UserStatus::Admin)
    } else {
        None
    }
}

impl UserStatus {
    /// The status that `tag` names, if any.
    pub fn from_tag(tag: &str) -> (r: Option<UserStatus>)
        ensures
            r == status_named(tag@),
    {
        if same_text(tag, "member") {
            Some(UserStatus::Member)
        } else if same_text(tag, "trusted") {
            Some(UserStatus::Trusted)
        } else if same_text(tag, "helper") {
            Some(UserStatus::Helper)
        } else if same_text(tag, "vip") {
            Some(UserStatus::Vip)
        } else if same_text(tag, "moderator") {
            Some(UserStatus::Moderator)
        } else if same_text(tag, "supermod") {
            Some(UserStatus::SuperMod)
        } else if same_text(tag, "admin") {
            Some(UserStatus::Admin)
        } else {
            None
        }
    }
}

/// A status is read from the string that names it.
impl FromJson for UserStatus {
    open spec fn decoding(m: Json) -> Result<UserStatus, DecodeError> {
        match text_of(m) {
            Some(tag) => match status_named(tag) {
                Some(status) => Ok(status),
                None => Err(DecodeError::UnknownStatus),
            },
            None => Err(DecodeError::ExpectedString),
        }
    }

    fn from_json(value: &Value) -> (r: Result<UserStatus, DecodeError>) {
        match value.as_str() {
            Some(tag) => match UserStatus::from_tag(tag) {
                Some(status) => Ok(status),
                None => Err(DecodeError::UnknownStatus),
            },
            None => Err(DecodeError::ExpectedString),
        }
    }
}

/// What the member `key` of `m` is read as by `decode`; a missing member is
/// an error.
pub open spec fn in_member<T>(
    m: Json,
    key: &'static str,
    decode: spec_fn(Json) -> Result<T, DecodeError>,
) -> Result<T, DecodeError> {
    match member(m, key@) {
        Some(found) => decode(found),
        None => Err(DecodeError::MissingField(key)),
    }
}

/// What the member `key` of `m` is read as by `decode`; a missing member is
/// no value.
pub open spec fn in_optional_member<T>(
    m: Json,
    key: &'static str,
    decode: spec_fn(Json) -> Result<Option<T>, DecodeError>,
) -> Result<Option<T>, DecodeError> {
    match member(m, key@) {
        Some(found) => decode(found),
        None => Ok(None),
    }
}

/// The member `key` of an object.
fn required<'a>(value: &'a Value, key: &'static str) -> (r: Result<&'a Value, DecodeError>)
    ensures
        (match r {
            Ok(found) => member(json_of(*value), key@) == Some(json_of(*found)),
            Err(e) => member(json_of(*value), key@) is None && e == DecodeError::MissingField(
                key,
            ),
        }),
{
    match get_member(value, key) {
        Some(found) => Ok(found),
        None => Err(DecodeError::MissingField(key)),
    }
}

/// A torrent with only the details returned by listing endpoints.
#[derive(Debug)]
#[non_exhaustive]
pub struct PartialTorrent {
    pub id: u64,
    pub name: String,
    pub info_hash: String,
    pub leechers: u64,
    pub seeders: u64,
    pub num_files: u64,
    pub size: u64,
    pub username: String,
    pub added: Timestamp,
    pub status: UserStatus,
    pub category: Category,
    pub imdb: Option<String>,
}

/// What a `PartialTorrent` holds.
pub struct PartialTorrentModel {
    pub id: u64,
    pub name: Seq<char>,
    pub info_hash: Seq<char>,
    pub leechers: u64,
    pub seeders: u64,
    pub num_files: u64,
    pub size: u64,
    pub username: Seq<char>,
    pub added: int,
    pub status: UserStatus,
    pub category: u16,
    pub imdb: Option<Seq<char>>,
}

impl DeepView for PartialTorrent {
    type V = PartialTorrentModel;

    open spec fn deep_view(&self) -> PartialTorrentModel {
        PartialTorrentModel {
            id: self.id,
            name: self.name@,
            info_hash: self.info_hash@,
            leechers: self.leechers,
            seeders: self.seeders,
            num_files: self.num_files,
            size: self.size,
            username: self.username@,
            added: self.added@,
            status: self.status,
            category: self.category@,
            imdb: self.imdb.deep_view(),
        }
    }
}

/// A listed torrent is read from an object, member by member in the order
/// of the fields; members that the record does not have are passed over.
impl FromJson for PartialTorrent {
    open spec fn decoding(m: Json) -> Result<PartialTorrentModel, DecodeError> {
        let id = in_member(m, "id", |f: Json| flexible_u64(f));
        let name = in_member(m, "name", |f: Json| String::decoding(f));
        let info_hash = in_member(m, "info_hash", |f: Json| String::decoding(f));
        let leechers = in_member(m, "leechers", |f: Json| flexible_u64(f));
        let seeders = in_member(m, "seeders", |f: Json| flexible_u64(f));
        let num_files = in_member(m, "num_files", |f: Json| flexible_u64(f));
        let size = in_member(m, "size", |f: Json| flexible_u64(f));
        let username = in_member(m, "username", |f: Json| String::decoding(f));
        let added = in_member(m, "added", |f: Json| flexible_timestamp(f));
        let status = in_member(m, "status", |f: Json| UserStatus::decoding(f));
        let category = in_member(m, "category", |f: Json| Category::decoding(f));
        let imdb = in_member(m, "imdb", |f: Json| optional_text(f));
        if !(m is Object) {
            Err(DecodeError::ExpectedObject)
        } else if id is Err {
            Err(id->Err_0)
        } else if name is Err {
            Err(name->Err_0)
        } else if info_hash is Err {
            Err(info_hash->Err_0)
        } else if leechers is Err {
            Err(leechers->Err_0)
        } else if seeders is Err {
            Err(seeders->Err_0)
        } else if num_files is Err {
            Err(num_files->Err_0)
        } else if size is Err {
            Err(size->Err_0)
        } else if username is Err {
            Err(username->Err_0)
        } else if added is Err {
            Err(added->Err_0)
        } else if status is Err {
            Err(status->Err_0)
        } else if category is Err {
            Err(category->Err_0)
        } else if imdb is Err {
            Err(imdb->Err_0)
        } else {
            Ok(
                PartialTorrentModel {
                    id: id->Ok_0,
                    name: name->Ok_0,
                    info_hash: info_hash->Ok_0,
                    leechers: leechers->Ok_0,
                    seeders: seeders->Ok_0,
                    num_files: num_files->Ok_0,
                    size: size->Ok_0,
                    username: username->Ok_0,
                    added: added->Ok_0,
                    status: status->Ok_0,
                    category: category->Ok_0,
                    imdb: imdb->Ok_0,
                },
            )
        }
    }

    fn from_json(value: &Value) -> (r: Result<PartialTorrent, DecodeError>) {
        if !value.is_object() {
            return Err(DecodeError::ExpectedObject);
        }
        let id: u64 = u64_from_str(required(value, "id")?)?;
        let name = String::from_json(required(value, "name")?)?;
        let info_hash = String::from_json(required(value, "info_hash")?)?;
        let leechers: u64 = u64_from_str(required(value, "leechers")?)?;
        let seeders: u64 = u64_from_str(required(value, "seeders")?)?;
        let num_files: u64 = u64_from_str(required(value, "num_files")?)?;
        let size: u64 = u64_from_str(required(value, "size")?)?;
        let username = String::from_json(required(value, "username")?)?;
        let added = parse_timestamp(required(value, "added")?)?;
        let status = UserStatus::from_json(required(value, "status")?)?;
        let category = Category::from_json(required(value, "category")?)?;
        let imdb = empty_as_none(required(value, "imdb")?)?;
        Ok(
            PartialTorrent {
                id,
                name,
                info_hash,
                leechers,
                seeders,
                num_files,
                size,
                username,
                added,
                status,
                category,
                imdb,
            },
        )
    }
}

/// Full details on a torrent: what a listing gives, and a little more.
///
/// Only the lookup of a single torrent returns this record. It dereferences
/// to the listing record inside it, so every detail of a `PartialTorrent`
/// can be read from a `Torrent` directly.
#[derive(Debug)]
#[non_exhaustive]
pub struct Torrent {
    /// The description.
    pub descr: String,
    /// A numeric language code, of no documented meaning.
    pub language: Option<usize>,
    /// A second numeric language code, of no documented meaning.
    pub textlanguage: Option<usize>,
    /// The details that listings give too.
    pub partial: PartialTorrent,
}

/// What a `Torrent` holds.
pub struct TorrentModel {
    pub descr: Seq<char>,
    pub language: Option<usize>,
    pub textlanguage: Option<usize>,
    pub partial: PartialTorrentModel,
}

impl DeepView for Torrent {
    type V = TorrentModel;

    open spec fn deep_view(&self) -> TorrentModel {
        TorrentModel {
            descr: self.descr@,
            language: self.language,
            textlanguage: self.textlanguage,
            partial: self.partial.deep_view(),
        }
    }
}

impl std::ops::Deref for Torrent {
    type Target = PartialTorrent;

    fn deref(&self) -> (r: &PartialTorrent)
        ensures
            *r == self.partial,
    {
        &self.partial
    }
}

/// A torrent is read from one object that holds the members of the listing
/// record beside its own. The two language codes may be missing or `null`.
impl FromJson for Torrent {
    open spec fn decoding(m: Json) -> Result<TorrentModel, DecodeError> {
        let descr = in_member(m, "descr", |f: Json| String::decoding(f));
        let language = in_optional_member(m, "language", |f: Json| Option::<usize>::decoding(f));
        let textlanguage = in_optional_member(
            m,
            "textlanguage",
            |f: Json| Option::<usize>::decoding(f),
        );
        let partial = PartialTorrent::decoding(m);
        if !(m is Object) {
            Err(DecodeError::ExpectedObject)
        } else if descr is Err {
            Err(descr->Err_0)
        } else if language is Err {
            Err(language->Err_0)
        } else if textlanguage is Err {
            Err(textlanguage->Err_0)
        } else if partial is Err {
            Err(partial->Err_0)
        } else {
            Ok(
                TorrentModel {
                    descr: descr->Ok_0,
                    language: language->Ok_0,
                    textlanguage: textlanguage->Ok_0,
                    partial: partial->Ok_0,
                },
            )
        }
    }

    fn from_json(value: &Value) -> (r: Result<Torrent, DecodeError>) {
        if !value.is_object() {
            return Err(DecodeError::ExpectedObject);
        }
        let descr = String::from_json(required(value, "descr")?)?;
        let language = match get_member(value, "language") {
            Some(found) => Option::<usize>::from_json(found)?,
            None => None,
        };
        let textlanguage = match get_member(value, "textlanguage") {
            Some(found) => Option::<usize>::from_json(found)?,
            None => None,
        };
        let partial = PartialTorrent::from_json(value)?;
        Ok(Torrent { descr, language, textlanguage, partial })
    }
}

/// Metadata on a file in a torrent.
#[derive(Debug)]
#[non_exhaustive]
pub struct TorrentFile {
    pub name: String,
    pub size: u64,
}

/// What a `TorrentFile` holds.
pub struct TorrentFileModel {
    pub name: Seq<char>,
    pub size: u64,
}

impl DeepView for TorrentFile {
    type V = TorrentFileModel;

    open spec fn deep_view(&self) -> TorrentFileModel {
        TorrentFileModel { name: self.name@, size: self.size }
    }
}

/// A file is read from an object whose two members are each wrapped in a
/// one-element array. The size inside must be a number, not text.
impl FromJson for TorrentFile {
    open spec fn decoding(m: Json) -> Result<TorrentFileModel, DecodeError> {
        let name = in_member(m, "name", |f: Json| unit_decoding::<String>(f));
        let size = in_member(m, "size", |f: Json| unit_decoding::<u64>(f));
        if !(m is Object) {
            Err(DecodeError::ExpectedObject)
        } else if name is Err {
            Err(name->Err_0)
        } else if size is Err {
            Err(size->Err_0)
        } else {
            Ok(TorrentFileModel { name: name->Ok_0, size: size->Ok_0 })
        }
    }

    fn from_json(value: &Value) -> (r: Result<TorrentFile, DecodeError>) {
        if !value.is_object() {
            return Err(DecodeError::ExpectedObject);
        }
        let name = unit_array::<String>(required(value, "name")?)?;
        let size: u64 = unit_array::<u64>(required(value, "size")?)?;
        Ok(TorrentFile { name, size })
    }
}

} // verus!
