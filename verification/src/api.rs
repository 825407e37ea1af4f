//! The four requests of the API, and the decoding of what comes back.
//!
//! Nothing here talks to the network. A `Request` says what to fetch; the
//! body that the server answers with goes to `from_body`.
use crate::category::Category;
use crate::decimal::{decimal_digits, decimal_text, push_decimal};
use crate::deser::{yields, FromJson};
use crate::error::DecodeError;
use crate::json::{json_document, parse_document};
use vstd::prelude::*;
use vstd::string::StringExecFns;

verus! {

/// The host that serves the API.
pub const API: &'static str = "https://apibay.org";

/// A GET request: the URL, and the parameters of its query string, which
/// whoever sends the request encodes.
#[derive(Debug)]
pub struct Request {
    pub url: String,
    pub query: Vec<(String, String)>,
}

/// The URL of a search.
pub open spec fn search_url() -> Seq<char> {
    API@ + "/q.php"@
}

/// The parameters of a search: the words, and the category code, which is
/// empty for a search in every category.
pub open spec fn search_query(words: Seq<char>, category: Option<Category>) -> Seq<
    (Seq<char>, Seq<char>),
> {
    seq![
        ("q"@, words),
        (
            "cat"@,
            match category {
                Some(c) => decimal_digits(c@ as nat),
                None => Seq::empty(),
            },
        ),
    ]
}

/// The URL of the precompiled list of the hundred most shared torrents of a
/// category, of all time or of the last 48 hours.
pub open spec fn top100_url(category: u16, last_48h: bool) -> Seq<char> {
    API@ + "/precompiled/data_top100"@ + (if last_48h {
        "_48h"@
    } else {
        Seq::empty()
    }) + "_"@ + decimal_digits(category as nat) + ".json"@
}

/// The URL of the lookup of one torrent.
pub open spec fn torrent_url() -> Seq<char> {
    API@ + "/t.php"@
}

/// The URL of the lookup of a torrent's files.
pub open spec fn torrent_files_url() -> Seq<char> {
    API@ + "/f.php"@
}

/// The one parameter of a lookup by identifier.
pub open spec fn id_query(id: u64) -> Seq<(Seq<char>, Seq<char>)> {
    seq![("id"@, decimal_digits(id as nat))]
}

/// The URL of an endpoint of the API.
fn endpoint(path: &str) -> (r: String)
    ensures
        r@ == API@ + path@,
{
    let mut url = String::from_str(API);
    url.append(path);
    url
}

impl Request {
    /// Search for torrents by name match and optionally category. The answer
    /// is an array of `PartialTorrent`.
    pub fn search(query: &str, category: Option<Category>) -> (r: Request)
        ensures
            r.url@ == search_url(),
            r.query.deep_view() == search_query(query@, category),
    {
        let cat = match category {
            Some(c) => decimal_text(c.code() as u64),
            None => String::new(),
        };
        let mut params: Vec<(String, String)> = Vec::new();
        params.push((String::from_str("q"), String::from_str(query)));
        params.push((String::from_str("cat"), cat));
        let r = Request { url: endpoint("/q.php"), query: params };
        r
    }

    /// Get the top 100 torrents by category, of all time or, if `last_48h`
    /// is true, among those uploaded in the last 48 hours. The answer is an
    /// array of `PartialTorrent`.
    pub fn top100(category: Category, last_48h: bool) -> (r: Request)
        ensures
            r.url@ == top100_url(category@, last_48h),
            r.query@.len() == 0,
    {
        let mut url = endpoint("/precompiled/data_top100");
        if last_48h {
            url.append("_48h");
        }
        url.append("_");
        push_decimal(&mut url, category.code() as u64);
        url.append(".json");
        Request { url, query: Vec::new() }
    }

    /// Get full metadata on a torrent by ID. The answer is a `Torrent`.
    pub fn torrent(id: u64) -> (r: Request)
        ensures
            r.url@ == torrent_url(),
            r.query.deep_view() == id_query(id),
    {
        Request { url: endpoint("/t.php"), query: id_params(id) }
    }

    /// Get a list of file metadata for a torrent by ID. The answer is an
    /// array of `TorrentFile`.
    pub fn torrent_files(id: u64) -> (r: Request)
        ensures
            r.url@ == torrent_files_url(),
            r.query.deep_view() == id_query(id),
    {
        Request { url: endpoint("/f.php"), query: id_params(id) }
    }
}

/// The parameter list of a lookup by identifier.
fn id_params(id: u64) -> (r: Vec<(String, String)>)
    ensures
        r.deep_view() == id_query(id),
{
    let mut params: Vec<(String, String)> = Vec::new();
    params.push((String::from_str("id"), decimal_text(id)));
    params
}

/// What a response body is read as: the bytes must be one JSON document,
/// and the document is then read as a `T`.
pub open spec fn body_decoding<T: FromJson>(body: Seq<u8>) -> Result<T::V, DecodeError> {
    match json_document(body) {
        Some(m) => T::decoding(m),
        None => Err(DecodeError::Malformed),
    }
}

/// Reads a response body as a `T`.
pub fn from_body<T: FromJson>(body: &[u8]) -> (r: Result<T, DecodeError>)
    ensures
        yields(r, body_decoding::<T>(body@)),
{
    match parse_document(body) {
        Ok(value) => T::from_json(&value),
        Err(_) => Err(DecodeError::Malformed),
    }
}

} // verus!
