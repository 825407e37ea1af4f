//! Magnet links.
//!
//! A link is the URL `magnet:?xt=urn:btih:<info hash>` with the torrent's
//! name and the trackers appended to its query. The info hash is written
//! into the URL as it stands, so that its colons stay colons; the name and
//! the trackers go through the `url` crate's form encoder. What the parser
//! makes of a text, and what the encoder appends, is taken from that crate
//! and named here, not restated.
use crate::tables::TRACKERS;
use crate::types::PartialTorrent;
use url::{ParseError, Url};
use vstd::prelude::*;
use vstd::string::StringExecFns;
use vstd::utf8::encode_utf8;

verus! {

/// `url::Url`, carried as it is. Nothing inside it is visible to the
/// verifier; its serialization is spoken of through `url_text`.
#[verifier::external_type_specification]
#[verifier::external_body]
pub struct ExUrl(url::Url);

/// `url::ParseError`, carried as it is. The library only learns from it
/// that parsing failed.
#[verifier::external_type_specification]
#[verifier::external_body]
pub struct ExParseError(url::ParseError);

/// The serialization of a URL: the text that it prints as.
pub uninterp spec fn url_text(u: Url) -> Seq<char>;

/// What `Url::parse` makes of `input`: the serialization of the URL it
/// reads, or `None` where it reads none.
pub uninterp spec fn url_parsed(input: Seq<char>) -> Option<Seq<char>>;

/// The serialization of the URL that had the serialization `text`, after
/// `pairs` were appended to its query as form-encoded name/value pairs.
pub uninterp spec fn with_pairs(text: Seq<char>, pairs: Seq<(Seq<char>, Seq<char>)>) -> Seq<char>;

/// The most bytes by which appending `pairs` can lengthen a query, short of
/// the one byte for a `?`: each byte of a name or value becomes three at
/// most, and each pair brings a `=` and a `&`.
pub open spec fn pairs_cost(pairs: Seq<(Seq<char>, Seq<char>)>) -> nat
    decreases pairs.len(),
{
    if pairs.len() == 0 {
        0
    } else {
        pairs_cost(pairs.drop_last()) + 3 * (encode_utf8(pairs.last().0).len() + encode_utf8(
            pairs.last().1,
        ).len()) + 2
    }
}

/// Whether a URL with the serialization `text` stays within the `url`
/// crate's limit of 4 GiB whatever `pairs` encode to.
pub open spec fn has_room(text: Seq<char>, pairs: Seq<(Seq<char>, Seq<char>)>) -> bool {
    encode_utf8(text).len() + 1 + pairs_cost(pairs) <= u32::MAX
}

/// The names and values of `pairs` as texts.
pub open spec fn pair_texts(pairs: Seq<(&str, &str)>) -> Seq<(Seq<char>, Seq<char>)> {
    Seq::new(pairs.len(), |i: int| (pairs[i].0@, pairs[i].1@))
}

/// `Url::parse`: the URL that `input` spells, or the parser's error.
#[verifier::external_body]
fn parse_url(input: &str) -> (r: Result<Url, ParseError>)
    ensures
        (match r {
            Ok(u) => url_parsed(input@) == Some(url_text(u)),
            Err(_) => url_parsed(input@) is None,
        }),
{
    Url::parse(input)
}

/// `Url::as_str`: the serialization.
pub assume_specification<'a>[ Url::as_str ](u: &'a Url) -> (r: &'a str)
    ensures
        r@ == url_text(*u),
;

/// `Url::query_pairs_mut`, then `extend_pairs` and `finish` of the
/// serializer it hands out: appends each pair to the query. Inside the
/// crate a URL longer than `u32::MAX` bytes is a panic; `has_room` keeps
/// the result below that.
#[verifier::external_body]
fn append_pairs(url: &mut Url, pairs: &Vec<(&str, &str)>)
    requires
        has_room(url_text(*old(url)), pair_texts(pairs@)),
    ensures
        url_text(*final(url)) == with_pairs(url_text(*old(url)), pair_texts(pairs@)),
{
    url.query_pairs_mut().extend_pairs(pairs.iter()).finish();
}

/// Why no magnet link could be built.
#[derive(Debug, Clone, Copy, PartialEq, Eq)]
pub enum MagnetError {
    /// With this info hash the link is no URL. The data is corrupt upstream:
    /// nothing the caller does will mend it.
    InvalidInfoHash,
    /// The link could outgrow the 4 GiB that a URL may have.
    TooLong,
}

/// The URL before anything is appended: the scheme and the hash.
pub open spec fn magnet_base(info_hash: Seq<char>) -> Seq<char> {
    "magnet:?xt=urn:btih:"@ + info_hash
}

/// What is appended: the display name as `dn`, then one `tr` for each
/// tracker, in the order of the table.
pub open spec fn magnet_pairs(name: Seq<char>) -> Seq<(Seq<char>, Seq<char>)> {
    Seq::new(
        1 + TRACKERS@.len(),
        |i: int|
            if i == 0 {
                ("dn"@, name)
            } else {
                ("tr"@, TRACKERS@[i - 1]@)
            },
    )
}

/// The link on a parsed base with the serialization `base`.
pub open spec fn link_on(base: Seq<char>, name: Seq<char>) -> Result<Seq<char>, MagnetError> {
    if has_room(base, magnet_pairs(name)) {
        Ok(with_pairs(base, magnet_pairs(name)))
    } else {
        Err(MagnetError::TooLong)
    }
}

/// The magnet link for an info hash and a name.
pub open spec fn magnet_link(info_hash: Seq<char>, name: Seq<char>) -> Result<
    Seq<char>,
    MagnetError,
> {
    match url_parsed(magnet_base(info_hash)) {
        Some(base) => link_on(base, name),
        None => Err(MagnetError::InvalidInfoHash),
    }
}

/// The cost of some pairs is at most the cost of them and more.
pub proof fn lemma_pairs_cost_prefix(pairs: Seq<(Seq<char>, Seq<char>)>, k: int)
    requires
        0 <= k <= pairs.len(),
    ensures
        pairs_cost(pairs.take(k)) <= pairs_cost(pairs),
    decreases pairs.len(),
{
    if k == pairs.len() {
        assert(pairs.take(k) =~= pairs);
    } else {
        lemma_pairs_cost_prefix(pairs.drop_last(), k);
        assert(pairs.drop_last().take(k) =~= pairs.take(k));
    }
}

/// Whether `pairs` can be appended to `url` without passing the limit.
fn room_for(url: &Url, pairs: &Vec<(&str, &str)>) -> (r: bool)
    ensures
        r == has_room(url_text(*url), pair_texts(pairs@)),
{
    let limit: u64 = 0xffff_ffff;
    let len: usize = url.as_str().as_bytes().len();
    if len as u64 >= limit {
        return false;
    }
    let ghost texts = pair_texts(pairs@);
    let mut total: u64 = len as u64 + 1;
    let mut i: usize = 0;
    while i < pairs.len()
        invariant
            i <= pairs@.len(),
            texts == pair_texts(pairs@),
            limit == 0xffff_ffff,
            total == encode_utf8(url_text(*url)).len() + 1 + pairs_cost(texts.take(i as int)),
            total <= limit,
        decreases pairs@.len() - i,
    {
        let name_len: usize = pairs[i].0.as_bytes().len();
        let value_len: usize = pairs[i].1.as_bytes().len();
        proof {
            assert(texts.take(i + 1).drop_last() =~= texts.take(i as int));
            lemma_pairs_cost_prefix(texts, i + 1);
        }
        if name_len as u64 > limit || value_len as u64 > limit {
            return false;
        }
        let cost: u64 = 3 * (name_len as u64 + value_len as u64) + 2;
        if cost > limit - total {
            return false;
        }
        total = total + cost;
        i += 1;
    }
    assert(texts.take(i as int) =~= texts);
    true
}

/// The name and the trackers, as the pairs to append.
fn link_pairs<'a>(name: &'a str) -> (r: Vec<(&'a str, &'a str)>)
    ensures
        pair_texts(r@) == magnet_pairs(name@),
{
    let mut pairs: Vec<(&'a str, &'a str)> = Vec::new();
    pairs.push(("dn", name));
    let mut i: usize = 0;
    while i < TRACKERS.len()
        invariant
            i <= TRACKERS@.len(),
            pairs@.len() == i + 1,
            pairs@[0].0@ == "dn"@,
            pairs@[0].1@ == name@,
            forall|j: int|
                1 <= j <= i ==> (#[trigger] pairs@[j]).0@ == "tr"@ && pairs@[j].1@ == TRACKERS@[j
                    - 1]@,
        decreases TRACKERS@.len() - i,
    {
        pairs.push(("tr", TRACKERS[i]));
        i += 1;
    }
    pairs
}

/// Appends the name and the trackers to a parsed base and gives the link.
pub fn magnet_on(base: Url, name: &str) -> (r: Result<String, MagnetError>)
    ensures
        (match r {
            Ok(link) => link_on(url_text(base), name@) == Ok::<Seq<char>, MagnetError>(link@),
            Err(e) => link_on(url_text(base), name@) == Err::<Seq<char>, MagnetError>(e),
        }),
{
    let mut url = base;
    let pairs = link_pairs(name);
    if !room_for(&url, &pairs) {
        return Err(MagnetError::TooLong);
    }
    append_pairs(&mut url, &pairs);
    Ok(String::from_str(url.as_str()))
}

/// The text of the base URL for an info hash.
fn base_text(info_hash: &str) -> (r: String)
    ensures
        r@ == magnet_base(info_hash@),
{
    let mut base = String::from_str("magnet:?xt=urn:btih:");
    base.append(info_hash);
    base
}

impl PartialTorrent {
    /// Generate a magnet link for this torrent.
    ///
    /// To be called where a link exists, which `try_magnet` finds out.
    pub fn magnet(&self) -> (r: String)
        requires
            magnet_link(self.info_hash@, self.name@) is Ok,
        ensures
            magnet_link(self.info_hash@, self.name@) == Ok::<Seq<char>, MagnetError>(r@),
    {
        let base = base_text(self.info_hash.as_str());
        match parse_url(base.as_str()) {
            Ok(url) => match magnet_on(url, self.name.as_str()) {
                Ok(link) => link,
                Err(_) => vstd::pervasive::unreached(),
            },
            Err(_) => vstd::pervasive::unreached(),
        }
    }

    /// Generate a magnet link for this torrent, or say why there is none.
    pub fn try_magnet(&self) -> (r: Result<String, MagnetError>)
        ensures
            (match r {
                Ok(link) => magnet_link(self.info_hash@, self.name@) == Ok::<
                    Seq<char>,
                    MagnetError,
                >(link@),
                Err(e) => magnet_link(self.info_hash@, self.name@) == Err::<
                    Seq<char>,
                    MagnetError,
                >(e),
            }),
    {
        let base = base_text(self.info_hash.as_str());
        match parse_url(base.as_str()) {
            Ok(url) => {
                let pairs = link_pairs(self.name.as_str());
                if room_for(&url, &pairs) {
                    Ok(self.magnet())
                } else {
                    Err(MagnetError::TooLong)
                }
            },
            Err(_) => Err(MagnetError::InvalidInfoHash),
        }
    }
}

} // verus!
