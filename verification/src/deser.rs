//! The lenient decoders.
//!
//! The API writes one and the same field now as a number, now as the text of
//! one, wraps some values in one-element arrays and sends empty strings for
//! absent ones. Each function here takes one JSON value and gives the strict
//! value it stands for, or the reason why it stands for none.
use crate::decimal::{
    all_digits, decimal_digits, digits_value, is_digit, lemma_i64_round_trip,
    lemma_u64_round_trip, parse_i64, parse_u64, parsed_i64, parsed_u64, sign_len,
};
use crate::error::DecodeError;
use crate::json::{json_items, json_of, signed_of, text_of, unsigned_of, Json};
use crate::time::{has_instant, Timestamp};
use serde_json::Value;
use vstd::prelude::*;
use vstd::string::StringExecFns;

verus! {

/// Whether the outcome `r` of a decoder is the one that `expected` describes:
/// the same error, or a value whose model is the expected one.
pub open spec fn yields<T: DeepView>(
    r: Result<T, DecodeError>,
    expected: Result<T::V, DecodeError>,
) -> bool {
    match r {
        Ok(t) => expected == Ok::<T::V, DecodeError>(t.deep_view()),
        Err(e) => expected == Err::<T::V, DecodeError>(e),
    }
}

/// A type that can be read from a JSON value.
pub trait FromJson: Sized + DeepView {
    /// What `m` is read as: the model of the value, or why there is none.
    spec fn decoding(m: Json) -> Result<<Self as DeepView>::V, DecodeError>;

    fn from_json(value: &Value) -> (r: Result<Self, DecodeError>)
        ensures
            yields(r, Self::decoding(json_of(*value))),
    ;
}

/// A `u64` is read from a number only, never from text.
impl FromJson for u64 {
    open spec fn decoding(m: Json) -> Result<u64, DecodeError> {
        match unsigned_of(m) {
            Some(n) => Ok(n),
            None => Err(DecodeError::ExpectedUnsigned),
        }
    }

    fn from_json(value: &Value) -> (r: Result<u64, DecodeError>) {
        match value.as_u64() {
            Some(n) => Ok(n),
            None => Err(DecodeError::ExpectedUnsigned),
        }
    }
}

/// A `usize` is read as a `u64` that fits.
impl FromJson for usize {
    open spec fn decoding(m: Json) -> Result<usize, DecodeError> {
        match unsigned_of(m) {
            Some(n) => if n <= usize::MAX {
                Ok(n as usize)
            } else {
                Err(DecodeError::ExpectedUnsigned)
            },
            None => Err(DecodeError::ExpectedUnsigned),
        }
    }

    fn from_json(value: &Value) -> (r: Result<usize, DecodeError>) {
        match value.as_u64() {
            Some(n) => if n <= usize::MAX as u64 {
                Ok(n as usize)
            } else {
                Err(DecodeError::ExpectedUnsigned)
            },
            None => Err(DecodeError::ExpectedUnsigned),
        }
    }
}

/// A `String` is read from a JSON string.
impl FromJson for String {
    open spec fn decoding(m: Json) -> Result<Seq<char>, DecodeError> {
        match text_of(m) {
            Some(s) => Ok(s),
            None => Err(DecodeError::ExpectedString),
        }
    }

    fn from_json(value: &Value) -> (r: Result<String, DecodeError>) {
        match value.as_str() {
            Some(s) => Ok(String::from_str(s)),
            None => Err(DecodeError::ExpectedString),
        }
    }
}

/// `null` is read as `None`, anything else as the inner type.
impl<T: FromJson> FromJson for Option<T> {
    open spec fn decoding(m: Json) -> Result<Option<T::V>, DecodeError> {
        if m is Null {
            Ok(None)
        } else {
            match T::decoding(m) {
                Ok(x) => Ok(Some(x)),
                Err(e) => Err(e),
            }
        }
    }

    fn from_json(value: &Value) -> (r: Result<Option<T>, DecodeError>) {
        if value.is_null() {
            Ok(None)
        } else {
            match T::from_json(value) {
                Ok(x) => Ok(Some(x)),
                Err(e) => Err(e),
            }
        }
    }
}

/// What a run of elements is read as: the models of all of them, or the
/// error of the first that is refused.
pub open spec fn items_decoding<T: FromJson>(items: Seq<Json>) -> Result<Seq<T::V>, DecodeError>
    decreases items.len(),
{
    if items.len() == 0 {
        Ok(Seq::empty())
    } else {
        match items_decoding::<T>(items.drop_last()) {
            Ok(front) => match T::decoding(items.last()) {
                Ok(x) => Ok(front.push(x)),
                Err(e) => Err(e),
            },
            Err(e) => Err(e),
        }
    }
}

/// An error among the first `k` elements is the error of the whole run.
pub proof fn lemma_items_decoding_error<T: FromJson>(items: Seq<Json>, k: int)
    requires
        0 <= k <= items.len(),
        items_decoding::<T>(items.take(k)) is Err,
    ensures
        items_decoding::<T>(items) == items_decoding::<T>(items.take(k)),
    decreases items.len(),
{
    if k == items.len() {
        assert(items.take(k) =~= items);
    } else {
        assert(items.drop_last().take(k) =~= items.take(k));
        lemma_items_decoding_error::<T>(items.drop_last(), k);
    }
}

/// A run is read where every element is, each as it would be read alone;
/// otherwise the error is that of the first element that is refused.
pub proof fn lemma_items_decoding<T: FromJson>(items: Seq<Json>)
    ensures
        (match items_decoding::<T>(items) {
            Ok(values) => {
                &&& values.len() == items.len()
                &&& forall|i: int|
                    0 <= i < items.len() ==> T::decoding(#[trigger] items[i]) == Ok::<
                        T::V,
                        DecodeError,
                    >(values[i])
            },
            Err(e) => exists|i: int|
                {
                    &&& 0 <= i < items.len()
                    &&& T::decoding(#[trigger] items[i]) == Err::<T::V, DecodeError>(e)
                    &&& forall|j: int| 0 <= j < i ==> T::decoding(#[trigger] items[j]) is Ok
                },
        }),
    decreases items.len(),
{
    if items.len() > 0 {
        let front = items.drop_last();
        lemma_items_decoding::<T>(front);
        match items_decoding::<T>(front) {
            Ok(values) => {
                assert forall|j: int| 0 <= j < front.len() implies T::decoding(
                    #[trigger] items[j],
                ) is Ok by {
                    assert(items[j] == front[j]);
                }
                if T::decoding(items.last()) is Ok {
                    let all = values.push(T::decoding(items.last())->Ok_0);
                    assert forall|i: int| 0 <= i < items.len() implies T::decoding(
                        #[trigger] items[i],
                    ) == Ok::<T::V, DecodeError>(all[i]) by {
                        if i < front.len() {
                            assert(items[i] == front[i]);
                        }
                    }
                }
            },
            Err(e) => {
                let i = choose|i: int|
                    {
                        &&& 0 <= i < front.len()
                        &&& T::decoding(#[trigger] front[i]) == Err::<T::V, DecodeError>(e)
                        &&& forall|j: int| 0 <= j < i ==> T::decoding(#[trigger] front[j]) is Ok
                    };
                assert forall|j: int| 0 <= j < i implies T::decoding(#[trigger] items[j]) is Ok by {
                    assert(items[j] == front[j]);
                }
            },
        }
    }
}

/// A `Vec` is read from an array, element by element.
impl<T: FromJson> FromJson for Vec<T> {
    open spec fn decoding(m: Json) -> Result<Seq<T::V>, DecodeError> {
        match m {
            Json::Array(items) => items_decoding::<T>(items),
            _ => Err(DecodeError::ExpectedArray),
        }
    }

    fn from_json(value: &Value) -> (r: Result<Vec<T>, DecodeError>) {
        let items = match value.as_array() {
            Some(items) => items,
            None => {
                return Err(DecodeError::ExpectedArray);
            },
        };
        let ghost models = json_items(items@);
        let mut out: Vec<T> = Vec::new();
        let mut i: usize = 0;
        assert(out.deep_view() =~= Seq::empty());
        while i < items.len()
            invariant
                i <= items.len(),
                models == json_items(items@),
                json_of(*value) == Json::Array(models),
                items_decoding::<T>(models.take(i as int)) == Ok::<Seq<T::V>, DecodeError>(
                    out.deep_view(),
                ),
            decreases items.len() - i,
        {
            proof {
                assert(models.take(i + 1).drop_last() =~= models.take(i as int));
            }
            match T::from_json(&items[i]) {
                Ok(x) => {
                    let ghost before = out.deep_view();
                    out.push(x);
                    assert(out.deep_view() =~= before.push(x.deep_view()));
                },
                Err(e) => {
                    proof {
                        assert(items_decoding::<T>(models.take(i + 1)) == Err::<
                            Seq<T::V>,
                            DecodeError,
                        >(e));
                        lemma_items_decoding_error::<T>(models, i + 1);
                    }
                    return Err(e);
                },
            }
            i += 1;
        }
        assert(models.take(i as int) =~= models);
        Ok(out)
    }
}

/// A number, or the decimal text of one, as a `u64`.
pub open spec fn flexible_u64(m: Json) -> Result<u64, DecodeError> {
    match unsigned_of(m) {
        Some(n) => Ok(n),
        None => match text_of(m) {
            Some(s) => match parsed_u64(s) {
                Some(n) => Ok(n),
                None => Err(DecodeError::ExpectedInteger),
            },
            None => Err(DecodeError::ExpectedInteger),
        },
    }
}

/// A number, or the decimal text of one, as a `u16`. What is a `u64` but
/// too large for 16 bits is refused with its own error.
pub open spec fn flexible_u16(m: Json) -> Result<u16, DecodeError> {
    match flexible_u64(m) {
        Ok(n) => if n <= u16::MAX {
            Ok(n as u16)
        } else {
            Err(DecodeError::ExpectedU16)
        },
        Err(e) => Err(e),
    }
}

/// The whole seconds that a number, or the decimal text of one, counts.
pub open spec fn epoch_seconds(m: Json) -> Option<i64> {
    match signed_of(m) {
        Some(secs) => Some(secs),
        None => match text_of(m) {
            Some(s) => parsed_i64(s),
            None => None,
        },
    }
}

/// The instant that a count of seconds since the epoch names, in seconds.
pub open spec fn flexible_timestamp(m: Json) -> Result<int, DecodeError> {
    match epoch_seconds(m) {
        Some(secs) => if has_instant(secs as int) {
            Ok(secs as int)
        } else {
            Err(DecodeError::ExpectedTimestamp)
        },
        None => Err(DecodeError::ExpectedTimestamp),
    }
}

/// A string, where `null` and the empty string both stand for no value.
pub open spec fn optional_text(m: Json) -> Result<Option<Seq<char>>, DecodeError> {
    match m {
        Json::Null => Ok(None),
        Json::Text(s) => if s.len() == 0 {
            Ok(None)
        } else {
            Ok(Some(s))
        },
        _ => Err(DecodeError::ExpectedString),
    }
}

/// What the one element of a one-element array is read as. An element that
/// is refused gives its error wrapped in `DecodeError::Element`.
pub open spec fn unit_decoding<T: FromJson>(m: Json) -> Result<T::V, DecodeError> {
    match m {
        Json::Array(items) => if items.len() == 1 {
            match T::decoding(items[0]) {
                Ok(x) => Ok(x),
                Err(e) => Err(DecodeError::Element(Box::new(e))),
            }
        } else {
            Err(DecodeError::ExpectedUnitArray)
        },
        _ => Err(DecodeError::ExpectedArray),
    }
}

/// Every `u64` is read from the number itself and from its decimal text.
pub proof fn lemma_u64_from_number_or_text(n: u64)
    ensures
        flexible_u64(Json::Integer(n as int)) == Ok::<u64, DecodeError>(n),
        flexible_u64(Json::Text(decimal_digits(n as nat))) == Ok::<u64, DecodeError>(n),
{
    lemma_u64_round_trip(n);
}

/// Any run of digits that counts no more than `u64::MAX` is read as its
/// value, leading zeros or not.
pub proof fn lemma_u64_from_digits(s: Seq<char>)
    requires
        s.len() > 0,
        all_digits(s),
        digits_value(s) <= u64::MAX,
    ensures
        flexible_u64(Json::Text(s)) == Ok::<u64, DecodeError>(digits_value(s) as u64),
{
    assert(s.skip(0) =~= s);
}

/// An integer below zero or above `u64::MAX` is refused.
pub proof fn lemma_u64_refuses_other_integers(i: int)
    requires
        i < 0 || i > u64::MAX,
    ensures
        flexible_u64(Json::Integer(i)) == Err::<u64, DecodeError>(DecodeError::ExpectedInteger),
{
}

/// Digits that count more than `u64::MAX` are refused.
pub proof fn lemma_u64_refuses_large_text(s: Seq<char>)
    requires
        all_digits(s),
        digits_value(s) > u64::MAX,
    ensures
        flexible_u64(Json::Text(s)) == Err::<u64, DecodeError>(DecodeError::ExpectedInteger),
{
    assert(s.skip(0) =~= s);
}

/// Text is refused where it holds a character that is neither a digit nor
/// a `+` in front; so is the empty text.
pub proof fn lemma_u64_refuses_non_numeric(s: Seq<char>, i: int)
    requires
        s.len() == 0 || (0 <= i < s.len() && !is_digit(s[i]) && !(i == 0 && s[0] == '+')),
    ensures
        flexible_u64(Json::Text(s)) == Err::<u64, DecodeError>(DecodeError::ExpectedInteger),
{
    if s.len() > 0 {
        let body = s.skip(sign_len(s, false));
        assert(body[i - sign_len(s, false)] == s[i]);
    }
}

/// Every `u16` is read from the number itself and from its decimal text.
pub proof fn lemma_u16_from_number_or_text(n: u16)
    ensures
        flexible_u16(Json::Integer(n as int)) == Ok::<u16, DecodeError>(n),
        flexible_u16(Json::Text(decimal_digits(n as nat))) == Ok::<u16, DecodeError>(n),
{
    lemma_u64_round_trip(n as u64);
}

/// A `u64` above `u16::MAX` is refused as a `u16`, as a number and as text,
/// though it is read as a `u64`.
pub proof fn lemma_u16_refuses_large(n: u64)
    requires
        n > u16::MAX,
    ensures
        flexible_u64(Json::Integer(n as int)) == Ok::<u64, DecodeError>(n),
        flexible_u16(Json::Integer(n as int)) == Err::<u16, DecodeError>(DecodeError::ExpectedU16),
        flexible_u16(Json::Text(decimal_digits(n as nat))) == Err::<u16, DecodeError>(
            DecodeError::ExpectedU16,
        ),
{
    lemma_u64_round_trip(n);
}

/// A count of seconds gives the same instant, or the same refusal, as a
/// number and as any text that denotes it.
pub proof fn lemma_timestamp_text_as_number(s: Seq<char>, secs: i64)
    requires
        parsed_i64(s) == Some(secs),
    ensures
        flexible_timestamp(Json::Text(s)) == flexible_timestamp(Json::Integer(secs as int)),
{
}

/// In particular the number and its shortest decimal text agree.
pub proof fn lemma_timestamp_digits_as_number(secs: i64)
    requires
        secs >= 0,
    ensures
        flexible_timestamp(Json::Text(decimal_digits(secs as nat))) == flexible_timestamp(
            Json::Integer(secs as int),
        ),
{
    lemma_i64_round_trip(secs);
}

/// Text that denotes no `i64` is no timestamp.
pub proof fn lemma_timestamp_refuses_non_numeric(s: Seq<char>)
    requires
        parsed_i64(s) is None,
    ensures
        flexible_timestamp(Json::Text(s)) == Err::<int, DecodeError>(
            DecodeError::ExpectedTimestamp,
        ),
{
}

/// Reads a `u64` from a number or from a string of digits.
pub fn u64_from_str(value: &Value) -> (r: Result<u64, DecodeError>)
    ensures
        r == flexible_u64(json_of(*value)),
{
    match value.as_u64() {
        Some(n) => Ok(n),
        None => match value.as_str() {
            Some(s) => match parse_u64(s) {
                Some(n) => Ok(n),
                None => Err(DecodeError::ExpectedInteger),
            },
            None => Err(DecodeError::ExpectedInteger),
        },
    }
}

/// Reads a `u16` from a number or from a string of digits.
pub fn u16_from_str(value: &Value) -> (r: Result<u16, DecodeError>)
    ensures
        r == flexible_u16(json_of(*value)),
{
    match u64_from_str(value) {
        Ok(n) => if n <= 0xffff {
            Ok(n as u16)
        } else {
            Err(DecodeError::ExpectedU16)
        },
        Err(e) => Err(e),
    }
}

/// Reads an instant from a count of seconds since the Unix epoch, given as a
/// number or as a string of digits.
pub fn parse_timestamp(value: &Value) -> (r: Result<Timestamp, DecodeError>)
    ensures
        yields(r, flexible_timestamp(json_of(*value))),
{
    let secs = match value.as_i64() {
        Some(secs) => Some(secs),
        None => match value.as_str() {
            Some(s) => parse_i64(s),
            None => None,
        },
    };
    match secs {
        Some(secs) => match Timestamp::from_secs(secs) {
            Some(t) => Ok(t),
            None => Err(DecodeError::ExpectedTimestamp),
        },
        None => Err(DecodeError::ExpectedTimestamp),
    }
}

/// Reads a string, taking `null` and the empty string for no value.
pub fn empty_as_none(value: &Value) -> (r: Result<Option<String>, DecodeError>)
    ensures
        yields(r, optional_text(json_of(*value))),
{
    match Option::<String>::from_json(value) {
        Ok(Some(s)) => if s.as_str().is_empty() {
            Ok(None)
        } else {
            Ok(Some(s))
        },
        Ok(None) => Ok(None),
        Err(e) => Err(e),
    }
}

/// Reads the element of a one-element array as a `T`.
pub fn unit_array<T: FromJson>(value: &Value) -> (r: Result<T, DecodeError>)
    ensures
        yields(r, unit_decoding::<T>(json_of(*value))),
{
    let items = match value.as_array() {
        Some(items) => items,
        None => {
            return Err(DecodeError::ExpectedArray);
        },
    };
    if items.len() != 1 {
        return Err(DecodeError::ExpectedUnitArray);
    }
    match T::from_json(&items[0]) {
        Ok(x) => Ok(x),
        Err(e) => Err(DecodeError::Element(Box::new(e))),
    }
}

} // verus!
