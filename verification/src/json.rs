use vstd::prelude::*;

use rustc_serialize::json::Json;

verus! {

/// The characters of the body when it is valid UTF-8 text, as std's
/// decoder reads it: a function of the bytes alone.
pub uninterp spec fn utf8_text_of(body: Seq<u8>) -> Option<Seq<char>>;

/// The string under `key` when the body is UTF-8 text of a JSON document
/// whose object holds a string there: a function of the bytes and the key
/// alone.
pub uninterp spec fn json_string_of(body: Seq<u8>, key: Seq<char>) -> Option<Seq<char>>;

/// The string under `outer`.`inner` when the body is UTF-8 text of a JSON
/// document holding an object under `outer` with a string under `inner`:
/// a function of the bytes and the keys alone.
pub uninterp spec fn json_nested_string_of(
    body: Seq<u8>,
    outer: Seq<char>,
    inner: Seq<char>,
) -> Option<Seq<char>>;

/// The length of the array under `data` when the body is UTF-8 text of a
/// JSON document holding one: a function of the bytes alone.
pub uninterp spec fn json_data_len_of(body: Seq<u8>) -> Option<int>;

/// The string under `id` of the `i`-th element of the array under `data`,
/// when the body holds such an element: a function of the bytes and the
/// index alone.
pub uninterp spec fn json_data_id_of(body: Seq<u8>, i: int) -> Option<Seq<char>>;

/// Relies on std's str::from_utf8: decodes the bytes as UTF-8 text, or
/// fails when they are not valid UTF-8.
#[verifier::external_body]
pub(crate) fn bytes_as_str(body: &[u8]) -> (r: Option<&str>)
    ensures
        match r {
            Some(s) => utf8_text_of(body@) == Some(s@),
            None => utf8_text_of(body@) is None,
        },
{
    std::str::from_utf8(body).ok()
}

/// Relies on std's str::from_utf8 and rustc_serialize's Json::from_str,
/// Json::find and Json::as_string: the string under `key` of the decoded
/// JSON object, or nothing when the body is not UTF-8, not JSON, or holds
/// no string there.
#[verifier::external_body]
pub(crate) fn json_string_field(body: &[u8], key: &str) -> (r: Option<String>)
    ensures
        match r {
            Some(s) => json_string_of(body@, key@) == Some(s@),
            None => json_string_of(body@, key@) is None,
        },
{
    let text = std::str::from_utf8(body).ok()?;
    let doc = Json::from_str(text).ok()?;
    match doc.find(key) {
        Some(v) => v.as_string().map(|s| s.to_owned()),
        None => None,
    }
}

/// Relies on std's str::from_utf8 and rustc_serialize's Json::from_str,
/// Json::find_path and Json::as_string: the string under `outer`.`inner`
/// of the decoded JSON object, or nothing when absent at any step.
#[verifier::external_body]
pub(crate) fn json_nested_string_field(body: &[u8], outer: &str, inner: &str) -> (r: Option<
    String,
>)
    ensures
        match r {
            Some(s) => json_nested_string_of(body@, outer@, inner@) == Some(s@),
            None => json_nested_string_of(body@, outer@, inner@) is None,
        },
{
    let text = std::str::from_utf8(body).ok()?;
    let doc = Json::from_str(text).ok()?;
    match doc.find_path(&[outer, inner]) {
        Some(v) => v.as_string().map(|s| s.to_owned()),
        None => None,
    }
}

/// Relies on std's str::from_utf8 and rustc_serialize's Json::from_str,
/// Json::find and Json::as_array: the length of the array under `data`,
/// or nothing when the body holds no such array.
#[verifier::external_body]
pub(crate) fn json_data_len(body: &[u8]) -> (r: Option<usize>)
    ensures
        match r {
            Some(n) => json_data_len_of(body@) == Some(n as int),
            None => json_data_len_of(body@) is None,
        },
{
    let text = std::str::from_utf8(body).ok()?;
    let doc = Json::from_str(text).ok()?;
    match doc.find("data") {
        Some(d) => d.as_array().map(|a| a.len()),
        None => None,
    }
}

/// Relies on std's str::from_utf8 and rustc_serialize's Json::from_str,
/// Json::find, Json::as_array and Json::as_string: the `id` string of the
/// `i`-th element of the array under `data`, or nothing when absent at
/// any step.
#[verifier::external_body]
pub(crate) fn json_data_id(body: &[u8], i: usize) -> (r: Option<String>)
    ensures
        match r {
            Some(s) => json_data_id_of(body@, i as int) == Some(s@),
            None => json_data_id_of(body@, i as int) is None,
        },
{
    let text = std::str::from_utf8(body).ok()?;
    let doc = Json::from_str(text).ok()?;
    let item = doc.find("data")?.as_array()?.get(i)?;
    match item.find("id") {
        Some(v) => v.as_string().map(|s| s.to_owned()),
        None => None,
    }
}

} // verus!
