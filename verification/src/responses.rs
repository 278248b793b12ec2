use vstd::prelude::*;

use crate::error::Error;
use crate::json::{
    bytes_as_str, json_data_id, json_data_id_of, json_data_len, json_data_len_of,
    json_nested_string_field, json_nested_string_of, json_string_field, json_string_of,
    utf8_text_of,
};
use crate::node::NodeId;
use crate::session::TokenResponse;

verus! {

pub open spec fn ids_view(v: Seq<NodeId>) -> Seq<Seq<char>> {
    v.map_values(|id: NodeId| id@)
}

/// The node identifiers a listing body carries: the `id` of every element
/// of the array under `data`, in order — or nothing when the array or any
/// of its identifiers is missing.
pub open spec fn spec_page_ids(body: Seq<u8>) -> Option<Seq<Seq<char>>> {
    match json_data_len_of(body) {
        Some(n) => {
            if forall|k: int| 0 <= k < n ==> (#[trigger] json_data_id_of(body, k)) is Some {
                Some(
                    Seq::new(
                        if n >= 0 {
                            n as nat
                        } else {
                            0
                        },
                        |k: int|
                            match json_data_id_of(body, k) {
                                Some(s) => s,
                                None => Seq::empty(),
                            },
                    ),
                )
            } else {
                None
            }
        },
        None => None,
    }
}

/// Why a body failed to parse as the expected JSON shape.
enum ParseFail {
    NotUtf8,
    BadShape,
}

/// Decode one listing body: the identifiers under `data` and the
/// continuation token, with the failure tied to its cause.
fn parse_page(body: &Vec<u8>) -> (r: Result<(Vec<NodeId>, Option<String>), ParseFail>)
    ensures
        match r {
            Ok((ids, next)) => {
                &&& utf8_text_of(body@) is Some
                &&& spec_page_ids(body@) == Some(ids_view(ids@))
                &&& match next {
                    Some(t) => json_string_of(body@, "nextToken"@) == Some(t@),
                    None => json_string_of(body@, "nextToken"@) is None,
                }
            },
            Err(why) => match why {
                ParseFail::NotUtf8 => utf8_text_of(body@) is None,
                ParseFail::BadShape => utf8_text_of(body@) is Some && spec_page_ids(body@)
                    is None,
            },
        },
{
    if bytes_as_str(body.as_slice()).is_none() {
        return Err(ParseFail::NotUtf8);
    }
    let n = match json_data_len(body.as_slice()) {
        Some(n) => n,
        None => {
            return Err(ParseFail::BadShape);
        },
    };
    let mut ids: Vec<NodeId> = Vec::new();
    let mut i: usize = 0;
    while i < n
        invariant
            i <= n,
            utf8_text_of(body@) is Some,
            json_data_len_of(body@) == Some(n as int),
            ids@.len() == i,
            forall|k: int|
                0 <= k < i ==> ((#[trigger] json_data_id_of(body@, k)) matches Some(s)
                    && ids@[k]@ == s),
        decreases n - i,
    {
        match json_data_id(body.as_slice(), i) {
            Some(id) => {
                ids.push(NodeId::new(id));
            },
            None => {
                proof {
                    if spec_page_ids(body@) is Some {
                        assert(json_data_id_of(body@, i as int) is Some);
                    }
                }
                return Err(ParseFail::BadShape);
            },
        }
        i = i + 1;
    }
    proof {
        let expected = spec_page_ids(body@);
        assert(expected matches Some(v) && v =~= ids_view(ids@));
    }
    let next = json_string_field(body.as_slice(), "nextToken");
    Ok((ids, next))
}

/// Interpret the answer to a token exchange (authorization code or refresh
/// token). A non-success status is an authorization failure — fatal, never
/// retried; a well-formed success carries exactly the token pair of the
/// body, and a malformed one fails with its cause.
pub fn interpret_token_exchange(status: u16, body: Vec<u8>) -> (r: Result<TokenResponse, Error>)
    ensures
        r is Ok ==> status == 200,
        status != 200 ==> (r matches Err(Error::AuthFailure { status: s, body: b }) && s == status
            && b == body),
        status == 200 && utf8_text_of(body@) is None ==> (r matches Err(Error::ResponseNotUtf8(b))
            && b == body),
        status == 200 && utf8_text_of(body@) is Some ==> (match (
            json_string_of(body@, "access_token"@),
            json_string_of(body@, "refresh_token"@),
            json_string_of(body@, "token_type"@),
        ) {
            (Some(a), Some(rt), Some(tt)) => r matches Ok(t) && t.access_token@ == a
                && t.refresh_token@ == rt && t.token_type@ == tt,
            _ => r matches Err(Error::ResponseBadJson(b)) && b == body,
        }),
{
    if status != 200 {
        return Err(Error::AuthFailure { status, body });
    }
    if bytes_as_str(body.as_slice()).is_none() {
        return Err(Error::ResponseNotUtf8(body));
    }
    let access_token = match json_string_field(body.as_slice(), "access_token") {
        Some(s) => s,
        None => {
            return Err(Error::ResponseBadJson(body));
        },
    };
    let refresh_token = match json_string_field(body.as_slice(), "refresh_token") {
        Some(s) => s,
        None => {
            return Err(Error::ResponseBadJson(body));
        },
    };
    let token_type = match json_string_field(body.as_slice(), "token_type") {
        Some(s) => s,
        None => {
            return Err(Error::ResponseBadJson(body));
        },
    };
    Ok(TokenResponse { access_token, refresh_token, token_type })
}

/// Interpret the answer to the endpoint query: a well-formed success
/// carries exactly the content and metadata base URLs of the body.
pub fn interpret_endpoint_response(status: u16, body: Vec<u8>) -> (r: Result<
    (String, String),
    Error,
>)
    ensures
        r is Ok ==> status == 200,
        status != 200 ==> (r matches Err(Error::UnknownServerError { status: s, body: b }) && s
            == status && b == body),
        status == 200 && utf8_text_of(body@) is None ==> (r matches Err(Error::ResponseNotUtf8(b))
            && b == body),
        status == 200 && utf8_text_of(body@) is Some ==> (match (
            json_string_of(body@, "contentUrl"@),
            json_string_of(body@, "metadataUrl"@),
        ) {
            (Some(c), Some(m)) => r matches Ok(urls) && urls.0@ == c && urls.1@ == m,
            _ => r matches Err(Error::ResponseBadJson(b)) && b == body,
        }),
{
    if status != 200 {
        return Err(Error::UnknownServerError { status, body });
    }
    if bytes_as_str(body.as_slice()).is_none() {
        return Err(Error::ResponseNotUtf8(body));
    }
    let content_url = match json_string_field(body.as_slice(), "contentUrl") {
        Some(s) => s,
        None => {
            return Err(Error::ResponseBadJson(body));
        },
    };
    let metadata_url = match json_string_field(body.as_slice(), "metadataUrl") {
        Some(s) => s,
        None => {
            return Err(Error::ResponseBadJson(body));
        },
    };
    Ok((content_url, metadata_url))
}

/// Interpret one page of a children listing: a well-formed success
/// carries exactly the identifiers under `data`, in order, and the
/// continuation token when the listing goes on.
pub fn interpret_children_page(status: u16, body: Vec<u8>) -> (r: Result<
    (Vec<NodeId>, Option<String>),
    Error,
>)
    ensures
        r is Ok ==> status == 200,
        status != 200 ==> (r matches Err(Error::UnknownServerError { status: s, body: b }) && s
            == status && b == body),
        status == 200 && utf8_text_of(body@) is None ==> (r matches Err(Error::ResponseNotUtf8(b))
            && b == body),
        status == 200 && utf8_text_of(body@) is Some ==> (match spec_page_ids(body@) {
            Some(idsv) => r matches Ok((ids, next)) && ids_view(ids@) == idsv && (match next {
                Some(t) => json_string_of(body@, "nextToken"@) == Some(t@),
                None => json_string_of(body@, "nextToken"@) is None,
            }),
            None => r matches Err(Error::ResponseBadJson(b)) && b == body,
        }),
{
    if status != 200 {
        return Err(Error::UnknownServerError { status, body });
    }
    match parse_page(&body) {
        Ok(page) => Ok(page),
        Err(ParseFail::NotUtf8) => Err(Error::ResponseNotUtf8(body)),
        Err(ParseFail::BadShape) => Err(Error::ResponseBadJson(body)),
    }
}

/// Interpret the answer to the root query: a well-formed success carries
/// exactly the first identifier the listing reports; a listing with no
/// root at all is an unexpected server answer.
pub fn interpret_root_response(status: u16, body: Vec<u8>) -> (r: Result<NodeId, Error>)
    ensures
        r is Ok ==> status == 200,
        status != 200 ==> (r matches Err(Error::UnknownServerError { status: s, body: b }) && s
            == status && b == body),
        status == 200 && utf8_text_of(body@) is None ==> (r matches Err(Error::ResponseNotUtf8(b))
            && b == body),
        status == 200 && utf8_text_of(body@) is Some ==> (match spec_page_ids(body@) {
            Some(idsv) => if idsv.len() == 0 {
                r matches Err(Error::UnknownServerError { status: s, body: b }) && s == status
                    && b == body
            } else {
                r matches Ok(id) && id@ == idsv[0]
            },
            None => r matches Err(Error::ResponseBadJson(b)) && b == body,
        }),
{
    if status != 200 {
        return Err(Error::UnknownServerError { status, body });
    }
    let ids = match parse_page(&body) {
        Ok((ids, _)) => ids,
        Err(ParseFail::NotUtf8) => {
            return Err(Error::ResponseNotUtf8(body));
        },
        Err(ParseFail::BadShape) => {
            return Err(Error::ResponseBadJson(body));
        },
    };
    if ids.len() == 0 {
        return Err(Error::UnknownServerError { status, body });
    }
    Ok(ids[0].clone())
}

/// Interpret the answer to a create-folder request. A creation carries the
/// new folder's `id`; a conflict means the folder already exists and
/// carries its identifier under `info`.`nodeId`, so a concurrent creation
/// race is absorbed rather than failed.
pub fn interpret_mkdir_response(status: u16, body: Vec<u8>) -> (r: Result<NodeId, Error>)
    ensures
        r is Ok ==> status == 201 || status == 409,
        (status != 201 && status != 409) ==> (r matches Err(Error::UnknownServerError {
            status: s,
            body: b,
        }) && s == status && b == body),
        (status == 201 || status == 409) && utf8_text_of(body@) is None ==> (r matches Err(
            Error::ResponseNotUtf8(b),
        ) && b == body),
        status == 201 && utf8_text_of(body@) is Some ==> (match json_string_of(body@, "id"@) {
            Some(id) => r matches Ok(n) && n@ == id,
            None => r matches Err(Error::ResponseBadJson(b)) && b == body,
        }),
        status == 409 && utf8_text_of(body@) is Some ==> (match json_nested_string_of(
            body@,
            "info"@,
            "nodeId"@,
        ) {
            Some(id) => r matches Ok(n) && n@ == id,
            None => r matches Err(Error::ResponseBadJson(b)) && b == body,
        }),
{
    if status != 201 && status != 409 {
        return Err(Error::UnknownServerError { status, body });
    }
    if bytes_as_str(body.as_slice()).is_none() {
        return Err(Error::ResponseNotUtf8(body));
    }
    if status == 201 {
        match json_string_field(body.as_slice(), "id") {
            Some(id) => Ok(NodeId::new(id)),
            None => Err(Error::ResponseBadJson(body)),
        }
    } else {
        match json_nested_string_field(body.as_slice(), "info", "nodeId") {
            Some(id) => Ok(NodeId::new(id)),
            None => Err(Error::ResponseBadJson(body)),
        }
    }
}

/// Interpret the answer to an upload: a well-formed creation carries
/// exactly the new node's `id` and the digest the server computed for the
/// stored content under `contentProperties`.`md5`; a conflict means a node
/// of that name already exists, which the caller must interpret.
pub fn interpret_upload_response(status: u16, body: Vec<u8>) -> (r: Result<
    (NodeId, String),
    Error,
>)
    ensures
        r is Ok ==> status == 201,
        status == 409 ==> (r matches Err(e) && e is NodeExists),
        (status != 201 && status != 409) ==> (r matches Err(Error::UnknownServerError {
            status: s,
            body: b,
        }) && s == status && b == body),
        status == 201 && utf8_text_of(body@) is None ==> (r matches Err(Error::ResponseNotUtf8(b))
            && b == body),
        status == 201 && utf8_text_of(body@) is Some ==> (match (
            json_string_of(body@, "id"@),
            json_nested_string_of(body@, "contentProperties"@, "md5"@),
        ) {
            (Some(id), Some(m)) => r matches Ok(p) && p.0@ == id && p.1@ == m,
            _ => r matches Err(Error::ResponseBadJson(b)) && b == body,
        }),
{
    if status == 409 {
        return Err(Error::NodeExists);
    }
    if status != 201 {
        return Err(Error::UnknownServerError { status, body });
    }
    if bytes_as_str(body.as_slice()).is_none() {
        return Err(Error::ResponseNotUtf8(body));
    }
    let id = match json_string_field(body.as_slice(), "id") {
        Some(id) => id,
        None => {
            return Err(Error::ResponseBadJson(body));
        },
    };
    match json_nested_string_field(body.as_slice(), "contentProperties", "md5") {
        Some(m) => Ok((NodeId::new(id), m)),
        None => Err(Error::ResponseBadJson(body)),
    }
}

/// Interpret the answer to a content download: a success delivers the body
/// bytes untouched.
pub fn interpret_download_response(status: u16, body: Vec<u8>) -> (r: Result<Vec<u8>, Error>)
    ensures
        status == 200 ==> (r matches Ok(b) && b == body),
        status != 200 ==> (r matches Err(Error::UnknownServerError { status: s, body: b }) && s
            == status && b == body),
{
    if status == 200 {
        Ok(body)
    } else {
        Err(Error::UnknownServerError { status, body })
    }
}

/// Interpret the answer to a trash request: success carries nothing.
pub fn interpret_trash_response(status: u16, body: Vec<u8>) -> (r: Result<(), Error>)
    ensures
        status == 200 ==> r is Ok,
        status != 200 ==> (r matches Err(Error::UnknownServerError { status: s, body: b }) && s
            == status && b == body),
{
    if status == 200 {
        Ok(())
    } else {
        Err(Error::UnknownServerError { status, body })
    }
}

/// Append one listing page to the identifiers gathered so far.
pub fn extend_listing(acc: &mut Vec<NodeId>, page: Vec<NodeId>)
    ensures
        final(acc)@ == old(acc)@ + page@,
{
    let mut page = page;
    acc.append(&mut page);
}

} // verus!
