use vstd::prelude::*;

use crate::error::Error;

verus! {

/// How long a fetched endpoint record stays fresh: 72 hours, in seconds.
pub const ENDPOINT_FRESH_SECONDS: i64 = 72 * 3600;

/// The token pair a successful exchange returns.
#[derive(Debug)]
pub struct TokenResponse {
    pub access_token: String,
    pub refresh_token: String,
    pub token_type: String,
}

/// The credential state of one client profile. The refresh token is the
/// durable credential; the access token is a short-lived derived
/// capability, absent exactly when the client has never completed an
/// authorization flow or has been invalidated in memory.
pub struct Credentials {
    pub access_token: Option<String>,
    pub refresh_token: String,
    pub token_type: String,
    pub issued_at: i64,
}

impl Credentials {
    /// The state before any authorization flow has completed.
    pub fn empty() -> (r: Credentials)
        ensures
            r.access_token is None,
            r.refresh_token@ == Seq::<char>::empty(),
            r.token_type@ == Seq::<char>::empty(),
            r.issued_at == 0,
    {
        Credentials {
            access_token: None,
            refresh_token: String::new(),
            token_type: String::new(),
            issued_at: 0,
        }
    }

    /// The in-memory access token, or nothing when never authorized or
    /// invalidated.
    pub fn current_token(&self) -> (r: Option<&String>)
        ensures
            match r {
                Some(t) => self.access_token matches Some(a) && t@ == a@,
                None => self.access_token is None,
            },
    {
        self.access_token.as_ref()
    }

    pub fn is_authorized(&self) -> (r: bool)
        ensures
            r == (self.access_token is Some),
    {
        match &self.access_token {
            Some(_) => true,
            None => false,
        }
    }

    /// Clear the in-memory access token only; the durable refresh token is
    /// never touched by invalidation. Idempotent.
    pub fn invalidate(&mut self)
        ensures
            final(self).access_token is None,
            final(self).refresh_token == old(self).refresh_token,
            final(self).token_type == old(self).token_type,
            final(self).issued_at == old(self).issued_at,
    {
        self.access_token = None;
    }

    /// Install the token pair a successful exchange returned. This is the
    /// only place the refresh token is replaced.
    pub fn apply_token_response(&mut self, t: TokenResponse, now: i64)
        ensures
            final(self).access_token matches Some(a) && a@ == t.access_token@,
            final(self).refresh_token@ == t.refresh_token@,
            final(self).token_type@ == t.token_type@,
            final(self).issued_at == now,
    {
        self.access_token = Some(t.access_token);
        self.refresh_token = t.refresh_token;
        self.token_type = t.token_type;
        self.issued_at = now;
    }
}

/// The service's published base URLs and when they were last fetched.
pub struct Endpoint {
    pub content_url: String,
    pub metadata_url: String,
    pub refreshed_at: i64,
}

impl Endpoint {
    pub open spec fn wf(self) -> bool {
        self.refreshed_at >= 0
    }

    /// The state before any endpoint record was fetched: stale from the
    /// start, so the first use fetches one.
    pub fn new_stale() -> (r: Endpoint)
        ensures
            r.content_url@ == Seq::<char>::empty(),
            r.metadata_url@ == Seq::<char>::empty(),
            r.refreshed_at == 0,
            r.wf(),
    {
        Endpoint { content_url: String::new(), metadata_url: String::new(), refreshed_at: 0 }
    }

    /// Whether the record is still inside the freshness window at time
    /// `now`; once stale it must be re-fetched before further use.
    pub fn is_fresh_at(&self, now: i64) -> (r: bool)
        requires
            self.wf(),
            now >= 0,
        ensures
            r == (now - self.refreshed_at < ENDPOINT_FRESH_SECONDS),
    {
        if self.refreshed_at > now {
            true
        } else {
            now - self.refreshed_at < ENDPOINT_FRESH_SECONDS
        }
    }

    /// Install a freshly fetched pair of base URLs at time `now`.
    pub fn apply_refresh(&mut self, content_url: String, metadata_url: String, now: i64)
        requires
            now >= 0,
        ensures
            final(self).content_url@ == content_url@,
            final(self).metadata_url@ == metadata_url@,
            final(self).refreshed_at == now,
            final(self).wf(),
    {
        self.content_url = content_url;
        self.metadata_url = metadata_url;
        self.refreshed_at = now;
    }
}

/// The query parameters of the interactive login URL the user is sent to:
/// the client asks for read and write scope and a code redirected to the
/// local listener.
pub fn authorize_url_params(client_id: &String) -> (r: Vec<(String, String)>)
    ensures
        r@.len() == 4,
        r@[0].0@ == "client_id"@ && r@[0].1@ == client_id@,
        r@[1].0@ == "scope"@ && r@[1].1@ == "clouddrive:read_all clouddrive:write"@,
        r@[2].0@ == "response_type"@ && r@[2].1@ == "code"@,
        r@[3].0@ == "redirect_uri"@ && r@[3].1@ == "http://localhost:26619/"@,
{
    let mut v: Vec<(String, String)> = Vec::new();
    v.push((String::from_str("client_id"), client_id.clone()));
    v.push((String::from_str("scope"), String::from_str("clouddrive:read_all clouddrive:write")));
    v.push((String::from_str("response_type"), String::from_str("code")));
    v.push((String::from_str("redirect_uri"), String::from_str("http://localhost:26619/")));
    v
}

/// The form body of the authorization-code token exchange.
pub fn authorize_exchange_params(
    code: &String,
    client_id: &String,
    client_secret: &String,
) -> (r: Vec<(String, String)>)
    ensures
        r@.len() == 5,
        r@[0].0@ == "grant_type"@ && r@[0].1@ == "authorization_code"@,
        r@[1].0@ == "code"@ && r@[1].1@ == code@,
        r@[2].0@ == "client_id"@ && r@[2].1@ == client_id@,
        r@[3].0@ == "client_secret"@ && r@[3].1@ == client_secret@,
        r@[4].0@ == "redirect_uri"@ && r@[4].1@ == "http://localhost:26619/"@,
{
    let mut v: Vec<(String, String)> = Vec::new();
    v.push((String::from_str("grant_type"), String::from_str("authorization_code")));
    v.push((String::from_str("code"), code.clone()));
    v.push((String::from_str("client_id"), client_id.clone()));
    v.push((String::from_str("client_secret"), client_secret.clone()));
    v.push((String::from_str("redirect_uri"), String::from_str("http://localhost:26619/")));
    v
}

/// The form body of the refresh-token exchange. The stored refresh token
/// is sent; it is replaced only by a successful answer.
pub fn refresh_exchange_params(
    refresh_token: &String,
    client_id: &String,
    client_secret: &String,
) -> (r: Vec<(String, String)>)
    ensures
        r@.len() == 5,
        r@[0].0@ == "grant_type"@ && r@[0].1@ == "refresh_token"@,
        r@[1].0@ == "refresh_token"@ && r@[1].1@ == refresh_token@,
        r@[2].0@ == "client_id"@ && r@[2].1@ == client_id@,
        r@[3].0@ == "client_secret"@ && r@[3].1@ == client_secret@,
        r@[4].0@ == "redirect_uri"@ && r@[4].1@ == "http://localhost:26619/"@,
{
    let mut v: Vec<(String, String)> = Vec::new();
    v.push((String::from_str("grant_type"), String::from_str("refresh_token")));
    v.push((String::from_str("refresh_token"), refresh_token.clone()));
    v.push((String::from_str("client_id"), client_id.clone()));
    v.push((String::from_str("client_secret"), client_secret.clone()));
    v.push((String::from_str("redirect_uri"), String::from_str("http://localhost:26619/")));
    v
}

/// Relies on time's OffsetDateTime::now_utc and unix_timestamp: the
/// current wall-clock time in whole seconds since the epoch. Nothing is
/// assumed of the value — the clock is the machine's.
#[verifier::external_body]
pub fn now_unix_seconds() -> i64 {
    time::OffsetDateTime::now_utc().unix_timestamp()
}

/// What url's parser finds as the percent-decoded query pairs of this URL
/// text, in order; nothing when the text is not a valid absolute URL.
pub uninterp spec fn url_query_pairs_of(s: Seq<char>) -> Option<Seq<(Seq<char>, Seq<char>)>>;

pub open spec fn pairs_view(v: Seq<(String, String)>) -> Seq<(Seq<char>, Seq<char>)> {
    v.map_values(|p: (String, String)| (p.0@, p.1@))
}

/// Relies on url's Url::parse and Url::query_pairs: the percent-decoded
/// query pairs of the URL, in order; `None` when the text does not parse
/// as a URL.
#[verifier::external_body]
fn url_query_pairs(s: &str) -> (r: Option<Vec<(String, String)>>)
    ensures
        match r {
            Some(v) => url_query_pairs_of(s@) == Some(pairs_view(v@)),
            None => url_query_pairs_of(s@) is None,
        },
{
    match url::Url::parse(s) {
        Ok(u) => {
            let mut out: Vec<(String, String)> = Vec::new();
            for (k, v) in u.query_pairs() {
                out.push((k.into_owned(), v.into_owned()));
            }
            Some(out)
        },
        Err(_) => None,
    }
}

/// The first value listed for `key` among the pairs.
pub open spec fn spec_first_value(pairs: Seq<(Seq<char>, Seq<char>)>, key: Seq<char>) -> Option<
    Seq<char>,
>
    decreases pairs.len(),
{
    if pairs.len() == 0 {
        None
    } else if pairs[0].0 == key {
        Some(pairs[0].1)
    } else {
        spec_first_value(pairs.skip(1), key)
    }
}

fn find_pair_value(pairs: &Vec<(String, String)>, key: &str) -> (r: Option<String>)
    ensures
        match r {
            Some(v) => spec_first_value(pairs_view(pairs@), key@) == Some(v@),
            None => spec_first_value(pairs_view(pairs@), key@) is None,
        },
{
    let mut i: usize = 0;
    proof {
        assert(pairs_view(pairs@).skip(0) =~= pairs_view(pairs@));
    }
    while i < pairs.len()
        invariant
            i <= pairs@.len(),
            spec_first_value(pairs_view(pairs@), key@) == spec_first_value(
                pairs_view(pairs@).skip(i as int),
                key@,
            ),
        decreases pairs@.len() - i,
    {
        proof {
            assert(pairs_view(pairs@)[i as int] == (pairs@[i as int].0@, pairs@[i as int].1@));
            assert(pairs_view(pairs@).skip(i as int)[0] == pairs_view(pairs@)[i as int]);
        }
        if crate::text::str_eq(pairs[i].0.as_str(), key) {
            return Some(pairs[i].1.clone());
        }
        proof {
            assert(pairs_view(pairs@).skip(i as int).skip(1) =~= pairs_view(pairs@).skip(
                i as int + 1,
            ));
        }
        i = i + 1;
    }
    proof {
        assert(pairs_view(pairs@).skip(i as int) =~= Seq::<(Seq<char>, Seq<char>)>::empty());
    }
    None
}

/// Extract the OAuth authorization `code` parameter from the redirect URL
/// the user pasted back. Fails with `BadAuthUrl` exactly when the text is
/// not a parsable URL or its query lacks a `code` parameter.
pub fn extract_auth_code(redirect_url: &str) -> (r: Result<String, Error>)
    ensures
        match r {
            Ok(code) => url_query_pairs_of(redirect_url@) matches Some(ps) && spec_first_value(
                ps,
                "code"@,
            ) == Some(code@),
            Err(e) => e is BadAuthUrl && (match url_query_pairs_of(redirect_url@) {
                Some(ps) => spec_first_value(ps, "code"@) is None,
                None => true,
            }),
        },
{
    let pairs = match url_query_pairs(redirect_url) {
        Some(p) => p,
        None => {
            return Err(Error::BadAuthUrl);
        },
    };
    match find_pair_value(&pairs, "code") {
        Some(code) => Ok(code),
        None => Err(Error::BadAuthUrl),
    }
}

} // verus!
