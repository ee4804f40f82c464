//! The provider SDK: OAuth and token types, publish context, errors, and
//! the checks that every adapter shares.
use vstd::prelude::*;
use crate::domain::{max_timestamp_secs, min_timestamp_secs, provider_name, ProviderKind, Timestamp};
use crate::json::{get_str, Json, JsonValue};
use crate::text::pairs_view;
use crate::web::{url_append_pair, url_parsed, url_with_pair, ParsedUrl};

verus! {

broadcast use vstd::string::group_string_axioms;

/// An OAuth application registration.
#[derive(Debug, Clone)]
pub struct OAuthClient {
    pub client_id: String,
    pub client_secret: String,
    pub redirect_uri: ParsedUrl,
}

/// Where to send the user to authorize, and the state that comes back.
#[derive(Debug, Clone)]
pub struct OAuthStart {
    pub authorization_url: String,
    pub state: String,
    pub uses_pkce: bool,
}

/// The tokens of a connected account.
#[derive(Debug, Clone)]
pub struct TokenSet {
    pub access_token: String,
    pub refresh_token: Option<String>,
    pub expires_at: Option<Timestamp>,
    pub scopes: Vec<String>,
    pub provider_data: Json,
}

/// One account (organization, page, ...) reachable with a token set.
#[derive(Debug, Clone)]
pub struct ProviderAccount {
    pub account_key: String,
    pub display_name: String,
    pub token_override: Option<TokenSet>,
    pub metadata: Json,
}

/// The account and target options a publish runs with.
#[derive(Debug, Clone)]
pub struct PublishContext {
    pub account_key: String,
    pub account_metadata: Json,
    pub target_options: Json,
}

#[derive(Debug)]
pub enum ProviderError {
    Unsupported(&'static str),
    Configuration(String),
    Remote { status: u16, body: String },
    InvalidResponse(String),
    Url(url::ParseError),
}

pub open spec fn opt_string_view(o: Option<String>) -> Option<Seq<char>> {
    match o {
        Some(s) => Some(s@),
        None => None,
    }
}

impl TokenSet {
    /// Two token sets carry the same tokens, expiry, scopes and data.
    pub open spec fn same_as(self, other: TokenSet) -> bool {
        &&& self.access_token@ == other.access_token@
        &&& opt_string_view(self.refresh_token) == opt_string_view(other.refresh_token)
        &&& self.expires_at == other.expires_at
        &&& self.scopes@ == other.scopes@
        &&& self.provider_data.view_json() == other.provider_data.view_json()
    }

    /// A copy with the same content.
    pub fn duplicate(&self) -> (r: TokenSet)
        ensures
            r.same_as(*self),
    {
        TokenSet {
            access_token: self.access_token.clone(),
            refresh_token: match &self.refresh_token {
                Some(t) => Some(t.clone()),
                None => None,
            },
            expires_at: self.expires_at,
            scopes: clone_strings(&self.scopes),
            provider_data: self.provider_data.duplicate(),
        }
    }
}

/// The key, name and metadata of each account.
pub open spec fn account_entries(v: Seq<ProviderAccount>) -> Seq<(Seq<char>, Seq<char>, JsonValue)> {
    v.map_values(|a: ProviderAccount| (a.account_key@, a.display_name@, a.metadata.view_json()))
}

/// The account carries a copy of the token set.
pub open spec fn carries_tokens(a: ProviderAccount, t: TokenSet) -> bool {
    a.token_override matches Some(x) && x.same_as(t)
}

/// A copy of a list of strings.
pub fn clone_strings(v: &Vec<String>) -> (r: Vec<String>)
    ensures
        r@ == v@,
{
    let mut r: Vec<String> = Vec::new();
    let mut i: usize = 0;
    while i < v.len()
        invariant
            i <= v@.len(),
            r@ == v@.take(i as int),
        decreases v@.len() - i,
    {
        let s = v[i].clone();
        r.push(s);
        i = i + 1;
        assert(r@ =~= v@.take(i as int));
    }
    assert(v@.take(v@.len() as int) =~= v@);
    r
}

/// HTTP statuses in the 2xx range.
pub open spec fn is_success(status: u16) -> bool {
    200 <= status <= 299
}

/// Reads a provider response: a non-2xx status is the provider's rejection
/// with the body; a 2xx body must be JSON (`parsed` is the outcome of
/// parsing `body`, or the parser's message).
pub fn checked_json(status: u16, body: String, parsed: Result<Json, String>) -> (r: Result<Json, ProviderError>)
    ensures
        !is_success(status) ==> (r matches Err(ProviderError::Remote { status: s, body: b })
            && s == status && b@ == body@),
        is_success(status) ==> match parsed {
            Ok(v) => r matches Ok(x) && x.view_json() == v.view_json(),
            Err(m) => r matches Err(ProviderError::InvalidResponse(msg)) && msg@ == m@ + "; body="@
                + body@,
        },
{
    if !(200 <= status && status <= 299) {
        return Err(ProviderError::Remote { status, body });
    }
    match parsed {
        Ok(v) => Ok(v),
        Err(m) => {
            let mut msg = m;
            msg.append("; body=");
            msg.append(body.as_str());
            Err(ProviderError::InvalidResponse(msg))
        },
    }
}

/// The accounts a token set reaches when the provider has no account list:
/// one account keyed `default`, named after the provider.
pub fn default_accounts(kind: ProviderKind, tokens: &TokenSet) -> (r: Vec<ProviderAccount>)
    ensures
        r@.len() == 1,
        r@[0].account_key@ == "default"@,
        r@[0].display_name@ == provider_name(kind),
        r@[0].token_override matches Some(t) && t.same_as(*tokens),
        r@[0].metadata.view_json() == JsonValue::Null,
{
    let mut r: Vec<ProviderAccount> = Vec::new();
    r.push(
        ProviderAccount {
            account_key: "default".to_owned(),
            display_name: kind.as_str().to_owned(),
            token_override: Some(tokens.duplicate()),
            metadata: Json::Null,
        },
    );
    r
}

/// The bounds of a duration in whole seconds (`i64::MAX` milliseconds).
pub open spec fn max_duration_secs() -> int {
    9223372036854775
}

/// `now + expires_in` seconds is a representable instant.
pub open spec fn expiry_in_bounds(now: Timestamp, secs: i64) -> bool {
    &&& -max_duration_secs() <= secs <= max_duration_secs()
    &&& min_timestamp_secs() <= now.secs + secs <= max_timestamp_secs()
}

/// The response's `expires_in`, when it is an integer.
pub open spec fn expires_in(body: JsonValue) -> Option<i64> {
    match body.get("expires_in"@) {
        Some(x) => x.as_i64(),
        None => None,
    }
}

/// The expiry of a token response received at `now`.
pub open spec fn expiry_of(body: JsonValue, now: Timestamp) -> Option<Timestamp> {
    match expires_in(body) {
        Some(s) => Some(Timestamp { secs: (now.secs + s) as i64, nanos: now.nanos }),
        None => None,
    }
}

/// The response's expiry, if it states one, can be added to `now`.
pub open spec fn expiry_computable(body: JsonValue, now: Timestamp) -> bool {
    match expires_in(body) {
        Some(s) => expiry_in_bounds(now, s),
        None => true,
    }
}

/// The token set that an OAuth token response received at `now` holds: its
/// `access_token` (required), `refresh_token` when `read_refresh`, the expiry
/// `expires_in` seconds after `now`, the given scopes, and the whole body.
pub fn tokens_from_response(body: Json, now: Timestamp, read_refresh: bool, scopes: Vec<String>) -> (r: Result<TokenSet, ProviderError>)
    requires
        now.is_clock_reading(),
        get_str(body.view_json(), "access_token"@) is Some ==> expiry_computable(
            body.view_json(),
            now,
        ),
    ensures
        get_str(body.view_json(), "access_token"@) is None ==> (r matches Err(
            ProviderError::InvalidResponse(m),
        ) && m@ == "missing access_token"@),
        get_str(body.view_json(), "access_token"@) matches Some(a) ==> (r matches Ok(t) && {
            &&& t.access_token@ == a
            &&& opt_string_view(t.refresh_token) == if read_refresh {
                get_str(body.view_json(), "refresh_token"@)
            } else {
                None
            }
            &&& t.expires_at == expiry_of(body.view_json(), now)
            &&& t.expires_at matches Some(e) ==> e.wf()
            &&& t.scopes@ == scopes@
            &&& t.provider_data.view_json() == body.view_json()
        }),
{
    let access = match body.get_str("access_token") {
        Some(a) => a.to_owned(),
        None => return Err(ProviderError::InvalidResponse("missing access_token".to_owned())),
    };
    let refresh = if read_refresh {
        match body.get_str("refresh_token") {
            Some(t) => Some(t.to_owned()),
            None => None,
        }
    } else {
        None
    };
    let expires_at = match body.get("expires_in") {
        Some(x) => match x.as_i64() {
            Some(s) => Some(Timestamp { secs: now.secs + s, nanos: now.nanos }),
            None => None,
        },
        None => None,
    };
    Ok(
        TokenSet {
            access_token: access,
            refresh_token: refresh,
            expires_at,
            scopes,
            provider_data: body,
        },
    )
}

/// A URL (by its serialization) with query pairs appended in order.
pub open spec fn url_with_pairs(url: Seq<char>, pairs: Seq<(Seq<char>, Seq<char>)>) -> Option<Seq<char>>
    decreases pairs.len(),
{
    if pairs.len() == 0 {
        Some(url)
    } else {
        match url_with_pairs(url, pairs.drop_last()) {
            Some(u) => url_with_pair(u, pairs.last().0, pairs.last().1),
            None => None,
        }
    }
}

/// Appends each pair to the query of `url`, in order.
pub fn append_query_pairs(url: &str, pairs: &Vec<(String, String)>) -> (r: Result<String, ProviderError>)
    ensures
        match url_with_pairs(url@, pairs_view(pairs@)) {
            Some(s) => r matches Ok(x) && x@ == s,
            None => r matches Err(ProviderError::Url(_)),
        },
{
    let mut cur = url.to_owned();
    let mut i: usize = 0;
    while i < pairs.len()
        invariant
            i <= pairs@.len(),
            url_with_pairs(url@, pairs_view(pairs@).take(i as int)) == Some(cur@),
        decreases pairs@.len() - i,
    {
        proof {
            assert(pairs_view(pairs@).take(i + 1).drop_last() =~= pairs_view(pairs@).take(i as int));
        }
        match url_append_pair(cur.as_str(), pairs[i].0.as_str(), pairs[i].1.as_str()) {
            Ok(next) => {
                cur = next;
            },
            Err(e) => {
                proof {
                    lemma_url_with_pairs_fails(url@, pairs_view(pairs@), i as int);
                    assert(pairs_view(pairs@).take(pairs@.len() as int) =~= pairs_view(pairs@));
                }
                return Err(ProviderError::Url(e));
            },
        }
        i = i + 1;
    }
    assert(pairs_view(pairs@).take(pairs@.len() as int) =~= pairs_view(pairs@));
    Ok(cur)
}

proof fn lemma_url_with_pairs_fails(url: Seq<char>, pairs: Seq<(Seq<char>, Seq<char>)>, i: int)
    requires
        0 <= i < pairs.len(),
        url_with_pairs(url, pairs.take(i + 1)) is None,
    ensures
        url_with_pairs(url, pairs) is None,
    decreases pairs.len() - i,
{
    if i + 1 < pairs.len() {
        assert(pairs.take(i + 2).drop_last() =~= pairs.take(i + 1));
        lemma_url_with_pairs_fails(url, pairs, i + 1);
    } else {
        assert(pairs.take(i + 1) =~= pairs);
    }
}

/// The authorization URL for a base and its query pairs: the base must
/// parse, then each pair is appended.
pub open spec fn authorization_url_text(base: Seq<char>, pairs: Seq<(Seq<char>, Seq<char>)>) -> Option<Seq<char>> {
    match url_parsed(base) {
        Some(u) => url_with_pairs(u.text, pairs),
        None => None,
    }
}

/// Parses `base` and appends the query pairs.
pub fn authorization_url_for(base: &str, pairs: &Vec<(String, String)>) -> (r: Result<String, ProviderError>)
    ensures
        match authorization_url_text(base@, pairs_view(pairs@)) {
            Some(s) => r matches Ok(x) && x@ == s,
            None => r matches Err(ProviderError::Url(_)),
        },
{
    let u = match ParsedUrl::parse(base) {
        Ok(u) => u,
        Err(e) => return Err(ProviderError::Url(e)),
    };
    append_query_pairs(u.as_str(), pairs)
}

/// A pair of owned strings.
pub fn pair(k: &str, v: &str) -> (r: (String, String))
    ensures
        r.0@ == k@,
        r.1@ == v@,
{
    (k.to_owned(), v.to_owned())
}

} // verus!
