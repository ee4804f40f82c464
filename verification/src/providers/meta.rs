//! Meta Facebook Page: a Page post that links to the canonical event.
use vstd::prelude::*;
use crate::datetime::{to_utc_display, utc_display_text};
use crate::domain::{
    event_verdict, DeliveryMode, EventDraft, ProviderCapabilities, ProviderKind, Publication,
    PublicationStatus, Timestamp,
};
use crate::json::{get_str, object2, Json, JsonValue};
use crate::sdk::{
    account_entries, authorization_url_for, authorization_url_text, clone_strings,
    expiry_computable, expiry_of, opt_string_view, pair, tokens_from_response, OAuthClient,
    OAuthStart, ProviderAccount, ProviderError, PublishContext, TokenSet,
};
use crate::text::{chars_of, pairs_view, str_eq, strings_view};
use crate::web::{url_parsed, ParsedUrl};

verus! {

broadcast use vstd::string::group_string_axioms;

pub struct MetaFacebookPageAdapter {
    oauth: OAuthClient,
    graph_version: String,
}

/// `s.trim_start_matches('v')`.
pub open spec fn strip_leading_v(s: Seq<char>) -> Seq<char>
    decreases s.len(),
{
    if s.len() > 0 && s[0] == 'v' {
        strip_leading_v(s.drop_first())
    } else {
        s
    }
}

/// The Graph API address of `path` for a version (with or without its `v`).
pub open spec fn graph_text(version: Seq<char>, path: Seq<char>) -> Seq<char> {
    "https://graph.facebook.com/v"@ + strip_leading_v(version) + "/"@ + path
}

/// The scopes the adapter asks for.
pub open spec fn meta_scope_list() -> Seq<Seq<char>> {
    seq!["pages_show_list"@, "pages_read_engagement"@, "pages_manage_posts"@]
}

/// The Page to post to: the connected account, or for the `default`
/// account the target's `page_id`.
pub open spec fn meta_page(account_key: Seq<char>, options: JsonValue) -> Option<Seq<char>> {
    if account_key == "default"@ {
        get_str(options, "page_id"@)
    } else {
        Some(account_key)
    }
}

/// The post text: the target's `message`, else title, summary and start.
pub open spec fn meta_message(e: EventDraft, options: JsonValue) -> Seq<char> {
    match get_str(options, "message"@) {
        Some(m) => m,
        None => e.title@ + "\n\n"@ + e.summary@ + "\n\nStarts "@ + utc_display_text(
            e.starts_at.secs,
            e.starts_at.nanos,
        ),
    }
}

/// The target's `message` option, when it is a string, is posted exactly as
/// given; without it the post opens with the event's title and closes with
/// the display text of its start.
pub proof fn lemma_meta_message_prefers_the_option(e: EventDraft, options: JsonValue)
    ensures
        get_str(options, "message"@) matches Some(m) ==> meta_message(e, options) == m,
        get_str(options, "message"@) is None ==> {
            let text = meta_message(e, options);
            let start = utc_display_text(e.starts_at.secs, e.starts_at.nanos);
            &&& text.len() >= e.title@.len() + start.len()
            &&& text.take(e.title@.len() as int) == e.title@
            &&& text.skip(text.len() - start.len()) == start
        },
{
    if get_str(options, "message"@) is None {
        let text = meta_message(e, options);
        let start = utc_display_text(e.starts_at.secs, e.starts_at.nanos);
        let head = e.title@ + "\n\n"@ + e.summary@ + "\n\nStarts "@;
        assert(text == head + start);
        assert(text.take(e.title@.len() as int) =~= e.title@);
        assert(text.skip(text.len() - start.len()) =~= start);
    }
}

/// The accounts for a list of Pages: each Page with a string `id` and
/// `access_token`, named by its `name` (or `Facebook Page`), with the Page
/// as metadata.
pub open spec fn page_entries(pages: Seq<JsonValue>) -> Seq<(Seq<char>, Seq<char>, JsonValue)>
    decreases pages.len(),
{
    if pages.len() == 0 {
        Seq::empty()
    } else {
        let prev = page_entries(pages.drop_last());
        let p = pages.last();
        if get_str(p, "id"@) is Some && get_str(p, "access_token"@) is Some {
            prev.push(
                (
                    get_str(p, "id"@)->0,
                    match get_str(p, "name"@) {
                        Some(n) => n,
                        None => "Facebook Page"@,
                    },
                    p,
                ),
            )
        } else {
            prev
        }
    }
}

/// The account uses the Page's own token, with the user token's expiry and
/// scopes and the Page as provider data.
pub open spec fn page_tokens(a: ProviderAccount, user: TokenSet) -> bool {
    a.token_override matches Some(t) && {
        &&& get_str(a.metadata.view_json(), "access_token"@) == Some(t.access_token@)
        &&& t.refresh_token is None
        &&& t.expires_at == user.expires_at
        &&& t.scopes@ == user.scopes@
        &&& t.provider_data.view_json() == a.metadata.view_json()
    }
}

fn strip_v(s: &str) -> (r: String)
    ensures
        r@ == strip_leading_v(s@),
{
    let v = chars_of(s);
    let mut i: usize = 0;
    assert(v@.skip(0) =~= v@);
    while i < v.len() && v[i] == 'v'
        invariant
            v@ == s@,
            i <= v@.len(),
            strip_leading_v(s@) == strip_leading_v(v@.skip(i as int)),
        decreases v@.len() - i,
    {
        assert(v@.skip(i as int).drop_first() =~= v@.skip(i + 1));
        i = i + 1;
    }
    s.substring_char(i, v.len()).to_owned()
}

impl MetaFacebookPageAdapter {
    pub closed spec fn oauth_client(self) -> OAuthClient {
        self.oauth
    }

    pub closed spec fn version(self) -> Seq<char> {
        self.graph_version@
    }

    pub fn new(oauth: OAuthClient, graph_version: String) -> (r: MetaFacebookPageAdapter)
        ensures
            r.oauth_client() == oauth,
            r.version() == graph_version@,
    {
        MetaFacebookPageAdapter { oauth, graph_version }
    }

    /// The Graph API URL of `path`.
    pub fn graph(&self, path: &str) -> (r: Result<ParsedUrl, ProviderError>)
        ensures
            match url_parsed(graph_text(self.version(), path@)) {
                Some(u) => r matches Ok(x) && x@ == u,
                None => r matches Err(ProviderError::Url(_)),
            },
    {
        let mut text = "https://graph.facebook.com/v".to_owned();
        let version = strip_v(self.graph_version.as_str());
        text.append(version.as_str());
        text.append("/");
        text.append(path);
        match ParsedUrl::parse(text.as_str()) {
            Ok(u) => Ok(u),
            Err(e) => Err(ProviderError::Url(e)),
        }
    }

    pub fn kind(&self) -> (k: ProviderKind)
        ensures
            k == ProviderKind::MetaFacebookPage,
    {
        ProviderKind::MetaFacebookPage
    }

    pub fn capabilities(&self) -> (c: ProviderCapabilities)
        ensures
            c.provider == ProviderKind::MetaFacebookPage,
            c.delivery_mode == DeliveryMode::DistributionPost,
            c.flags() == (true, true, false, false, true, true, false),
            strings_view(c.notes@) == seq![
                "Creates a Facebook Page post linking to the canonical event."@,
                "Does not claim to create a native Facebook Event object."@,
                "Requires approved Page permissions and a Page task that permits content creation."@,
            ],
    {
        let mut notes: Vec<String> = Vec::new();
        notes.push("Creates a Facebook Page post linking to the canonical event.".to_owned());
        notes.push("Does not claim to create a native Facebook Event object.".to_owned());
        notes.push(
            "Requires approved Page permissions and a Page task that permits content creation.".to_owned(),
        );
        assert(strings_view(notes@) =~= seq![
            "Creates a Facebook Page post linking to the canonical event."@,
            "Does not claim to create a native Facebook Event object."@,
            "Requires approved Page permissions and a Page task that permits content creation."@,
        ]);
        ProviderCapabilities {
            provider: ProviderKind::MetaFacebookPage,
            delivery_mode: DeliveryMode::DistributionPost,
            oauth: true,
            create: true,
            update: false,
            delete: false,
            publish: true,
            webhooks: true,
            requires_manual_step: false,
            notes,
        }
    }

    /// The OAuth dialog of the configured version, asking for the Page
    /// scopes; PKCE is not used.
    pub fn authorization_url(&self, state: &str, pkce_challenge: Option<&str>) -> (r: Result<OAuthStart, ProviderError>)
        ensures
            match authorization_url_text(
                "https://www.facebook.com/"@ + self.version() + "/dialog/oauth"@,
                seq![
                    ("client_id"@, self.oauth_client().client_id@),
                    ("redirect_uri"@, self.oauth_client().redirect_uri@.text),
                    ("state"@, state@),
                    ("response_type"@, "code"@),
                    ("scope"@, "pages_show_list,pages_read_engagement,pages_manage_posts"@),
                ],
            ) {
                Some(u) => r matches Ok(s) && s.authorization_url@ == u && s.state@ == state@
                    && !s.uses_pkce,
                None => r matches Err(ProviderError::Url(_)),
            },
    {
        let mut base = "https://www.facebook.com/".to_owned();
        base.append(self.graph_version.as_str());
        base.append("/dialog/oauth");
        let mut pairs: Vec<(String, String)> = Vec::new();
        pairs.push(pair("client_id", self.oauth.client_id.as_str()));
        pairs.push(pair("redirect_uri", self.oauth.redirect_uri.as_str()));
        pairs.push(pair("state", state));
        pairs.push(pair("response_type", "code"));
        pairs.push(pair("scope", "pages_show_list,pages_read_engagement,pages_manage_posts"));
        assert(pairs_view(pairs@) =~= seq![
            ("client_id"@, self.oauth_client().client_id@),
            ("redirect_uri"@, self.oauth_client().redirect_uri@.text),
            ("state"@, state@),
            ("response_type"@, "code"@),
            ("scope"@, "pages_show_list,pages_read_engagement,pages_manage_posts"@),
        ]);
        let url = authorization_url_for(base.as_str(), &pairs)?;
        Ok(OAuthStart { authorization_url: url, state: state.to_owned(), uses_pkce: false })
    }

    /// The token endpoint and the query that exchanges a code.
    pub fn token_request(&self, code: &str) -> (r: Result<(ParsedUrl, Vec<(String, String)>), ProviderError>)
        ensures
            match url_parsed(graph_text(self.version(), "oauth/access_token"@)) {
                Some(u) => r matches Ok((url, q)) && url@ == u && pairs_view(q@) == seq![
                    ("client_id"@, self.oauth_client().client_id@),
                    ("client_secret"@, self.oauth_client().client_secret@),
                    ("redirect_uri"@, self.oauth_client().redirect_uri@.text),
                    ("code"@, code@),
                ],
                None => r matches Err(ProviderError::Url(_)),
            },
    {
        let url = self.graph("oauth/access_token")?;
        let mut q: Vec<(String, String)> = Vec::new();
        q.push(pair("client_id", self.oauth.client_id.as_str()));
        q.push(pair("client_secret", self.oauth.client_secret.as_str()));
        q.push(pair("redirect_uri", self.oauth.redirect_uri.as_str()));
        q.push(pair("code", code));
        assert(pairs_view(q@) =~= seq![
            ("client_id"@, self.oauth_client().client_id@),
            ("client_secret"@, self.oauth_client().client_secret@),
            ("redirect_uri"@, self.oauth_client().redirect_uri@.text),
            ("code"@, code@),
        ]);
        Ok((url, q))
    }

    /// The tokens of a token response received at `now`: the access token,
    /// no refresh token, the expiry, the Page scopes and the whole body.
    pub fn tokens_from_response(&self, body: Json, now: Timestamp) -> (r: Result<TokenSet, ProviderError>)
        requires
            now.is_clock_reading(),
            get_str(body.view_json(), "access_token"@) is Some ==> expiry_computable(
                body.view_json(),
                now,
            ),
        ensures
            get_str(body.view_json(), "access_token"@) is None ==> (r matches Err(
                ProviderError::InvalidResponse(m),
            ) && m@ == "missing access_token"@),
            get_str(body.view_json(), "access_token"@) matches Some(a) ==> (r matches Ok(t) && {
                &&& t.access_token@ == a
                &&& t.refresh_token is None
                &&& t.expires_at == expiry_of(body.view_json(), now)
                &&& strings_view(t.scopes@) == meta_scope_list()
                &&& t.provider_data.view_json() == body.view_json()
            }),
    {
        let mut scopes: Vec<String> = Vec::new();
        scopes.push("pages_show_list".to_owned());
        scopes.push("pages_read_engagement".to_owned());
        scopes.push("pages_manage_posts".to_owned());
        assert(strings_view(scopes@) =~= meta_scope_list());
        tokens_from_response(body, now, false, scopes)
    }

    /// The Page-accounts endpoint and its query.
    pub fn accounts_request(&self) -> (r: Result<(ParsedUrl, Vec<(String, String)>), ProviderError>)
        ensures
            match url_parsed(graph_text(self.version(), "me/accounts"@)) {
                Some(u) => r matches Ok((url, q)) && url@ == u && pairs_view(q@) == seq![
                    ("fields"@, "id,name,access_token,tasks"@),
                ],
                None => r matches Err(ProviderError::Url(_)),
            },
    {
        let url = self.graph("me/accounts")?;
        let mut q: Vec<(String, String)> = Vec::new();
        q.push(pair("fields", "id,name,access_token,tasks"));
        assert(pairs_view(q@) =~= seq![("fields"@, "id,name,access_token,tasks"@)]);
        Ok((url, q))
    }

    /// The accounts of a Page-accounts reply: one per Page with an id and a
    /// Page token; none is an error.
    pub fn accounts_from_response(&self, body: &Json, tokens: &TokenSet) -> (r: Result<Vec<ProviderAccount>, ProviderError>)
        ensures
            match body.view_json().get("data"@) {
                Some(d) => match d.as_array() {
                    Some(pages) => if page_entries(pages).len() == 0 {
                        r matches Err(ProviderError::InvalidResponse(m)) && m@
                            == "the authorized user has no Page with a usable Page access token"@
                    } else {
                        r matches Ok(accounts) && account_entries(accounts@) == page_entries(pages)
                            && forall|i: int|
                            0 <= i < accounts@.len() ==> page_tokens(
                                #[trigger] accounts@[i],
                                *tokens,
                            )
                    },
                    None => r matches Err(ProviderError::InvalidResponse(m)) && m@
                        == "missing Page account data"@,
                },
                None => r matches Err(ProviderError::InvalidResponse(m)) && m@
                    == "missing Page account data"@,
            },
    {
        let pages = match body.get("data") {
            Some(d) => match d.as_array() {
                Some(a) => a,
                None => return Err(
                    ProviderError::InvalidResponse("missing Page account data".to_owned()),
                ),
            },
            None => return Err(ProviderError::InvalidResponse("missing Page account data".to_owned())),
        };
        let ghost items = crate::json::view_items(pages@);
        proof {
            crate::json::lemma_view_items_len(pages@);
        }
        let mut accounts: Vec<ProviderAccount> = Vec::new();
        let mut i: usize = 0;
        while i < pages.len()
            invariant
                i <= pages@.len(),
                items == crate::json::view_items(pages@),
                items.len() == pages@.len(),
                forall|j: int| 0 <= j < pages@.len() ==> #[trigger] items[j] == pages@[j].view_json(),
                account_entries(accounts@) == page_entries(items.take(i as int)),
                forall|j: int| 0 <= j < accounts@.len() ==> page_tokens(#[trigger] accounts@[j], *tokens),
            decreases pages@.len() - i,
        {
            let page = &pages[i];
            proof {
                assert(items.take(i + 1).drop_last() =~= items.take(i as int));
                assert(items.take(i + 1).last() == page.view_json());
            }
            match (page.get_str("id"), page.get_str("access_token")) {
                (Some(id), Some(token)) => {
                    let name = match page.get_str("name") {
                        Some(n) => n.to_owned(),
                        None => "Facebook Page".to_owned(),
                    };
                    let account = ProviderAccount {
                        account_key: id.to_owned(),
                        display_name: name,
                        token_override: Some(
                            TokenSet {
                                access_token: token.to_owned(),
                                refresh_token: None,
                                expires_at: tokens.expires_at,
                                scopes: clone_strings(&tokens.scopes),
                                provider_data: page.duplicate(),
                            },
                        ),
                        metadata: page.duplicate(),
                    };
                    proof {
                        assert(account_entries(accounts@.push(account)) =~= account_entries(
                            accounts@,
                        ).push((account.account_key@, account.display_name@, account.metadata.view_json())));
                    }
                    accounts.push(account);
                },
                _ => {},
            }
            i = i + 1;
        }
        assert(items.take(pages@.len() as int) =~= items);
        if accounts.len() == 0 {
            return Err(
                ProviderError::InvalidResponse(
                    "the authorized user has no Page with a usable Page access token".to_owned(),
                ),
            );
        }
        Ok(accounts)
    }

    /// The feed endpoint of the Page and the form that posts the message
    /// with a link to the event.  The event must be valid and a Page known.
    pub fn post_request(&self, event: &EventDraft, context: &PublishContext) -> (r: Result<(ParsedUrl, Vec<(String, String)>), ProviderError>)
        requires
            event.starts_at.wf(),
        ensures
            event_verdict(*event) matches Err(m) ==> (r matches Err(ProviderError::Configuration(x))
                && x@ == "invalid event: "@ + m),
            event_verdict(*event) is Ok ==> match meta_page(
                context.account_key@,
                context.target_options.view_json(),
            ) {
                None => r matches Err(ProviderError::Configuration(x)) && x@
                    == "page_id is required"@,
                Some(page) => match url_parsed(graph_text(self.version(), page + "/feed"@)) {
                    None => r matches Err(ProviderError::Url(_)),
                    Some(u) => r matches Ok((url, form)) && url@ == u && pairs_view(form@) == seq![
                        ("message"@, meta_message(*event, context.target_options.view_json())),
                        ("link"@, event.canonical_url@),
                    ],
                },
            },            get_str(context.target_options.view_json(), "message"@) matches Some(m) ==> (r matches Ok(
                (_, form),
            ) ==> form@.len() == 2 && form@[0].0@ == "message"@ && form@[0].1@ == m),
    {
        match event.validate() {
            Ok(()) => {},
            Err(e) => return Err(ProviderError::Configuration(e.to_display_string())),
        }
        let options = &context.target_options;
        let page_id: &str = if str_eq(context.account_key.as_str(), "default") {
            match options.get_str("page_id") {
                Some(p) => p,
                None => return Err(ProviderError::Configuration("page_id is required".to_owned())),
            }
        } else {
            context.account_key.as_str()
        };
        let mut path = page_id.to_owned();
        path.append("/feed");
        let url = self.graph(path.as_str())?;
        let message = match options.get_str("message") {
            Some(m) => m.to_owned(),
            None => {
                let mut m = event.title.clone();
                m.append("\n\n");
                m.append(event.summary.as_str());
                m.append("\n\nStarts ");
                m.append(to_utc_display(&event.starts_at).as_str());
                m
            },
        };
        let mut form: Vec<(String, String)> = Vec::new();
        form.push(("message".to_owned(), message));
        form.push(pair("link", event.canonical_url.as_str()));
        assert(pairs_view(form@) =~= seq![
            ("message"@, meta_message(*event, context.target_options.view_json())),
            ("link"@, event.canonical_url@),
        ]);
        proof {
            lemma_meta_message_prefers_the_option(*event, context.target_options.view_json());
        }
        Ok((url, form))
    }

    /// The publication for the feed reply: the post id, and the reply with
    /// the event's canonical URL as the receipt.
    pub fn publication(&self, body: Json, event: &EventDraft) -> (p: Publication)
        ensures
            p.provider == ProviderKind::MetaFacebookPage,
            p.status == PublicationStatus::Published,
            opt_string_view(p.external_id) == get_str(body.view_json(), "id"@),
            p.external_url is None,
            p.receipt.view_json() == JsonValue::Object(
                seq![
                    ("page_post"@, body.view_json()),
                    ("canonical_url"@, JsonValue::Str(event.canonical_url@)),
                ],
            ),
            p.action is None,
    {
        let id = match body.get_str("id") {
            Some(s) => Some(s.to_owned()),
            None => None,
        };
        let receipt = object2(
            "page_post",
            body,
            "canonical_url",
            Json::string(event.canonical_url.as_str()),
        );
        Publication {
            provider: ProviderKind::MetaFacebookPage,
            status: PublicationStatus::Published,
            external_id: id,
            external_url: None,
            receipt,
            action: None,
        }
    }
}

} // verus!
