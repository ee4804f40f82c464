//! Eventbrite: native events created under an organization, with a ticket
//! class, then published.
use vstd::prelude::*;
use crate::datetime::{rfc3339_text, to_rfc3339};
use crate::domain::{
    event_verdict, DeliveryMode, EventDraft, ProviderCapabilities, ProviderKind, Publication,
    PublicationStatus,
};
use crate::json::{get_str, lemma_field_lookup_absent, lemma_field_lookup_first, opt_get, object1, object2, object_of, Json, JsonNumber, JsonValue};
use crate::sdk::{
    account_entries, authorization_url_for, authorization_url_text, opt_string_view, pair, tokens_from_response,
    expiry_computable, expiry_of, OAuthClient, OAuthStart, ProviderAccount, ProviderError,
    PublishContext, TokenSet,
};
use crate::text::{decimal_text, pairs_view, str_eq, strings_view, u64_to_decimal};
use crate::web::{parsed_url_text, url_join, url_joined, url_parsed, ParsedUrl, UrlView};

verus! {

broadcast use vstd::string::group_string_axioms;

pub struct EventbriteAdapter {
    oauth: OAuthClient,
    api_base: ParsedUrl,
}

/// The default Eventbrite API base.
pub open spec fn eventbrite_api_base() -> Seq<char> {
    "https://www.eventbriteapi.com/v3/"@
}

/// The currency a target asks for (`USD` by default).
pub open spec fn eventbrite_currency(options: JsonValue) -> Seq<char> {
    match get_str(options, "currency"@) {
        Some(c) => c,
        None => "USD"@,
    }
}

/// The organization to create the event under: the connected account,
/// or for the `default` account the target's `organization_id`.
pub open spec fn eventbrite_organization(account_key: Seq<char>, options: JsonValue) -> Option<Seq<char>> {
    if account_key == "default"@ {
        get_str(options, "organization_id"@)
    } else {
        Some(account_key)
    }
}

pub open spec fn utc_time(t: crate::domain::Timestamp, tz: Seq<char>) -> JsonValue {
    JsonValue::Object(
        seq![("utc"@, JsonValue::Str(rfc3339_text(t.secs, t.nanos))), ("timezone"@, JsonValue::Str(tz))],
    )
}

/// The body that creates the event.
pub open spec fn eventbrite_event_body(e: EventDraft, currency: Seq<char>) -> JsonValue {
    JsonValue::Object(
        seq![
            (
                "event"@,
                JsonValue::Object(
                    seq![
                        ("name"@, JsonValue::Object(seq![("html"@, JsonValue::Str(e.title@))])),
                        ("summary"@, JsonValue::Str(e.summary@)),
                        ("start"@, utc_time(e.starts_at, e.timezone@)),
                        ("end"@, utc_time(e.ends_at, e.timezone@)),
                        ("currency"@, JsonValue::Str(currency)),
                        ("online_event"@, JsonValue::Bool(e.online_url is Some)),
                    ],
                ),
            ),
        ],
    )
}

/// The ticket class a target asks for: its name (`General Admission`),
/// quantity (100) and whether it is free (yes); a paid ticket needs
/// `cost_minor` and costs `<currency>,<cost_minor>`.
pub open spec fn eventbrite_ticket(options: JsonValue) -> Option<JsonValue> {
    let name = match get_str(options, "ticket_name"@) {
        Some(n) => n,
        None => "General Admission"@,
    };
    let quantity: u64 = match options.get("quantity_total"@) {
        Some(q) => match q.as_u64() {
            Some(n) => n,
            None => 100,
        },
        None => 100,
    };
    let free = match options.get("free"@) {
        Some(f) => match f.as_bool() {
            Some(b) => b,
            None => true,
        },
        None => true,
    };
    let base = seq![
        ("name"@, JsonValue::Str(name)),
        ("quantity_total"@, JsonValue::PosInt(quantity)),
        ("free"@, JsonValue::Bool(free)),
    ];
    if free {
        Some(JsonValue::Object(base))
    } else {
        match options.get("cost_minor"@) {
            Some(c) => match c.as_u64() {
                Some(a) => Some(
                    JsonValue::Object(
                        base.push(
                            (
                                "cost"@,
                                JsonValue::Str(
                                    eventbrite_currency(options) + ","@ + decimal_text(a as nat),
                                ),
                            ),
                        ),
                    ),
                ),
                None => None,
            },
            None => None,
        }
    }
}

/// The created event carries the draft's title and summary, starts at the
/// RFC 3339 text of its start and ends at that of its end, in the draft's
/// time zone, uses the given currency, and is online exactly when the draft
/// has an online URL.
pub proof fn lemma_eventbrite_event_describes_the_draft(e: EventDraft, currency: Seq<char>)
    ensures
        ({
            let ev = eventbrite_event_body(e, currency).get("event"@);
            &&& opt_get(opt_get(ev, "name"@), "html"@) == Some(JsonValue::Str(e.title@))
            &&& opt_get(ev, "summary"@) == Some(JsonValue::Str(e.summary@))
            &&& opt_get(opt_get(ev, "start"@), "utc"@) == Some(
                JsonValue::Str(rfc3339_text(e.starts_at.secs, e.starts_at.nanos)),
            )
            &&& opt_get(opt_get(ev, "end"@), "utc"@) == Some(
                JsonValue::Str(rfc3339_text(e.ends_at.secs, e.ends_at.nanos)),
            )
            &&& opt_get(opt_get(ev, "start"@), "timezone"@) == Some(JsonValue::Str(e.timezone@))
            &&& opt_get(ev, "currency"@) == Some(JsonValue::Str(currency))
            &&& (opt_get(ev, "online_event"@) == Some(JsonValue::Bool(true)) <==> e.online_url
                is Some)
            &&& (opt_get(ev, "online_event"@) == Some(JsonValue::Bool(false)) <==> e.online_url
                is None)
        }),
{
    reveal_strlit("event");
    reveal_strlit("name");
    reveal_strlit("html");
    reveal_strlit("summary");
    reveal_strlit("start");
    reveal_strlit("end");
    reveal_strlit("utc");
    reveal_strlit("timezone");
    reveal_strlit("currency");
    reveal_strlit("online_event");
    assert("name"@.len() == 4 && "summary"@.len() == 7 && "start"@.len() == 5);
    assert("end"@.len() == 3 && "currency"@.len() == 8 && "online_event"@.len() == 12);
    assert("utc"@.len() == 3 && "timezone"@.len() == 8);
    assert("start"@[0] != "summary"@[1]);
    let f = eventbrite_event_body(e, currency)->Object_0;
    lemma_field_lookup_first(f, 0, "event"@);
    let g = f[0].1->Object_0;
    lemma_field_lookup_first(g, 0, "name"@);
    lemma_field_lookup_first(g[0].1->Object_0, 0, "html"@);
    lemma_field_lookup_first(g, 1, "summary"@);
    lemma_field_lookup_first(g, 2, "start"@);
    lemma_field_lookup_first(g, 3, "end"@);
    lemma_field_lookup_first(g, 4, "currency"@);
    lemma_field_lookup_first(g, 5, "online_event"@);
    lemma_field_lookup_first(g[2].1->Object_0, 0, "utc"@);
    lemma_field_lookup_first(g[2].1->Object_0, 1, "timezone"@);
    lemma_field_lookup_first(g[3].1->Object_0, 0, "utc"@);
}

/// A ticket class is free unless the target's `free` option is `false`
/// (a missing or non-boolean option means free); a free one has no cost, and
/// only a paid one without a whole `cost_minor` is refused.
pub proof fn lemma_eventbrite_ticket_is_free_by_default(options: JsonValue)
    ensures
        ({
            let paid = options.get("free"@) == Some(JsonValue::Bool(false));
            let amount = match options.get("cost_minor"@) {
                Some(c) => c.as_u64(),
                None => None,
            };
            &&& eventbrite_ticket(options) is None <==> (paid && amount is None)
            &&& eventbrite_ticket(options) matches Some(t) ==> t.get("free"@) == Some(
                JsonValue::Bool(!paid),
            )
            &&& eventbrite_ticket(options) matches Some(t) ==> (t.get("cost"@) is None <==> !paid)
            &&& options.get("free"@) is None ==> (eventbrite_ticket(options) matches Some(t)
                && t.get("free"@) == Some(JsonValue::Bool(true)) && t.get("cost"@) is None)
            &&& eventbrite_ticket(options) matches Some(t) ==> (paid ==> (amount matches Some(a)
                && t.get("cost"@) == Some(
                JsonValue::Str(eventbrite_currency(options) + ","@ + decimal_text(a as nat)),
            )))
            &&& eventbrite_ticket(options) matches Some(t) ==> t.get("name"@) == Some(
                JsonValue::Str(
                    match get_str(options, "ticket_name"@) {
                        Some(n) => n,
                        None => "General Admission"@,
                    },
                ),
            )
            &&& eventbrite_ticket(options) matches Some(t) ==> t.get("quantity_total"@) == Some(
                JsonValue::PosInt(
                    match options.get("quantity_total"@) {
                        Some(q) => match q.as_u64() {
                            Some(n) => n,
                            None => 100,
                        },
                        None => 100,
                    },
                ),
            )
        }),
{
    reveal_strlit("name");
    reveal_strlit("quantity_total");
    reveal_strlit("free");
    reveal_strlit("cost");
    assert("name"@.len() == 4 && "quantity_total"@.len() == 14 && "free"@.len() == 4);
    assert("cost"@.len() == 4 && "free"@[0] != "name"@[0] && "cost"@[0] != "name"@[0]);
    assert("cost"@[0] != "free"@[0]);
    match eventbrite_ticket(options) {
        Some(t) => {
            let f = t->Object_0;
            lemma_field_lookup_first(f, 0, "name"@);
            lemma_field_lookup_first(f, 1, "quantity_total"@);
            lemma_field_lookup_first(f, 2, "free"@);
            if f.len() == 4 {
                lemma_field_lookup_first(f, 3, "cost"@);
            } else {
                lemma_field_lookup_absent(f, "cost"@);
            }
        },
        None => {},
    }
}

/// The accounts for a list of organizations: each one with a string `id`,
/// named by its `name` (or `Eventbrite organization`), with the
/// organization as metadata.
pub open spec fn organization_entries(orgs: Seq<JsonValue>) -> Seq<(Seq<char>, Seq<char>, JsonValue)>
    decreases orgs.len(),
{
    if orgs.len() == 0 {
        Seq::empty()
    } else {
        let prev = organization_entries(orgs.drop_last());
        let o = orgs.last();
        match get_str(o, "id"@) {
            Some(id) => prev.push(
                (
                    id,
                    match get_str(o, "name"@) {
                        Some(n) => n,
                        None => "Eventbrite organization"@,
                    },
                    o,
                ),
            ),
            None => prev,
        }
    }
}

impl EventbriteAdapter {
    pub closed spec fn oauth_client(self) -> OAuthClient {
        self.oauth
    }

    pub closed spec fn api_base_url(self) -> UrlView {
        self.api_base@
    }

    /// An adapter on the default API base.
    pub fn new(oauth: OAuthClient) -> (r: Result<EventbriteAdapter, ProviderError>)
        ensures
            match url_parsed(eventbrite_api_base()) {
                Some(u) => r matches Ok(a) && a.api_base_url() == u && a.oauth_client() == oauth,
                None => r matches Err(ProviderError::Url(_)),
            },
    {
        let api_base = match ParsedUrl::parse("https://www.eventbriteapi.com/v3/") {
            Ok(u) => u,
            Err(e) => return Err(ProviderError::Url(e)),
        };
        Ok(EventbriteAdapter { oauth, api_base })
    }

    /// The same adapter on another API base.
    pub fn with_api_base(self, api_base: ParsedUrl) -> (r: EventbriteAdapter)
        ensures
            r.api_base_url() == api_base@,
            r.oauth_client() == self.oauth_client(),
    {
        EventbriteAdapter { oauth: self.oauth, api_base }
    }

    /// An API endpoint: `path` joined to the API base.
    pub fn endpoint(&self, path: &str) -> (r: Result<String, ProviderError>)
        ensures
            match url_joined(self.api_base_url().text, path@) {
                Some(u) => r matches Ok(s) && s@ == u,
                None => r matches Err(ProviderError::Url(_)),
            },
    {
        match url_join(self.api_base.as_str(), path) {
            Ok(s) => Ok(s),
            Err(e) => Err(ProviderError::Url(e)),
        }
    }

    pub fn kind(&self) -> (k: ProviderKind)
        ensures
            k == ProviderKind::Eventbrite,
    {
        ProviderKind::Eventbrite
    }

    pub fn capabilities(&self) -> (c: ProviderCapabilities)
        ensures
            c.provider == ProviderKind::Eventbrite,
            c.delivery_mode == DeliveryMode::NativeEvent,
            c.flags() == (true, true, false, false, true, true, false),
            strings_view(c.notes@) == seq![
                "Creation requires an Eventbrite organization."@,
                "A ticket class is created before publishing."@,
                "The v1 adapter publishes new events; remote update and delete are not implemented yet."@,
            ],
    {
        let mut notes: Vec<String> = Vec::new();
        notes.push("Creation requires an Eventbrite organization.".to_owned());
        notes.push("A ticket class is created before publishing.".to_owned());
        notes.push(
            "The v1 adapter publishes new events; remote update and delete are not implemented yet.".to_owned(),
        );
        assert(strings_view(notes@) =~= seq![
            "Creation requires an Eventbrite organization."@,
            "A ticket class is created before publishing."@,
            "The v1 adapter publishes new events; remote update and delete are not implemented yet."@,
        ]);
        ProviderCapabilities {
            provider: ProviderKind::Eventbrite,
            delivery_mode: DeliveryMode::NativeEvent,
            oauth: true,
            create: true,
            update: false,
            delete: false,
            publish: true,
            webhooks: true,
            requires_manual_step: false,
            notes,
        }
    }

    /// The authorization page with the code response type, the client,
    /// the redirect URI and the state; PKCE is not used.
    pub fn authorization_url(&self, state: &str, pkce_challenge: Option<&str>) -> (r: Result<OAuthStart, ProviderError>)
        ensures
            match authorization_url_text(
                "https://www.eventbrite.com/oauth/authorize"@,
                seq![
                    ("response_type"@, "code"@),
                    ("client_id"@, self.oauth_client().client_id@),
                    ("redirect_uri"@, self.oauth_client().redirect_uri@.text),
                    ("state"@, state@),
                ],
            ) {
                Some(u) => r matches Ok(s) && s.authorization_url@ == u && s.state@ == state@
                    && !s.uses_pkce,
                None => r matches Err(ProviderError::Url(_)),
            },
    {
        let mut pairs: Vec<(String, String)> = Vec::new();
        pairs.push(pair("response_type", "code"));
        pairs.push(pair("client_id", self.oauth.client_id.as_str()));
        pairs.push(pair("redirect_uri", self.oauth.redirect_uri.as_str()));
        pairs.push(pair("state", state));
        assert(pairs_view(pairs@) =~= seq![
            ("response_type"@, "code"@),
            ("client_id"@, self.oauth_client().client_id@),
            ("redirect_uri"@, self.oauth_client().redirect_uri@.text),
            ("state"@, state@),
        ]);
        let url = authorization_url_for("https://www.eventbrite.com/oauth/authorize", &pairs)?;
        Ok(OAuthStart { authorization_url: url, state: state.to_owned(), uses_pkce: false })
    }

    /// The form posted to the token endpoint to exchange a code.
    pub fn token_request_form(&self, code: &str) -> (r: Vec<(String, String)>)
        ensures
            pairs_view(r@) == seq![
                ("grant_type"@, "authorization_code"@),
                ("client_id"@, self.oauth_client().client_id@),
                ("client_secret"@, self.oauth_client().client_secret@),
                ("code"@, code@),
                ("redirect_uri"@, self.oauth_client().redirect_uri@.text),
            ],
    {
        let mut r: Vec<(String, String)> = Vec::new();
        r.push(pair("grant_type", "authorization_code"));
        r.push(pair("client_id", self.oauth.client_id.as_str()));
        r.push(pair("client_secret", self.oauth.client_secret.as_str()));
        r.push(pair("code", code));
        r.push(pair("redirect_uri", self.oauth.redirect_uri.as_str()));
        assert(pairs_view(r@) =~= seq![
            ("grant_type"@, "authorization_code"@),
            ("client_id"@, self.oauth_client().client_id@),
            ("client_secret"@, self.oauth_client().client_secret@),
            ("code"@, code@),
            ("redirect_uri"@, self.oauth_client().redirect_uri@.text),
        ]);
        r
    }

    /// The tokens of a token response received at `now`: access and
    /// refresh token, expiry, no scopes, and the whole body.
    pub fn tokens_from_response(&self, body: Json, now: crate::domain::Timestamp) -> (r: Result<TokenSet, ProviderError>)
        requires
            now.is_clock_reading(),
            get_str(body.view_json(), "access_token"@) is Some ==> expiry_computable(
                body.view_json(),
                now,
            ),
        ensures
            get_str(body.view_json(), "access_token"@) is None ==> (r matches Err(
                ProviderError::InvalidResponse(m),
            ) && m@ == "missing access_token"@),
            get_str(body.view_json(), "access_token"@) matches Some(a) ==> (r matches Ok(t) && {
                &&& t.access_token@ == a
                &&& opt_string_view(t.refresh_token) == get_str(body.view_json(), "refresh_token"@)
                &&& t.expires_at == expiry_of(body.view_json(), now)
                &&& t.scopes@.len() == 0
                &&& t.provider_data.view_json() == body.view_json()
            }),
    {
        tokens_from_response(body, now, true, Vec::new())
    }

    /// The accounts of an organizations response: one per organization
    /// with an `id`; none is an error.
    pub fn accounts_from_response(&self, body: &Json, tokens: &TokenSet) -> (r: Result<Vec<ProviderAccount>, ProviderError>)
        ensures
            match body.view_json().get("organizations"@) {
                Some(o) => match o.as_array() {
                    Some(orgs) => if organization_entries(orgs).len() == 0 {
                        r matches Err(ProviderError::InvalidResponse(m)) && m@
                            == "the authorized user has no Eventbrite organizations"@
                    } else {
                        r matches Ok(accounts) && account_entries(accounts@)
                            == organization_entries(orgs) && forall|i: int|
                            0 <= i < accounts@.len() ==> crate::sdk::carries_tokens(
                                #[trigger] accounts@[i],
                                *tokens,
                            )
                    },
                    None => r matches Err(ProviderError::InvalidResponse(m)) && m@
                        == "missing organizations"@,
                },
                None => r matches Err(ProviderError::InvalidResponse(m)) && m@
                    == "missing organizations"@,
            },
    {
        let orgs = match body.get("organizations") {
            Some(o) => match o.as_array() {
                Some(a) => a,
                None => return Err(ProviderError::InvalidResponse("missing organizations".to_owned())),
            },
            None => return Err(ProviderError::InvalidResponse("missing organizations".to_owned())),
        };
        let ghost items = crate::json::view_items(orgs@);
        proof {
            crate::json::lemma_view_items_len(orgs@);
        }
        let mut accounts: Vec<ProviderAccount> = Vec::new();
        let mut i: usize = 0;
        while i < orgs.len()
            invariant
                i <= orgs@.len(),
                items == crate::json::view_items(orgs@),
                items.len() == orgs@.len(),
                forall|j: int| 0 <= j < orgs@.len() ==> #[trigger] items[j] == orgs@[j].view_json(),
                account_entries(accounts@) == organization_entries(items.take(i as int)),
                forall|j: int|
                    0 <= j < accounts@.len() ==> crate::sdk::carries_tokens(
                        #[trigger] accounts@[j],
                        *tokens,
                    ),
            decreases orgs@.len() - i,
        {
            let org = &orgs[i];
            proof {
                assert(items.take(i + 1).drop_last() =~= items.take(i as int));
                assert(items.take(i + 1).last() == org.view_json());
            }
            match org.get_str("id") {
                Some(id) => {
                    let name = match org.get_str("name") {
                        Some(n) => n.to_owned(),
                        None => "Eventbrite organization".to_owned(),
                    };
                    let account = ProviderAccount {
                        account_key: id.to_owned(),
                        display_name: name,
                        token_override: Some(tokens.duplicate()),
                        metadata: org.duplicate(),
                    };
                    proof {
                        assert(account_entries(accounts@.push(account)) =~= account_entries(
                            accounts@,
                        ).push((account.account_key@, account.display_name@, account.metadata.view_json())));
                    }
                    accounts.push(account);
                },
                None => {},
            }
            i = i + 1;
        }
        assert(items.take(orgs@.len() as int) =~= items);
        if accounts.len() == 0 {
            return Err(
                ProviderError::InvalidResponse(
                    "the authorized user has no Eventbrite organizations".to_owned(),
                ),
            );
        }
        Ok(accounts)
    }
}

} // verus!

verus! {

/// `a + b + c` for three texts.
pub open spec fn concat3(a: Seq<char>, b: Seq<char>, c: Seq<char>) -> Seq<char> {
    a + b + c
}

fn concat3_exec(a: &str, b: &str, c: &str) -> (r: String)
    ensures
        r@ == concat3(a@, b@, c@),
{
    let mut r = a.to_owned();
    r.append(b);
    r.append(c);
    r
}

fn utc_time_exec(t: &crate::domain::Timestamp, tz: &str) -> (r: Json)
    requires
        t.wf(),
    ensures
        r.view_json() == utc_time(*t, tz@),
{
    object2("utc", Json::Str(to_rfc3339(t)), "timezone", Json::string(tz))
}

impl EventbriteAdapter {
    /// The first step of publishing: the URL and body that create the
    /// event.  The event must be valid and an organization known.
    pub fn create_event_request(&self, event: &EventDraft, context: &PublishContext) -> (r: Result<(String, Json), ProviderError>)
        requires
            event.starts_at.wf(),
            event.ends_at.wf(),
        ensures
            event_verdict(*event) matches Err(m) ==> (r matches Err(ProviderError::Configuration(x))
                && x@ == "invalid event: "@ + m),
            event_verdict(*event) is Ok ==> match eventbrite_organization(
                context.account_key@,
                context.target_options.view_json(),
            ) {
                None => r matches Err(ProviderError::Configuration(x)) && x@
                    == "organization_id is required"@,
                Some(org) => match url_joined(
                    self.api_base_url().text,
                    concat3("organizations/"@, org, "/events/"@),
                ) {
                    None => r matches Err(ProviderError::Url(_)),
                    Some(u) => r matches Ok((url, body)) && url@ == u && body.view_json()
                        == eventbrite_event_body(
                        *event,
                        eventbrite_currency(context.target_options.view_json()),
                    ),
                },
            },            r matches Ok((_, body)) ==> (opt_get(body.view_json().get("event"@), "online_event"@)
                == Some(JsonValue::Bool(true)) <==> event.online_url is Some),
            r matches Ok((_, body)) ==> (opt_get(body.view_json().get("event"@), "online_event"@)
                == Some(JsonValue::Bool(false)) <==> event.online_url is None),
            r matches Ok((_, body)) ==> opt_get(
                opt_get(body.view_json().get("event"@), "start"@),
                "utc"@,
            ) == Some(JsonValue::Str(rfc3339_text(event.starts_at.secs, event.starts_at.nanos))),
            r matches Ok((_, body)) ==> opt_get(
                opt_get(body.view_json().get("event"@), "end"@),
                "utc"@,
            ) == Some(JsonValue::Str(rfc3339_text(event.ends_at.secs, event.ends_at.nanos))),
    {
        match event.validate() {
            Ok(()) => {},
            Err(e) => return Err(ProviderError::Configuration(e.to_display_string())),
        }
        let options = &context.target_options;
        let currency: &str = match options.get_str("currency") {
            Some(c) => c,
            None => "USD",
        };
        let organization_id: &str = if str_eq(context.account_key.as_str(), "default") {
            match options.get_str("organization_id") {
                Some(o) => o,
                None => return Err(
                    ProviderError::Configuration("organization_id is required".to_owned()),
                ),
            }
        } else {
            context.account_key.as_str()
        };
        let path = concat3_exec("organizations/", organization_id, "/events/");
        let create_url = self.endpoint(path.as_str())?;
        let mut fields: Vec<(String, Json)> = Vec::new();
        fields.push(("name".to_owned(), object1("html", Json::string(event.title.as_str()))));
        fields.push(("summary".to_owned(), Json::string(event.summary.as_str())));
        fields.push(("start".to_owned(), utc_time_exec(&event.starts_at, event.timezone.as_str())));
        fields.push(("end".to_owned(), utc_time_exec(&event.ends_at, event.timezone.as_str())));
        fields.push(("currency".to_owned(), Json::string(currency)));
        fields.push(("online_event".to_owned(), Json::Bool(event.online_url.is_some())));
        let inner = object_of(fields);
        let ghost expected = eventbrite_event_body(
            *event,
            eventbrite_currency(context.target_options.view_json()),
        );
        proof {
            assert(inner.view_json() == expected->Object_0[0].1) by {
                assert(crate::json::view_fields(fields@) =~= expected->Object_0[0].1->Object_0);
            }
        }
        let body = object1("event", inner);
        proof {
            lemma_eventbrite_event_describes_the_draft(
                *event,
                eventbrite_currency(context.target_options.view_json()),
            );
        }
        Ok((create_url, body))
    }

    /// The second step, once the event exists: its id (from the creation
    /// reply), the ticket-class URL, and the ticket-class body.
    pub fn ticket_class_request(&self, context: &PublishContext, created: &Json) -> (r: Result<(String, String, Json), ProviderError>)
        ensures
            match get_str(created.view_json(), "id"@) {
                None => r matches Err(ProviderError::InvalidResponse(x)) && x@
                    == "created event has no id"@,
                Some(id) => match url_joined(
                    self.api_base_url().text,
                    concat3("events/"@, id, "/ticket_classes/"@),
                ) {
                    None => r matches Err(ProviderError::Url(_)),
                    Some(u) => match eventbrite_ticket(context.target_options.view_json()) {
                        None => r matches Err(ProviderError::Configuration(x)) && x@
                            == "paid tickets require cost_minor"@,
                        Some(t) => r matches Ok((event_id, url, body)) && event_id@ == id && url@
                            == u && body.view_json() == JsonValue::Object(
                            seq![("ticket_class"@, t)],
                        ),
                    },
                },
            },            r matches Ok((_, _, body)) ==> opt_get(body.view_json().get("ticket_class"@), "free"@)
                == Some(
                JsonValue::Bool(
                    context.target_options.view_json().get("free"@) != Some(
                        JsonValue::Bool(false),
                    ),
                ),
            ),
            r matches Err(ProviderError::Configuration(_)) ==> context.target_options.view_json().get(
                "free"@,
            ) == Some(JsonValue::Bool(false)),
    {
        let event_id = match created.get_str("id") {
            Some(id) => id.to_owned(),
            None => return Err(ProviderError::InvalidResponse("created event has no id".to_owned())),
        };
        let path = concat3_exec("events/", event_id.as_str(), "/ticket_classes/");
        let ticket_url = self.endpoint(path.as_str())?;
        let options = &context.target_options;
        let currency: &str = match options.get_str("currency") {
            Some(c) => c,
            None => "USD",
        };
        let ticket_name: &str = match options.get_str("ticket_name") {
            Some(n) => n,
            None => "General Admission",
        };
        let quantity: u64 = match options.get("quantity_total") {
            Some(q) => match q.as_u64() {
                Some(n) => n,
                None => 100,
            },
            None => 100,
        };
        let free: bool = match options.get("free") {
            Some(f) => match f.as_bool() {
                Some(b) => b,
                None => true,
            },
            None => true,
        };
        let mut fields: Vec<(String, Json)> = Vec::new();
        fields.push(("name".to_owned(), Json::string(ticket_name)));
        fields.push(("quantity_total".to_owned(), Json::Number(JsonNumber::PosInt(quantity))));
        fields.push(("free".to_owned(), Json::Bool(free)));
        if !free {
            let amount = match options.get("cost_minor") {
                Some(c) => match c.as_u64() {
                    Some(a) => a,
                    None => return Err(
                        ProviderError::Configuration("paid tickets require cost_minor".to_owned()),
                    ),
                },
                None => return Err(
                    ProviderError::Configuration("paid tickets require cost_minor".to_owned()),
                ),
            };
            let cost = concat3_exec(currency, ",", u64_to_decimal(amount).as_str());
            fields.push(("cost".to_owned(), Json::Str(cost)));
        }
        let ticket = object_of(fields);
        proof {
            let t = eventbrite_ticket(context.target_options.view_json());
            assert(t is Some);
            assert(crate::json::view_fields(fields@) =~= t->0->Object_0);
        }
        let body = object1("ticket_class", ticket);
        proof {
            lemma_eventbrite_ticket_is_free_by_default(context.target_options.view_json());
            reveal_strlit("ticket_class");
            lemma_field_lookup_first(body.view_json()->Object_0, 0, "ticket_class"@);
        }
        Ok((event_id, ticket_url, body))
    }

    /// The third step: the URL that publishes the event.
    pub fn publish_event_url(&self, event_id: &str) -> (r: Result<String, ProviderError>)
        ensures
            match url_joined(self.api_base_url().text, concat3("events/"@, event_id@, "/publish/"@)) {
                None => r matches Err(ProviderError::Url(_)),
                Some(u) => r matches Ok(s) && s@ == u,
            },
    {
        let path = concat3_exec("events/", event_id, "/publish/");
        self.endpoint(path.as_str())
    }

    /// The publication once all three steps succeeded: the event's id and
    /// (valid) URL, with the three replies as the receipt.
    pub fn publication(&self, created: Json, ticket_receipt: Json, publish_receipt: Json, event_id: String) -> (p: Publication)
        ensures
            p.provider == ProviderKind::Eventbrite,
            p.status == PublicationStatus::Published,
            opt_string_view(p.external_id) == Some(event_id@),
            opt_string_view(p.external_url) == match get_str(created.view_json(), "url"@) {
                Some(t) => parsed_url_text(t),
                None => None,
            },
            p.receipt.view_json() == JsonValue::Object(
                seq![
                    ("event"@, created.view_json()),
                    ("ticket_class"@, ticket_receipt.view_json()),
                    ("publish"@, publish_receipt.view_json()),
                ],
            ),
            p.action is None,
    {
        let external_url = crate::web::url_text_if_valid(created.get_str("url"));
        let receipt = crate::json::object3(
            "event",
            created,
            "ticket_class",
            ticket_receipt,
            "publish",
            publish_receipt,
        );
        Publication {
            provider: ProviderKind::Eventbrite,
            status: PublicationStatus::Published,
            external_id: Some(event_id),
            external_url,
            receipt,
            action: None,
        }
    }
}

} // verus!
