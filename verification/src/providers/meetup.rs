//! Meetup: native events created in a group through the GraphQL API.
use vstd::prelude::*;
use crate::datetime::{rfc3339_text, to_rfc3339};
use crate::domain::{
    event_verdict, lemma_valid_event_duration, whole_minutes_between, DeliveryMode, EventDraft,
    ProviderCapabilities, ProviderKind, Publication, PublicationStatus, Timestamp,
};
use crate::json::{get_str, lemma_field_lookup_first, object1, object2, object_of, opt_get, Json, JsonNumber, JsonValue};
use crate::sdk::{
    authorization_url_for, authorization_url_text, expiry_computable, expiry_of, opt_string_view,
    pair, tokens_from_response, OAuthClient, OAuthStart, ProviderError, PublishContext, TokenSet,
};
use crate::text::{pairs_view, split_whitespace, strings_view, words};
use crate::web::{parsed_url_text, url_parsed, ParsedUrl, UrlView};

verus! {

broadcast use vstd::string::group_string_axioms;

pub struct MeetupAdapter {
    oauth: OAuthClient,
    graph_url: ParsedUrl,
}

/// The default GraphQL endpoint.
pub open spec fn meetup_graph_url() -> Seq<char> {
    "https://api.meetup.com/gql-ext"@
}

/// The `createEvent` mutation.
pub open spec fn meetup_mutation() -> Seq<char> {
    "\n          mutation($input: CreateEventInput!) {\n            createEvent(input: $input) {\n              event { id eventUrl }\n              errors { message code field }\n            }\n          }\n        "@
}

/// The group to create the event in: the target's, else the account's.
pub open spec fn meetup_group(options: JsonValue, account_metadata: JsonValue) -> Option<Seq<char>> {
    match get_str(options, "group_urlname"@) {
        Some(g) => Some(g),
        None => get_str(account_metadata, "group_urlname"@),
    }
}

/// `DRAFT` or `PUBLISHED` as the target asks (`PUBLISHED` by default).
pub open spec fn meetup_publish_status(options: JsonValue) -> Seq<char> {
    match get_str(options, "publish_status"@) {
        Some(s) => s,
        None => "PUBLISHED"@,
    }
}

/// The target's `venue_id`, or null.
pub open spec fn meetup_venue(options: JsonValue) -> JsonValue {
    match options.get("venue_id"@) {
        Some(v) => v,
        None => JsonValue::Null,
    }
}

/// The GraphQL request: the mutation and its input.
pub open spec fn meetup_request_body(e: EventDraft, group: Seq<char>, status: Seq<char>, venue: JsonValue) -> JsonValue {
    JsonValue::Object(
        seq![
            ("query"@, JsonValue::Str(meetup_mutation())),
            (
                "variables"@,
                JsonValue::Object(
                    seq![
                        (
                            "input"@,
                            JsonValue::Object(
                                seq![
                                    ("groupUrlname"@, JsonValue::Str(group)),
                                    ("title"@, JsonValue::Str(e.title@)),
                                    ("description"@, JsonValue::Str(e.description_html@)),
                                    (
                                        "startDateTime"@,
                                        JsonValue::Str(
                                            rfc3339_text(e.starts_at.secs, e.starts_at.nanos),
                                        ),
                                    ),
                                    (
                                        "duration"@,
                                        JsonValue::PosInt(
                                            (whole_minutes_between(e.starts_at, e.ends_at)
                                                * 60000) as u64,
                                        ),
                                    ),
                                    ("publishStatus"@, JsonValue::Str(status)),
                                    ("venueId"@, venue),
                                ],
                            ),
                        ),
                    ],
                ),
            ),
        ],
    )
}

/// The target's group wins over the account's; the account's is used only
/// where the target names none.  The status is the target's, else
/// `PUBLISHED`.
pub proof fn lemma_meetup_target_options_win(options: JsonValue, account_metadata: JsonValue)
    ensures
        get_str(options, "group_urlname"@) matches Some(g) ==> meetup_group(
            options,
            account_metadata,
        ) == Some(g),
        get_str(options, "group_urlname"@) is None ==> meetup_group(options, account_metadata)
            == get_str(account_metadata, "group_urlname"@),
        get_str(options, "publish_status"@) matches Some(s) ==> meetup_publish_status(options)
            == s,
        get_str(options, "publish_status"@) is None ==> meetup_publish_status(options)
            == "PUBLISHED"@,
{
}

/// The `variables.input` object of a request body.
pub open spec fn meetup_input(body: JsonValue) -> Option<JsonValue> {
    opt_get(body.get("variables"@), "input"@)
}

/// The createEvent input names the group, carries the event's title and
/// description, starts at the RFC 3339 text of the event's start (not of
/// any other instant), and lasts the event's whole minutes in milliseconds.
pub proof fn lemma_meetup_input_describes_the_event(
    e: EventDraft,
    group: Seq<char>,
    status: Seq<char>,
    venue: JsonValue,
)
    ensures
        ({
            let input = meetup_input(meetup_request_body(e, group, status, venue));
            &&& opt_get(input, "groupUrlname"@) == Some(JsonValue::Str(group))
            &&& opt_get(input, "title"@) == Some(JsonValue::Str(e.title@))
            &&& opt_get(input, "description"@) == Some(JsonValue::Str(e.description_html@))
            &&& opt_get(input, "startDateTime"@) == Some(
                JsonValue::Str(rfc3339_text(e.starts_at.secs, e.starts_at.nanos)),
            )
            &&& opt_get(input, "duration"@) == Some(
                JsonValue::PosInt((whole_minutes_between(e.starts_at, e.ends_at) * 60000) as u64),
            )
            &&& opt_get(input, "publishStatus"@) == Some(JsonValue::Str(status))
        }),
{
    reveal_strlit("query");
    reveal_strlit("variables");
    reveal_strlit("input");
    reveal_strlit("groupUrlname");
    reveal_strlit("title");
    reveal_strlit("description");
    reveal_strlit("startDateTime");
    reveal_strlit("duration");
    reveal_strlit("publishStatus");
    assert("query"@.len() == 5 && "variables"@.len() == 9);
    assert("groupUrlname"@.len() == 12 && "title"@.len() == 5 && "description"@.len() == 11);
    assert("startDateTime"@.len() == 13 && "duration"@.len() == 8 && "publishStatus"@.len() == 13);
    assert("startDateTime"@[0] != "publishStatus"@[0]);
    let body = meetup_request_body(e, group, status, venue);
    let f = body->Object_0;
    lemma_field_lookup_first(f, 1, "variables"@);
    let v = f[1].1->Object_0;
    lemma_field_lookup_first(v, 0, "input"@);
    let g = v[0].1->Object_0;
    lemma_field_lookup_first(g, 0, "groupUrlname"@);
    lemma_field_lookup_first(g, 1, "title"@);
    lemma_field_lookup_first(g, 2, "description"@);
    lemma_field_lookup_first(g, 3, "startDateTime"@);
    lemma_field_lookup_first(g, 4, "duration"@);
    lemma_field_lookup_first(g, 5, "publishStatus"@);
}

/// The `/data/createEvent` object of a reply.
pub open spec fn create_event_result(body: JsonValue) -> Option<JsonValue> {
    opt_get(body.get("data"@), "createEvent"@)
}

/// The errors the reply reports, when it has a non-empty error list.
pub open spec fn meetup_errors(body: JsonValue) -> Option<Seq<JsonValue>> {
    match opt_get(create_event_result(body), "errors"@) {
        Some(e) => match e.as_array() {
            Some(a) => if a.len() > 0 {
                Some(a)
            } else {
                None
            },
            None => None,
        },
        None => None,
    }
}

/// Why a Meetup reply is not a publication: the reply's own errors (sent
/// back with status 422), or another provider error.
#[derive(Debug)]
pub enum MeetupFailure {
    Rejected(Vec<Json>),
    Provider(ProviderError),
}

impl MeetupAdapter {
    pub closed spec fn oauth_client(self) -> OAuthClient {
        self.oauth
    }

    pub closed spec fn graph_url_view(self) -> UrlView {
        self.graph_url@
    }

    /// An adapter on the default GraphQL endpoint.
    pub fn new(oauth: OAuthClient) -> (r: Result<MeetupAdapter, ProviderError>)
        ensures
            match url_parsed(meetup_graph_url()) {
                Some(u) => r matches Ok(a) && a.graph_url_view() == u && a.oauth_client() == oauth,
                None => r matches Err(ProviderError::Url(_)),
            },
    {
        let graph_url = match ParsedUrl::parse("https://api.meetup.com/gql-ext") {
            Ok(u) => u,
            Err(e) => return Err(ProviderError::Url(e)),
        };
        Ok(MeetupAdapter { oauth, graph_url })
    }

    /// The same adapter on another GraphQL endpoint.
    pub fn with_graph_url(self, graph_url: ParsedUrl) -> (r: MeetupAdapter)
        ensures
            r.graph_url_view() == graph_url@,
            r.oauth_client() == self.oauth_client(),
    {
        MeetupAdapter { oauth: self.oauth, graph_url }
    }

    pub fn kind(&self) -> (k: ProviderKind)
        ensures
            k == ProviderKind::Meetup,
    {
        ProviderKind::Meetup
    }

    pub fn capabilities(&self) -> (c: ProviderCapabilities)
        ensures
            c.provider == ProviderKind::Meetup,
            c.delivery_mode == DeliveryMode::NativeEvent,
            c.flags() == (true, true, false, false, true, false, false),
            strings_view(c.notes@) == seq![
                "OAuth consumer approval and applicable Meetup API access are required."@,
                "A target group URL name is required."@,
            ],
    {
        let mut notes: Vec<String> = Vec::new();
        notes.push(
            "OAuth consumer approval and applicable Meetup API access are required.".to_owned(),
        );
        notes.push("A target group URL name is required.".to_owned());
        assert(strings_view(notes@) =~= seq![
            "OAuth consumer approval and applicable Meetup API access are required."@,
            "A target group URL name is required."@,
        ]);
        ProviderCapabilities {
            provider: ProviderKind::Meetup,
            delivery_mode: DeliveryMode::NativeEvent,
            oauth: true,
            create: true,
            update: false,
            delete: false,
            publish: true,
            webhooks: false,
            requires_manual_step: false,
            notes,
        }
    }

    /// The authorization page with the client, code response type,
    /// redirect URI and state, and the S256 PKCE challenge when given.
    pub fn authorization_url(&self, state: &str, pkce_challenge: Option<&str>) -> (r: Result<OAuthStart, ProviderError>)
        ensures
            ({
                let base = seq![
                    ("client_id"@, self.oauth_client().client_id@),
                    ("response_type"@, "code"@),
                    ("redirect_uri"@, self.oauth_client().redirect_uri@.text),
                    ("state"@, state@),
                ];
                let pairs = match pkce_challenge {
                    Some(c) => base + seq![
                        ("code_challenge"@, c@),
                        ("code_challenge_method"@, "S256"@),
                    ],
                    None => base,
                };
                match authorization_url_text("https://secure.meetup.com/oauth2/authorize"@, pairs) {
                    Some(u) => r matches Ok(s) && s.authorization_url@ == u && s.state@ == state@
                        && s.uses_pkce == (pkce_challenge is Some),
                    None => r matches Err(ProviderError::Url(_)),
                }
            }),
    {
        let mut pairs: Vec<(String, String)> = Vec::new();
        pairs.push(pair("client_id", self.oauth.client_id.as_str()));
        pairs.push(pair("response_type", "code"));
        pairs.push(pair("redirect_uri", self.oauth.redirect_uri.as_str()));
        pairs.push(pair("state", state));
        let ghost base = pairs_view(pairs@);
        match pkce_challenge {
            Some(challenge) => {
                pairs.push(pair("code_challenge", challenge));
                pairs.push(pair("code_challenge_method", "S256"));
                assert(pairs_view(pairs@) =~= base + seq![
                    ("code_challenge"@, challenge@),
                    ("code_challenge_method"@, "S256"@),
                ]);
            },
            None => {},
        }
        assert(base =~= seq![
            ("client_id"@, self.oauth_client().client_id@),
            ("response_type"@, "code"@),
            ("redirect_uri"@, self.oauth_client().redirect_uri@.text),
            ("state"@, state@),
        ]);
        let url = authorization_url_for("https://secure.meetup.com/oauth2/authorize", &pairs)?;
        Ok(
            OAuthStart {
                authorization_url: url,
                state: state.to_owned(),
                uses_pkce: pkce_challenge.is_some(),
            },
        )
    }

    /// The form posted to exchange a code, with the PKCE verifier when given.
    pub fn token_request_form(&self, code: &str, pkce_verifier: Option<&str>) -> (r: Vec<(String, String)>)
        ensures
            ({
                let base = seq![
                    ("grant_type"@, "authorization_code"@),
                    ("client_id"@, self.oauth_client().client_id@),
                    ("client_secret"@, self.oauth_client().client_secret@),
                    ("redirect_uri"@, self.oauth_client().redirect_uri@.text),
                    ("code"@, code@),
                ];
                pairs_view(r@) == match pkce_verifier {
                    Some(v) => base.push(("code_verifier"@, v@)),
                    None => base,
                }
            }),
    {
        let mut r: Vec<(String, String)> = Vec::new();
        r.push(pair("grant_type", "authorization_code"));
        r.push(pair("client_id", self.oauth.client_id.as_str()));
        r.push(pair("client_secret", self.oauth.client_secret.as_str()));
        r.push(pair("redirect_uri", self.oauth.redirect_uri.as_str()));
        r.push(pair("code", code));
        let ghost base = pairs_view(r@);
        match pkce_verifier {
            Some(v) => {
                r.push(pair("code_verifier", v));
                assert(pairs_view(r@) =~= base.push(("code_verifier"@, v@)));
            },
            None => {},
        }
        assert(base =~= seq![
            ("grant_type"@, "authorization_code"@),
            ("client_id"@, self.oauth_client().client_id@),
            ("client_secret"@, self.oauth_client().client_secret@),
            ("redirect_uri"@, self.oauth_client().redirect_uri@.text),
            ("code"@, code@),
        ]);
        r
    }

    /// The tokens of a token response received at `now`; the scopes are the
    /// words of its `scope`.
    pub fn tokens_from_response(&self, body: Json, now: Timestamp) -> (r: Result<TokenSet, ProviderError>)
        requires
            now.is_clock_reading(),
            get_str(body.view_json(), "access_token"@) is Some ==> expiry_computable(
                body.view_json(),
                now,
            ),
        ensures
            get_str(body.view_json(), "access_token"@) is None ==> (r matches Err(
                ProviderError::InvalidResponse(m),
            ) && m@ == "missing access_token"@),
            get_str(body.view_json(), "access_token"@) matches Some(a) ==> (r matches Ok(t) && {
                &&& t.access_token@ == a
                &&& opt_string_view(t.refresh_token) == get_str(body.view_json(), "refresh_token"@)
                &&& t.expires_at == expiry_of(body.view_json(), now)
                &&& strings_view(t.scopes@) == match get_str(body.view_json(), "scope"@) {
                    Some(s) => words(s),
                    None => Seq::<Seq<char>>::empty(),
                }
                &&& t.provider_data.view_json() == body.view_json()
            }),
    {
        let scopes = match body.get_str("scope") {
            Some(s) => split_whitespace(s),
            None => Vec::new(),
        };
        proof {
            if get_str(body.view_json(), "scope"@) is None {
                assert(strings_view(scopes@) =~= Seq::<Seq<char>>::empty());
            }
        }
        tokens_from_response(body, now, true, scopes)
    }

    /// The GraphQL request that creates the event: the endpoint and body.
    /// The event must be valid and a group known.
    pub fn create_event_request(&self, event: &EventDraft, context: &PublishContext) -> (r: Result<(String, Json), ProviderError>)
        requires
            event.starts_at.wf(),
            event.ends_at.wf(),
        ensures
            event_verdict(*event) matches Err(m) ==> (r matches Err(ProviderError::Configuration(x))
                && x@ == "invalid event: "@ + m),
            event_verdict(*event) is Ok ==> match meetup_group(
                context.target_options.view_json(),
                context.account_metadata.view_json(),
            ) {
                None => r matches Err(ProviderError::Configuration(x)) && x@
                    == "group_urlname is required"@,
                Some(g) => r matches Ok((url, body)) && url@ == self.graph_url_view().text
                    && body.view_json() == meetup_request_body(
                    *event,
                    g,
                    meetup_publish_status(context.target_options.view_json()),
                    meetup_venue(context.target_options.view_json()),
                ),
            },
            r matches Ok((_, body)) ==> opt_get(meetup_input(body.view_json()), "startDateTime"@)
                == Some(JsonValue::Str(rfc3339_text(event.starts_at.secs, event.starts_at.nanos))),
            r matches Ok((_, body)) ==> opt_get(meetup_input(body.view_json()), "duration"@)
                == Some(
                JsonValue::PosInt(
                    (whole_minutes_between(event.starts_at, event.ends_at) * 60000) as u64,
                ),
            ),
    {
        match event.validate() {
            Ok(()) => {},
            Err(e) => return Err(ProviderError::Configuration(e.to_display_string())),
        }
        let options = &context.target_options;
        let group: &str = match options.get_str("group_urlname") {
            Some(g) => g,
            None => match context.account_metadata.get_str("group_urlname") {
                Some(g) => g,
                None => return Err(
                    ProviderError::Configuration("group_urlname is required".to_owned()),
                ),
            },
        };
        let publish_status: &str = match options.get_str("publish_status") {
            Some(s) => s,
            None => "PUBLISHED",
        };
        let venue = match options.get("venue_id") {
            Some(v) => v.duplicate(),
            None => Json::Null,
        };
        let minutes = event.duration_minutes();
        proof {
            lemma_valid_event_duration(*event);
        }
        let duration: u64 = (minutes * 60000) as u64;
        let mut input: Vec<(String, Json)> = Vec::new();
        input.push(("groupUrlname".to_owned(), Json::string(group)));
        input.push(("title".to_owned(), Json::string(event.title.as_str())));
        input.push(("description".to_owned(), Json::string(event.description_html.as_str())));
        input.push(("startDateTime".to_owned(), Json::Str(to_rfc3339(&event.starts_at))));
        input.push(("duration".to_owned(), Json::Number(JsonNumber::PosInt(duration))));
        input.push(("publishStatus".to_owned(), Json::string(publish_status)));
        input.push(("venueId".to_owned(), venue));
        let input_json = object_of(input);
        let ghost expected = meetup_request_body(
            *event,
            meetup_group(context.target_options.view_json(), context.account_metadata.view_json())->0,
            meetup_publish_status(context.target_options.view_json()),
            meetup_venue(context.target_options.view_json()),
        );
        proof {
            assert(crate::json::view_fields(input@) =~= expected->Object_0[1].1->Object_0[0].1->Object_0);
        }
        let variables = object1("input", input_json);
        let body = object2(
            "query",
            Json::string(
                "\n          mutation($input: CreateEventInput!) {\n            createEvent(input: $input) {\n              event { id eventUrl }\n              errors { message code field }\n            }\n          }\n        ",
            ),
            "variables",
            variables,
        );
        proof {
            lemma_meetup_input_describes_the_event(
                *event,
                meetup_group(context.target_options.view_json(), context.account_metadata.view_json())->0,
                meetup_publish_status(context.target_options.view_json()),
                meetup_venue(context.target_options.view_json()),
            );
        }
        Ok((self.graph_url.as_str().to_owned(), body))
    }

    /// The publication for a GraphQL reply: a non-empty error list is a
    /// rejection; otherwise the created event gives the id and (valid) URL,
    /// with the whole reply as the receipt.
    pub fn publication(&self, body: Json) -> (r: Result<Publication, MeetupFailure>)
        ensures
            match meetup_errors(body.view_json()) {
                Some(errors) => r matches Err(MeetupFailure::Rejected(v))
                    && crate::json::view_items(v@) == errors,
                None => match opt_get(create_event_result(body.view_json()), "event"@) {
                    None => r matches Err(MeetupFailure::Provider(ProviderError::InvalidResponse(x)))
                        && x@ == "missing createEvent.event"@,
                    Some(created) => r matches Ok(p) && {
                        &&& p.provider == ProviderKind::Meetup
                        &&& p.status == PublicationStatus::Published
                        &&& opt_string_view(p.external_id) == get_str(created, "id"@)
                        &&& opt_string_view(p.external_url) == match get_str(created, "eventUrl"@) {
                            Some(t) => parsed_url_text(t),
                            None => None,
                        }
                        &&& p.receipt.view_json() == body.view_json()
                        &&& p.action is None
                    },
                },
            },
    {
        let result = match body.get("data") {
            Some(d) => d.get("createEvent"),
            None => None,
        };
        let errors = match result {
            Some(c) => match c.get("errors") {
                Some(e) => e.as_array(),
                None => None,
            },
            None => None,
        };
        match errors {
            Some(list) => {
                if list.len() > 0 {
                    return Err(MeetupFailure::Rejected(copy_items(list)));
                }
            },
            None => {},
        }
        let created = match result {
            Some(c) => c.get("event"),
            None => None,
        };
        let created = match created {
            Some(c) => c,
            None => return Err(
                MeetupFailure::Provider(
                    ProviderError::InvalidResponse("missing createEvent.event".to_owned()),
                ),
            ),
        };
        let external_id = match created.get_str("id") {
            Some(s) => Some(s.to_owned()),
            None => None,
        };
        let external_url = crate::web::url_text_if_valid(created.get_str("eventUrl"));
        Ok(
            Publication {
                provider: ProviderKind::Meetup,
                status: PublicationStatus::Published,
                external_id,
                external_url,
                receipt: body,
                action: None,
            },
        )
    }
}

/// A deep copy of a list of values.
fn copy_items(v: &Vec<Json>) -> (r: Vec<Json>)
    ensures
        crate::json::view_items(r@) == crate::json::view_items(v@),
{
    let mut r: Vec<Json> = Vec::new();
    let mut i: usize = 0;
    while i < v.len()
        invariant
            i <= v@.len(),
            r@.len() == i,
            forall|j: int| 0 <= j < i ==> #[trigger] r@[j].view_json() == v@[j].view_json(),
        decreases v@.len() - i,
    {
        r.push(v[i].duplicate());
        i = i + 1;
    }
    proof {
        crate::json::lemma_view_items_eq(r@, v@);
    }
    r
}

} // verus!
