use evgl_libs::domain::{DeliveryMode, EventDraft, ProviderKind, PublicationStatus, Timestamp};
use evgl_libs::json::{Json, JsonNumber};
use evgl_libs::providers::craigslist::CraigslistAdapter;
use evgl_libs::providers::eventbrite::EventbriteAdapter;
use evgl_libs::providers::generic_webhook::{validate_endpoint, GenericWebhookAdapter};
use evgl_libs::providers::meetup::{MeetupAdapter, MeetupFailure};
use evgl_libs::providers::meta::MetaFacebookPageAdapter;
use evgl_libs::sdk::{
    checked_json, default_accounts, OAuthClient, ProviderError, PublishContext, TokenSet,
};
use evgl_libs::web::ParsedUrl;

fn test_oauth_client() -> OAuthClient {
    OAuthClient {
        client_id: "test-client".to_owned(),
        client_secret: "test-secret".to_owned(),
        redirect_uri: ParsedUrl::parse("https://app.example.test/oauth/callback")
            .expect("valid redirect URL"),
    }
}

fn obj(fields: Vec<(&str, Json)>) -> Json {
    Json::Object(fields.into_iter().map(|(k, v)| (k.to_owned(), v)).collect())
}

fn s(v: &str) -> Json {
    Json::Str(v.to_owned())
}

fn tokens(access: &str) -> TokenSet {
    TokenSet {
        access_token: access.to_owned(),
        refresh_token: None,
        expires_at: None,
        scopes: vec!["events".to_owned()],
        provider_data: Json::Null,
    }
}

fn context(key: &str, metadata: Json, options: Json) -> PublishContext {
    PublishContext {
        account_key: key.to_owned(),
        account_metadata: metadata,
        target_options: options,
    }
}

fn event() -> EventDraft {
    EventDraft {
        id: 1,
        owner_id: 2,
        title: "Launch".to_owned(),
        summary: "Summary".to_owned(),
        description_html: "<p>Details</p>".to_owned(),
        starts_at: Timestamp::from_parts(1_700_000_000, 0).unwrap(),
        ends_at: Timestamp::from_parts(1_700_005_400, 0).unwrap(),
        timezone: "Europe/Paris".to_owned(),
        canonical_url: "https://events.example.com/e/1".to_owned(),
        online_url: None,
        tags: vec![],
    }
}

#[test]
fn publish_endpoint_preserves_the_v3_api_prefix() {
    let adapter = EventbriteAdapter::new(test_oauth_client()).expect("valid adapter");
    let endpoint = adapter
        .endpoint("events/123/publish/")
        .expect("valid publish endpoint");

    assert_eq!(
        endpoint.as_str(),
        "https://www.eventbriteapi.com/v3/events/123/publish/"
    );
}

#[test]
fn rejects_local_webhook_targets() {
    for value in [
        "http://events.example.com",
        "https://localhost/hook",
        "https://127.0.0.1/hook",
        "https://10.0.0.1/hook",
        "https://[::1]/hook",
    ] {
        assert!(validate_endpoint(&ParsedUrl::parse(value).unwrap()).is_err(), "{value}");
    }
}

#[test]
fn accepts_public_https_targets() {
    assert!(validate_endpoint(
        &ParsedUrl::parse("https://events.example.com/hooks/evgl").unwrap(),
    )
    .is_ok());
}

#[test]
fn endpoint_rules_cover_each_reserved_range() {
    for value in [
        "https://api.LOCALHOST/x",
        "https://LocalHost/x",
        "https://172.16.0.1/",
        "https://172.31.255.255/",
        "https://192.168.1.1/",
        "https://169.254.0.7/",
        "https://255.255.255.255/",
        "https://192.0.2.1/",
        "https://198.51.100.1/",
        "https://203.0.113.9/",
        "https://0.0.0.0/",
        "https://[::]/",
        "https://[fd00::1]/",
        "https://[fe80::1]/",
    ] {
        let parsed = ParsedUrl::parse(value).unwrap();
        match validate_endpoint(&parsed) {
            Err(ProviderError::Configuration(_)) => {}
            other => panic!("{value}: {other:?}"),
        }
    }
    for value in ["https://172.32.0.1/", "https://8.8.8.8/", "https://[2001:db8::1]/"] {
        assert!(validate_endpoint(&ParsedUrl::parse(value).unwrap()).is_ok(), "{value}");
    }
}

#[test]
fn capabilities_name_their_own_provider() {
    let oauth = test_oauth_client;
    assert_eq!(CraigslistAdapter.capabilities().provider, ProviderKind::Craigslist);
    assert_eq!(CraigslistAdapter.capabilities().delivery_mode, DeliveryMode::ManualHandoff);
    assert!(CraigslistAdapter.capabilities().requires_manual_step);
    assert_eq!(GenericWebhookAdapter.capabilities().provider, ProviderKind::GenericWebhook);
    let eventbrite = EventbriteAdapter::new(oauth()).unwrap();
    assert_eq!(eventbrite.capabilities().provider, eventbrite.kind());
    assert_eq!(eventbrite.capabilities().notes.len(), 3);
    let meetup = MeetupAdapter::new(oauth()).unwrap();
    assert_eq!(meetup.capabilities().provider, meetup.kind());
    let meta = MetaFacebookPageAdapter::new(oauth(), "v19.0".to_owned());
    assert_eq!(meta.capabilities().provider, meta.kind());
    assert_eq!(meta.capabilities().delivery_mode, DeliveryMode::DistributionPost);
}

#[test]
fn oauth_flows_are_unsupported_where_there_is_none() {
    assert!(matches!(
        CraigslistAdapter.authorization_url("s", None),
        Err(ProviderError::Unsupported("Craigslist has no general OAuth event-posting flow"))
    ));
    assert!(matches!(
        GenericWebhookAdapter.exchange_code("c", None),
        Err(ProviderError::Unsupported("generic webhooks use a configured URL and secret"))
    ));
}

#[test]
fn authorization_urls_carry_client_redirect_and_state() {
    let eventbrite = EventbriteAdapter::new(test_oauth_client()).unwrap();
    let start = eventbrite.authorization_url("st 1", Some("ignored")).unwrap();
    assert_eq!(
        start.authorization_url,
        "https://www.eventbrite.com/oauth/authorize?response_type=code&client_id=test-client&redirect_uri=https%3A%2F%2Fapp.example.test%2Foauth%2Fcallback&state=st+1"
    );
    assert_eq!(start.state, "st 1");
    assert!(!start.uses_pkce);

    let meetup = MeetupAdapter::new(test_oauth_client()).unwrap();
    let start = meetup.authorization_url("abc", Some("chal")).unwrap();
    assert_eq!(
        start.authorization_url,
        "https://secure.meetup.com/oauth2/authorize?client_id=test-client&response_type=code&redirect_uri=https%3A%2F%2Fapp.example.test%2Foauth%2Fcallback&state=abc&code_challenge=chal&code_challenge_method=S256"
    );
    assert!(start.uses_pkce);
    assert!(!meetup.authorization_url("abc", None).unwrap().uses_pkce);

    let meta = MetaFacebookPageAdapter::new(test_oauth_client(), "v19.0".to_owned());
    let start = meta.authorization_url("abc", None).unwrap();
    assert_eq!(
        start.authorization_url,
        "https://www.facebook.com/v19.0/dialog/oauth?client_id=test-client&redirect_uri=https%3A%2F%2Fapp.example.test%2Foauth%2Fcallback&state=abc&response_type=code&scope=pages_show_list%2Cpages_read_engagement%2Cpages_manage_posts"
    );
}

#[test]
fn meta_graph_urls_accept_versions_with_or_without_v() {
    let a = MetaFacebookPageAdapter::new(test_oauth_client(), "19.0".to_owned());
    let b = MetaFacebookPageAdapter::new(test_oauth_client(), "vv19.0".to_owned());
    assert_eq!(a.graph("me/accounts").unwrap().as_str(), "https://graph.facebook.com/v19.0/me/accounts");
    assert_eq!(b.graph("me/accounts").unwrap().as_str(), "https://graph.facebook.com/v19.0/me/accounts");
}

#[test]
fn token_responses_need_an_access_token() {
    let now = Timestamp::from_parts(1_700_000_000, 0).unwrap();
    let meetup = MeetupAdapter::new(test_oauth_client()).unwrap();
    let body = obj(vec![
        ("access_token", s("at")),
        ("refresh_token", s("rt")),
        ("expires_in", Json::Number(JsonNumber::PosInt(3600))),
        ("scope", s(" basic  event_management ")),
    ]);
    let t = meetup.tokens_from_response(body, now).unwrap();
    assert_eq!(t.access_token, "at");
    assert_eq!(t.refresh_token.as_deref(), Some("rt"));
    assert_eq!(t.expires_at, Timestamp::from_parts(1_700_003_600, 0));
    assert_eq!(t.scopes, vec!["basic".to_owned(), "event_management".to_owned()]);

    let meta = MetaFacebookPageAdapter::new(test_oauth_client(), "v19.0".to_owned());
    let t = meta
        .tokens_from_response(obj(vec![("access_token", s("at")), ("refresh_token", s("rt"))]), now)
        .unwrap();
    assert!(t.refresh_token.is_none());
    assert_eq!(t.scopes.len(), 3);

    let eventbrite = EventbriteAdapter::new(test_oauth_client()).unwrap();
    match eventbrite.tokens_from_response(obj(vec![("token", s("x"))]), now) {
        Err(ProviderError::InvalidResponse(m)) => assert_eq!(m, "missing access_token"),
        other => panic!("unexpected {other:?}"),
    }
}

#[test]
fn responses_are_checked_for_status_and_json() {
    match checked_json(404, "nope".to_owned(), Err("x".to_owned())) {
        Err(ProviderError::Remote { status, body }) => {
            assert_eq!(status, 404);
            assert_eq!(body, "nope");
        }
        other => panic!("unexpected {other:?}"),
    }
    match checked_json(200, "<html>".to_owned(), Err("expected value".to_owned())) {
        Err(ProviderError::InvalidResponse(m)) => assert_eq!(m, "expected value; body=<html>"),
        other => panic!("unexpected {other:?}"),
    }
    assert!(matches!(checked_json(201, "null".to_owned(), Ok(Json::Null)), Ok(Json::Null)));
}

#[test]
fn default_accounts_use_the_provider_name() {
    let accounts = default_accounts(ProviderKind::Meetup, &tokens("tok"));
    assert_eq!(accounts.len(), 1);
    assert_eq!(accounts[0].account_key, "default");
    assert_eq!(accounts[0].display_name, "meetup");
    assert_eq!(accounts[0].token_override.as_ref().unwrap().access_token, "tok");
}

#[test]
fn craigslist_prepares_a_manual_post() {
    let ctx = context("default", Json::Null, Json::Null);
    let p = CraigslistAdapter.publish(&tokens("t"), &event(), &ctx).unwrap();
    assert_eq!(p.status, PublicationStatus::ActionRequired);
    let action = p.action.unwrap();
    assert_eq!(action.destination_url, "https://www.craigslist.org/about/sites");
    assert_eq!(action.heading, "Complete the Craigslist post");
    let fields: Vec<(String, String)> = action.prepared_fields;
    assert_eq!(fields[0].0, "body");
    assert_eq!(
        fields[0].1,
        "Summary\n\n<p>Details</p>\n\nDetails and updates: https://events.example.com/e/1"
    );
    assert_eq!(fields[1], ("end".to_owned(), "2023-11-14T23:43:20+00:00".to_owned()));
    assert_eq!(fields[2], ("start".to_owned(), "2023-11-14T22:13:20+00:00".to_owned()));
    assert_eq!(fields[3], ("title".to_owned(), "Launch".to_owned()));
    match p.receipt {
        Json::Object(f) => assert!(matches!(f.as_slice(), [(k, Json::Bool(false))] if k == "automation_performed")),
        other => panic!("unexpected {other:?}"),
    }
    let bad = context("default", Json::Null, obj(vec![("posting_url", s("not a url"))]));
    assert!(matches!(CraigslistAdapter.publish(&tokens("t"), &event(), &bad), Err(ProviderError::Url(_))));
}

#[test]
fn webhook_signature_is_the_hex_hmac() {
    let sig = GenericWebhookAdapter
        .signature(&tokens("Jefe"), b"what do ya want for nothing?")
        .unwrap();
    assert_eq!(
        sig,
        "sha256=5bdcc146bf60754e6a042426089575c75a003f089d2739839dec58b964ec3843"
    );
}

#[test]
fn webhook_delivery_needs_an_approved_endpoint_and_a_long_secret() {
    let long = "s".repeat(32);
    let options = obj(vec![("endpoint", s("https://hooks.example.com/in"))]);
    let ok = GenericWebhookAdapter
        .delivery_endpoint(&tokens(&long), &context("k", Json::Null, options))
        .unwrap();
    assert_eq!(ok.as_str(), "https://hooks.example.com/in");
    let short = GenericWebhookAdapter.delivery_endpoint(
        &tokens("short"),
        &context("k", Json::Null, obj(vec![("endpoint", s("https://hooks.example.com/in"))])),
    );
    assert!(matches!(short, Err(ProviderError::Configuration(m)) if m == "webhook signing secret must contain at least 32 characters"));
    let missing = GenericWebhookAdapter.delivery_endpoint(&tokens(&long), &context("k", Json::Null, Json::Null));
    assert!(matches!(missing, Err(ProviderError::Configuration(m)) if m == "approved webhook endpoint is required"));
    let in_metadata_only = GenericWebhookAdapter.delivery_endpoint(
        &tokens(&long),
        &context("k", obj(vec![("endpoint", s("https://hooks.example.com/in"))]), Json::Null),
    );
    assert!(matches!(in_metadata_only, Err(ProviderError::Configuration(m)) if m == "approved webhook endpoint is required"));
    let malformed = GenericWebhookAdapter.delivery_endpoint(
        &tokens(&long),
        &context("k", obj(vec![("endpoint", s("https://hooks.example.com/in"))]), obj(vec![("endpoint", s("not a url"))])),
    );
    assert!(matches!(malformed, Err(ProviderError::Url(_))));
    let local = GenericWebhookAdapter.delivery_endpoint(
        &tokens(&long),
        &context("k", Json::Null, obj(vec![("endpoint", s("https://127.0.0.1/in"))])),
    );
    assert!(matches!(local, Err(ProviderError::Configuration(_))));
}

#[test]
fn webhook_replies_become_publications() {
    let p = GenericWebhookAdapter.publication(204, "  ".to_owned(), Err("eof".to_owned())).unwrap();
    match p.receipt {
        Json::Object(f) => assert!(matches!(f.as_slice(), [(k, Json::Number(JsonNumber::PosInt(204)))] if k == "status")),
        other => panic!("unexpected {other:?}"),
    }
    let reply = obj(vec![("id", s("42")), ("url", s("https://x.example/e/42"))]);
    let p = GenericWebhookAdapter.publication(200, "{..}".to_owned(), Ok(reply)).unwrap();
    assert_eq!(p.external_id.as_deref(), Some("42"));
    assert_eq!(p.external_url.as_deref(), Some("https://x.example/e/42"));
    let bad = GenericWebhookAdapter.publication(200, "oops".to_owned(), Err("expected value".to_owned()));
    assert!(matches!(bad, Err(ProviderError::InvalidResponse(m)) if m == "successful webhook response was not JSON: expected value; body=oops"));
    assert!(matches!(
        GenericWebhookAdapter.publication(500, "down".to_owned(), Err("x".to_owned())),
        Err(ProviderError::Remote { status: 500, .. })
    ));
}

#[test]
fn eventbrite_publishing_steps() {
    let adapter = EventbriteAdapter::new(test_oauth_client()).unwrap();
    let options = obj(vec![
        ("currency", s("EUR")),
        ("free", Json::Bool(false)),
        ("cost_minor", Json::Number(JsonNumber::PosInt(1500))),
    ]);
    let ctx = context("org-9", Json::Null, options);
    let (url, _body) = adapter.create_event_request(&event(), &ctx).unwrap();
    assert_eq!(url, "https://www.eventbriteapi.com/v3/organizations/org-9/events/");
    let created = obj(vec![("id", s("e-5")), ("url", s("https://www.eventbrite.com/e/5"))]);
    let (id, ticket_url, body) = adapter.ticket_class_request(&ctx, &created).unwrap();
    assert_eq!(id, "e-5");
    assert_eq!(ticket_url, "https://www.eventbriteapi.com/v3/events/e-5/ticket_classes/");
    let ticket = body.get("ticket_class").unwrap();
    assert_eq!(ticket.get_str("cost"), Some("EUR,1500"));
    assert_eq!(ticket.get_str("name"), Some("General Admission"));
    assert_eq!(ticket.get("quantity_total").unwrap().as_u64(), Some(100));
    let p = adapter.publication(created, Json::Null, Json::Null, id);
    assert_eq!(p.external_url.as_deref(), Some("https://www.eventbrite.com/e/5"));

    let unpaid = context("org-9", Json::Null, obj(vec![("free", Json::Bool(false))]));
    assert!(matches!(
        adapter.ticket_class_request(&unpaid, &obj(vec![("id", s("e-5"))])),
        Err(ProviderError::Configuration(m)) if m == "paid tickets require cost_minor"
    ));
    let no_org = context("default", Json::Null, Json::Null);
    assert!(matches!(
        adapter.create_event_request(&event(), &no_org),
        Err(ProviderError::Configuration(m)) if m == "organization_id is required"
    ));
    let mut invalid = event();
    invalid.title = " ".to_owned();
    assert!(matches!(
        adapter.create_event_request(&invalid, &ctx),
        Err(ProviderError::Configuration(m)) if m == "invalid event: title must contain 1..=200 characters"
    ));
}

#[test]
fn eventbrite_accounts_are_the_organizations_with_ids() {
    let adapter = EventbriteAdapter::new(test_oauth_client()).unwrap();
    let body = obj(vec![(
        "organizations",
        Json::Array(vec![
            obj(vec![("id", s("o1")), ("name", s("First"))]),
            obj(vec![("name", s("no id"))]),
            obj(vec![("id", s("o3"))]),
        ]),
    )]);
    let accounts = adapter.accounts_from_response(&body, &tokens("tok")).unwrap();
    assert_eq!(accounts.len(), 2);
    assert_eq!(accounts[0].account_key, "o1");
    assert_eq!(accounts[0].display_name, "First");
    assert_eq!(accounts[1].display_name, "Eventbrite organization");
    let none = obj(vec![("organizations", Json::Array(vec![]))]);
    assert!(adapter.accounts_from_response(&none, &tokens("tok")).is_err());
}

#[test]
fn meetup_publishing_request_and_reply() {
    let adapter = MeetupAdapter::new(test_oauth_client()).unwrap();
    let ctx = context("k", obj(vec![("group_urlname", s("rustaceans"))]), Json::Null);
    let (url, body) = adapter.create_event_request(&event(), &ctx).unwrap();
    assert_eq!(url, "https://api.meetup.com/gql-ext");
    let input = body.get("variables").unwrap().get("input").unwrap();
    assert_eq!(input.get_str("groupUrlname"), Some("rustaceans"));
    assert_eq!(input.get("duration").unwrap().as_u64(), Some(90 * 60_000));
    assert_eq!(input.get_str("publishStatus"), Some("PUBLISHED"));
    assert!(matches!(input.get("venueId"), Some(Json::Null)));

    let rejected = obj(vec![(
        "data",
        obj(vec![("createEvent", obj(vec![("errors", Json::Array(vec![obj(vec![("message", s("no"))])]))]))]),
    )]);
    assert!(matches!(adapter.publication(rejected), Err(MeetupFailure::Rejected(v)) if v.len() == 1));
    let created = obj(vec![(
        "data",
        obj(vec![(
            "createEvent",
            obj(vec![
                ("event", obj(vec![("id", s("m1")), ("eventUrl", s("https://meetup.com/e/m1"))])),
                ("errors", Json::Array(vec![])),
            ]),
        )]),
    )]);
    let p = adapter.publication(created).unwrap();
    assert_eq!(p.external_id.as_deref(), Some("m1"));
    assert_eq!(p.external_url.as_deref(), Some("https://meetup.com/e/m1"));
    assert!(matches!(
        adapter.publication(obj(vec![])),
        Err(MeetupFailure::Provider(ProviderError::InvalidResponse(m))) if m == "missing createEvent.event"
    ));
}

#[test]
fn meta_posts_link_to_the_event() {
    let adapter = MetaFacebookPageAdapter::new(test_oauth_client(), "v19.0".to_owned());
    let ctx = context("page-1", Json::Null, Json::Null);
    let (url, form) = adapter.post_request(&event(), &ctx).unwrap();
    assert_eq!(url.as_str(), "https://graph.facebook.com/v19.0/page-1/feed");
    assert_eq!(form[0].1, "Launch\n\nSummary\n\nStarts 2023-11-14 22:13:20 UTC");
    assert_eq!(form[1], ("link".to_owned(), "https://events.example.com/e/1".to_owned()));
    let p = adapter.publication(obj(vec![("id", s("post-1"))]), &event());
    assert_eq!(p.external_id.as_deref(), Some("post-1"));

    let pages = obj(vec![(
        "data",
        Json::Array(vec![
            obj(vec![("id", s("p1")), ("access_token", s("pt1"))]),
            obj(vec![("id", s("p2"))]),
        ]),
    )]);
    let accounts = adapter.accounts_from_response(&pages, &tokens("user")).unwrap();
    assert_eq!(accounts.len(), 1);
    assert_eq!(accounts[0].display_name, "Facebook Page");
    assert_eq!(accounts[0].token_override.as_ref().unwrap().access_token, "pt1");
}

#[test]
fn parsed_urls_are_normalized() {
    let url = ParsedUrl::parse("HTTPS://Events.Example.COM").unwrap();
    assert_eq!(url.as_str(), "https://events.example.com/");
    assert_eq!(url.scheme(), "https");
    assert!(ParsedUrl::parse("relative/path").is_err());
}
