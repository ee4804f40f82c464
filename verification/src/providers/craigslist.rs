//! Craigslist: no automated posting; the adapter prepares the post for the
//! user to submit.
use vstd::prelude::*;
use crate::datetime::{rfc3339_text, to_rfc3339};
use crate::domain::{
    DeliveryMode, EventDraft, ManualAction, ProviderCapabilities, ProviderKind, Publication,
    PublicationStatus,
};
use crate::json::{get_str, Json, JsonValue};
use crate::sdk::{OAuthStart, ProviderError, PublishContext, TokenSet};
use crate::text::{pairs_view, strings_view};
use crate::web::{url_parsed, ParsedUrl};

verus! {

broadcast use vstd::string::group_string_axioms;

pub struct CraigslistAdapter;

impl Default for CraigslistAdapter {
    fn default() -> (r: CraigslistAdapter)
        ensures
            r == CraigslistAdapter,
    {
        CraigslistAdapter
    }
}

/// The page the post is submitted from, unless the target names one.
pub open spec fn craigslist_destination(options: JsonValue) -> Seq<char> {
    match get_str(options, "posting_url"@) {
        Some(s) => s,
        None => "https://www.craigslist.org/about/sites"@,
    }
}

/// The post body: summary, description and a link back to the event.
pub open spec fn craigslist_body(e: EventDraft) -> Seq<char> {
    e.summary@ + "\n\n"@ + e.description_html@ + "\n\nDetails and updates: "@ + e.canonical_url@
}

/// The prepared fields, in key order.
pub open spec fn craigslist_fields(e: EventDraft) -> Seq<(Seq<char>, Seq<char>)> {
    seq![
        ("body"@, craigslist_body(e)),
        ("end"@, rfc3339_text(e.ends_at.secs, e.ends_at.nanos)),
        ("start"@, rfc3339_text(e.starts_at.secs, e.starts_at.nanos)),
        ("title"@, e.title@),
    ]
}

/// Each prepared field holds what its name says: the title, the RFC 3339
/// texts of the start and of the end, and a body that opens with the summary
/// and closes with the event's canonical URL; the names are distinct.
pub proof fn lemma_craigslist_fields_describe_the_event(e: EventDraft)
    ensures
        forall|i: int, j: int|
            0 <= i < j < craigslist_fields(e).len() ==> craigslist_fields(e)[i].0
                != craigslist_fields(e)[j].0,
        forall|i: int|
            0 <= i < craigslist_fields(e).len() ==> {
                let (k, v) = #[trigger] craigslist_fields(e)[i];
                &&& k == "title"@ ==> v == e.title@
                &&& k == "start"@ ==> v == rfc3339_text(e.starts_at.secs, e.starts_at.nanos)
                &&& k == "end"@ ==> v == rfc3339_text(e.ends_at.secs, e.ends_at.nanos)
                &&& k == "body"@ ==> v.take(e.summary@.len() as int) == e.summary@ && v.skip(
                    v.len() - e.canonical_url@.len(),
                ) == e.canonical_url@
            },
        craigslist_fields(e).len() == 4,
        exists|i: int| 0 <= i < craigslist_fields(e).len() && #[trigger] craigslist_fields(e)[i].0
            == "start"@,
        exists|i: int| 0 <= i < craigslist_fields(e).len() && #[trigger] craigslist_fields(e)[i].0
            == "end"@,
{
    reveal_strlit("body");
    reveal_strlit("end");
    reveal_strlit("start");
    reveal_strlit("title");
    assert("body"@.len() == 4 && "end"@.len() == 3 && "start"@.len() == 5 && "title"@.len() == 5);
    assert("start"@[0] != "title"@[0] && "body"@[0] != "end"@[0]);
    let f = craigslist_fields(e);
    let b = craigslist_body(e);
    let head = e.summary@ + "\n\n"@ + e.description_html@ + "\n\nDetails and updates: "@;
    assert(b == head + e.canonical_url@);
    assert(b.take(e.summary@.len() as int) =~= e.summary@);
    assert(b.skip(b.len() - e.canonical_url@.len()) =~= e.canonical_url@);
    assert(f[2].0 == "start"@);
    assert(f[1].0 == "end"@);
}

impl CraigslistAdapter {
    pub fn kind(&self) -> (k: ProviderKind)
        ensures
            k == ProviderKind::Craigslist,
    {
        ProviderKind::Craigslist
    }

    pub fn capabilities(&self) -> (c: ProviderCapabilities)
        ensures
            c.provider == ProviderKind::Craigslist,
            c.delivery_mode == DeliveryMode::ManualHandoff,
            c.flags() == (false, false, false, false, false, false, true),
            strings_view(c.notes@) == seq![
                "General automated posting is disabled by policy."@,
                "Evento Globolo prepares copy and opens the official posting flow for the user."@,
            ],
    {
        let mut notes: Vec<String> = Vec::new();
        notes.push("General automated posting is disabled by policy.".to_owned());
        notes.push(
            "Evento Globolo prepares copy and opens the official posting flow for the user.".to_owned(),
        );
        assert(strings_view(notes@) =~= seq![
            "General automated posting is disabled by policy."@,
            "Evento Globolo prepares copy and opens the official posting flow for the user."@,
        ]);
        ProviderCapabilities {
            provider: self.kind(),
            delivery_mode: DeliveryMode::ManualHandoff,
            oauth: false,
            create: false,
            update: false,
            delete: false,
            publish: false,
            webhooks: false,
            requires_manual_step: true,
            notes,
        }
    }

    /// Craigslist has no OAuth flow.
    pub fn authorization_url(&self, state: &str, pkce_challenge: Option<&str>) -> (r: Result<OAuthStart, ProviderError>)
        ensures
            r matches Err(ProviderError::Unsupported(m)) && m@
                == "Craigslist has no general OAuth event-posting flow"@,
    {
        Err(ProviderError::Unsupported("Craigslist has no general OAuth event-posting flow"))
    }

    /// Craigslist has no OAuth flow.
    pub fn exchange_code(&self, code: &str, pkce_verifier: Option<&str>) -> (r: Result<TokenSet, ProviderError>)
        ensures
            r matches Err(ProviderError::Unsupported(m)) && m@
                == "Craigslist has no general OAuth event-posting flow"@,
    {
        Err(ProviderError::Unsupported("Craigslist has no general OAuth event-posting flow"))
    }

    /// Prepares the post for the user: a manual action that opens the
    /// posting page with the fields filled in.  Nothing is submitted.
    pub fn publish(&self, tokens: &TokenSet, event: &EventDraft, context: &PublishContext) -> (r: Result<Publication, ProviderError>)
        requires
            event.starts_at.wf(),
            event.ends_at.wf(),
        ensures
            url_parsed(craigslist_destination(context.target_options.view_json())) is None ==> r
                matches Err(ProviderError::Url(_)),
            url_parsed(craigslist_destination(context.target_options.view_json())) matches Some(
                u,
            ) ==> (r matches Ok(p) && {
                &&& p.provider == ProviderKind::Craigslist
                &&& p.status == PublicationStatus::ActionRequired
                &&& p.external_id is None
                &&& p.external_url is None
                &&& p.receipt.view_json() == JsonValue::Object(
                    seq![("automation_performed"@, JsonValue::Bool(false))],
                )
                &&& p.action matches Some(a) && {
                    &&& a.heading@ == "Complete the Craigslist post"@
                    &&& a.instructions@
                        == "Review the prepared fields, choose the correct local site and category, and submit the post yourself."@
                    &&& a.destination_url@ == u.text
                    &&& pairs_view(a.prepared_fields@) == craigslist_fields(*event)
                }
            }),
    {
        let destination: &str = match context.target_options.get_str("posting_url") {
            Some(s) => s,
            None => "https://www.craigslist.org/about/sites",
        };
        let mut body = event.summary.clone();
        body.append("\n\n");
        body.append(event.description_html.as_str());
        body.append("\n\nDetails and updates: ");
        body.append(event.canonical_url.as_str());
        let mut fields: Vec<(String, String)> = Vec::new();
        fields.push(("body".to_owned(), body));
        fields.push(("end".to_owned(), to_rfc3339(&event.ends_at)));
        fields.push(("start".to_owned(), to_rfc3339(&event.starts_at)));
        fields.push(("title".to_owned(), event.title.clone()));
        assert(pairs_view(fields@) =~= craigslist_fields(*event));
        let url = match ParsedUrl::parse(destination) {
            Ok(u) => u,
            Err(e) => return Err(ProviderError::Url(e)),
        };
        let mut receipt_fields: Vec<(String, Json)> = Vec::new();
        receipt_fields.push(("automation_performed".to_owned(), Json::Bool(false)));
        let receipt = Json::Object(receipt_fields);
        proof {
            crate::json::lemma_view_fields_len(receipt_fields@);
            assert(receipt.view_json() == JsonValue::Object(
                seq![("automation_performed"@, JsonValue::Bool(false))],
            )) by {
                assert(crate::json::view_fields(receipt_fields@) =~= seq![
                    ("automation_performed"@, JsonValue::Bool(false)),
                ]);
            }
        }
        Ok(
            Publication {
                provider: self.kind(),
                status: PublicationStatus::ActionRequired,
                external_id: None,
                external_url: None,
                receipt,
                action: Some(
                    ManualAction {
                        heading: "Complete the Craigslist post".to_owned(),
                        instructions: "Review the prepared fields, choose the correct local site and category, and submit the post yourself.".to_owned(),
                        destination_url: url.as_str().to_owned(),
                        prepared_fields: fields,
                    },
                ),
            },
        )
    }
}

} // verus!
