//! Generic webhook: a signed `event.publish` message posted to an approved
//! HTTPS endpoint.
use vstd::prelude::*;
use crate::crypto::{hmac_sha256, hmac_sha256_tag};
use crate::domain::{
    DeliveryMode, ProviderCapabilities, ProviderKind, Publication, PublicationStatus,
};
use crate::encoding::{hex_encode, hex_text};
use crate::json::{get_str, Json, JsonValue};
use crate::sdk::{is_success, OAuthStart, ProviderError, PublishContext, TokenSet};
use crate::text::{
    ends_with, eq_ignore_ascii_case, is_blank, is_blank_str, str_ends_with,
    str_eq_ignore_ascii_case, strings_view, utf8_len, utf8_len_exceeds,
};
use crate::web::{url_parsed, HostView, ParsedUrl, UrlHost, UrlView};

verus! {

broadcast use vstd::string::group_string_axioms;

/// `Ipv4Addr::is_private`: 10/8, 172.16/12, 192.168/16.
pub open spec fn ipv4_is_private(o: Seq<u8>) -> bool {
    ||| o[0] == 10
    ||| o[0] == 172 && 16 <= o[1] <= 31
    ||| o[0] == 192 && o[1] == 168
}

/// `is_loopback`, `is_link_local`, `is_broadcast`, `is_documentation` and
/// `is_unspecified` of `Ipv4Addr`.
pub open spec fn ipv4_is_local_or_reserved(o: Seq<u8>) -> bool {
    ||| o[0] == 127
    ||| o[0] == 169 && o[1] == 254
    ||| o[0] == 255 && o[1] == 255 && o[2] == 255 && o[3] == 255
    ||| o[0] == 192 && o[1] == 0 && o[2] == 2
    ||| o[0] == 198 && o[1] == 51 && o[2] == 100
    ||| o[0] == 203 && o[1] == 0 && o[2] == 113
    ||| o[0] == 0 && o[1] == 0 && o[2] == 0 && o[3] == 0
}

pub open spec fn ipv4_blocked(o: Seq<u8>) -> bool {
    ipv4_is_private(o) || ipv4_is_local_or_reserved(o)
}

/// `is_loopback` (`::1`), `is_unspecified` (`::`), `is_unique_local`
/// (`fc00::/7`) and `is_unicast_link_local` (`fe80::/10`) of `Ipv6Addr`.
pub open spec fn ipv6_blocked(s: Seq<u16>) -> bool {
    let zero_prefix = s[0] == 0 && s[1] == 0 && s[2] == 0 && s[3] == 0 && s[4] == 0 && s[5] == 0
        && s[6] == 0;
    ||| zero_prefix && s[7] == 1
    ||| zero_prefix && s[7] == 0
    ||| 0xfc00 <= s[0] <= 0xfdff
    ||| 0xfe80 <= s[0] <= 0xfebf
}

/// What `validate_endpoint` answers for a parsed endpoint.
pub open spec fn endpoint_verdict(u: UrlView) -> Result<(), Seq<char>> {
    if u.scheme != "https"@ {
        Err("webhook endpoint must use HTTPS"@)
    } else {
        match u.host {
            None => Err("webhook endpoint must include a host"@),
            Some(HostView::Domain(d)) => if eq_ignore_ascii_case(d, "localhost"@) || ends_with(
                d,
                ".localhost"@,
            ) {
                Err("webhook endpoint cannot target localhost"@)
            } else {
                Ok(())
            },
            Some(HostView::Ipv4(o)) => if ipv4_blocked(o) {
                Err("webhook endpoint cannot target a private or local address"@)
            } else {
                Ok(())
            },
            Some(HostView::Ipv6(s)) => if ipv6_blocked(s) {
                Err("webhook endpoint cannot target a private or local address"@)
            } else {
                Ok(())
            },
        }
    }
}

fn ipv4_blocked_exec(o: &[u8; 4]) -> (b: bool)
    ensures
        b == ipv4_blocked(o@),
{
    let private = o[0] == 10 || (o[0] == 172 && 16 <= o[1] && o[1] <= 31) || (o[0] == 192 && o[1]
        == 168);
    let loopback = o[0] == 127;
    let link_local = o[0] == 169 && o[1] == 254;
    let broadcast = o[0] == 255 && o[1] == 255 && o[2] == 255 && o[3] == 255;
    let documentation = (o[0] == 192 && o[1] == 0 && o[2] == 2) || (o[0] == 198 && o[1] == 51
        && o[2] == 100) || (o[0] == 203 && o[1] == 0 && o[2] == 113);
    let unspecified = o[0] == 0 && o[1] == 0 && o[2] == 0 && o[3] == 0;
    private || loopback || link_local || broadcast || documentation || unspecified
}

fn ipv6_blocked_exec(s: &[u16; 8]) -> (b: bool)
    ensures
        b == ipv6_blocked(s@),
{
    let zero_prefix = s[0] == 0 && s[1] == 0 && s[2] == 0 && s[3] == 0 && s[4] == 0 && s[5] == 0
        && s[6] == 0;
    let loopback = zero_prefix && s[7] == 1;
    let unspecified = zero_prefix && s[7] == 0;
    let unique_local = 0xfc00 <= s[0] && s[0] <= 0xfdff;
    let link_local = 0xfe80 <= s[0] && s[0] <= 0xfebf;
    loopback || unspecified || unique_local || link_local
}

/// Accepts only HTTPS endpoints whose host is neither localhost nor a
/// private, loopback, link-local, broadcast, documentation or unspecified
/// address.
pub fn validate_endpoint(endpoint: &ParsedUrl) -> (r: Result<(), ProviderError>)
    ensures
        r is Ok <==> endpoint_verdict(endpoint@) is Ok,
        r matches Err(e) ==> (e matches ProviderError::Configuration(m)
            && endpoint_verdict(endpoint@) == Err::<(), Seq<char>>(m@)),
{
    if !crate::text::str_eq(endpoint.scheme(), "https") {
        return Err(ProviderError::Configuration("webhook endpoint must use HTTPS".to_owned()));
    }
    match endpoint.host() {
        None => Err(ProviderError::Configuration("webhook endpoint must include a host".to_owned())),
        Some(UrlHost::Domain(d)) => {
            if str_eq_ignore_ascii_case(d.as_str(), "localhost") || str_ends_with(
                d.as_str(),
                ".localhost",
            ) {
                Err(ProviderError::Configuration("webhook endpoint cannot target localhost".to_owned()))
            } else {
                Ok(())
            }
        },
        Some(UrlHost::Ipv4(o)) => {
            if ipv4_blocked_exec(o) {
                Err(
                    ProviderError::Configuration(
                        "webhook endpoint cannot target a private or local address".to_owned(),
                    ),
                )
            } else {
                Ok(())
            }
        },
        Some(UrlHost::Ipv6(s)) => {
            if ipv6_blocked_exec(s) {
                Err(
                    ProviderError::Configuration(
                        "webhook endpoint cannot target a private or local address".to_owned(),
                    ),
                )
            } else {
                Ok(())
            }
        },
    }
}

} // verus!

verus! {

pub struct GenericWebhookAdapter;

impl Default for GenericWebhookAdapter {
    fn default() -> (r: GenericWebhookAdapter)
        ensures
            r == GenericWebhookAdapter,
    {
        GenericWebhookAdapter
    }
}

/// The endpoint named by the publish target's options.
pub open spec fn target_endpoint(options: JsonValue) -> Option<Seq<char>> {
    get_str(options, "endpoint"@)
}

/// The receipt of a successful delivery: an empty (blank) reply becomes
/// `{"status": <code>}`; any other reply must be JSON.
pub open spec fn webhook_receipt(status: u16, body: Seq<char>, parsed: Result<JsonValue, Seq<char>>) -> Result<JsonValue, Seq<char>> {
    if is_blank(body) {
        Ok(JsonValue::Object(seq![("status"@, JsonValue::PosInt(status as u64))]))
    } else {
        match parsed {
            Ok(v) => Ok(v),
            Err(m) => Err("successful webhook response was not JSON: "@ + m + "; body="@ + body),
        }
    }
}

impl GenericWebhookAdapter {
    pub fn kind(&self) -> (k: ProviderKind)
        ensures
            k == ProviderKind::GenericWebhook,
    {
        ProviderKind::GenericWebhook
    }

    pub fn capabilities(&self) -> (c: ProviderCapabilities)
        ensures
            c.provider == ProviderKind::GenericWebhook,
            c.delivery_mode == DeliveryMode::SignedWebhook,
            c.flags() == (false, true, false, false, true, false, false),
            strings_view(c.notes@) == seq![
                "The destination defines the downstream platform behavior."@,
                "The v1 adapter emits event.publish; update and delete messages are not implemented yet."@,
            ],
    {
        let mut notes: Vec<String> = Vec::new();
        notes.push("The destination defines the downstream platform behavior.".to_owned());
        notes.push(
            "The v1 adapter emits event.publish; update and delete messages are not implemented yet.".to_owned(),
        );
        assert(strings_view(notes@) =~= seq![
            "The destination defines the downstream platform behavior."@,
            "The v1 adapter emits event.publish; update and delete messages are not implemented yet."@,
        ]);
        ProviderCapabilities {
            provider: ProviderKind::GenericWebhook,
            delivery_mode: DeliveryMode::SignedWebhook,
            oauth: false,
            create: true,
            update: false,
            delete: false,
            publish: true,
            webhooks: false,
            requires_manual_step: false,
            notes,
        }
    }

    /// Webhooks are configured with a URL and secret, not OAuth.
    pub fn authorization_url(&self, state: &str, pkce_challenge: Option<&str>) -> (r: Result<OAuthStart, ProviderError>)
        ensures
            r matches Err(ProviderError::Unsupported(m)) && m@
                == "generic webhooks use a configured URL and secret"@,
    {
        Err(ProviderError::Unsupported("generic webhooks use a configured URL and secret"))
    }

    /// Webhooks are configured with a URL and secret, not OAuth.
    pub fn exchange_code(&self, code: &str, pkce_verifier: Option<&str>) -> (r: Result<TokenSet, ProviderError>)
        ensures
            r matches Err(ProviderError::Unsupported(m)) && m@
                == "generic webhooks use a configured URL and secret"@,
    {
        Err(ProviderError::Unsupported("generic webhooks use a configured URL and secret"))
    }

    /// The endpoint to deliver to: the `endpoint` option of the publish
    /// target, which must parse and pass `validate_endpoint`; the signing secret (the
    /// access token) must be at least 32 bytes.
    pub fn delivery_endpoint(&self, tokens: &TokenSet, context: &PublishContext) -> (r: Result<ParsedUrl, ProviderError>)
        ensures
            target_endpoint(context.target_options.view_json()) is None ==> (r matches Err(
                ProviderError::Configuration(m),
            ) && m@ == "approved webhook endpoint is required"@),
            target_endpoint(context.target_options.view_json()) matches Some(t) ==> match url_parsed(t) {
                None => r matches Err(ProviderError::Url(_)),
                Some(u) => match endpoint_verdict(u) {
                    Err(m) => r matches Err(ProviderError::Configuration(x)) && x@ == m,
                    Ok(_) => if utf8_len(tokens.access_token@) < 32 {
                        r matches Err(ProviderError::Configuration(x)) && x@
                            == "webhook signing secret must contain at least 32 characters"@
                    } else {
                        r matches Ok(p) && p@ == u
                    },
                },
            },
    {
        let text = match context.target_options.get_str("endpoint") {
            Some(t) => t,
            None => return Err(
                ProviderError::Configuration("approved webhook endpoint is required".to_owned()),
            ),
        };
        let endpoint = match ParsedUrl::parse(text) {
            Ok(u) => u,
            Err(e) => return Err(ProviderError::Url(e)),
        };
        match validate_endpoint(&endpoint) {
            Ok(()) => {},
            Err(e) => return Err(e),
        }
        if !utf8_len_exceeds(tokens.access_token.as_str(), 31) {
            return Err(
                ProviderError::Configuration(
                    "webhook signing secret must contain at least 32 characters".to_owned(),
                ),
            );
        }
        Ok(endpoint)
    }

    /// The `x-evgl-signature` header for a payload: `sha256=` and the hex
    /// HMAC-SHA256 tag of the payload under the secret's UTF-8 bytes.
    pub fn signature(&self, tokens: &TokenSet, payload: &[u8]) -> (r: Result<String, ProviderError>)
        ensures
            r matches Ok(s) && s@ == "sha256="@ + hex_text(
                hmac_sha256_tag(vstd::utf8::encode_utf8(tokens.access_token@), payload@),
            ),
    {
        let tag = match hmac_sha256(tokens.access_token.as_str().as_bytes(), payload) {
            Some(t) => t,
            None => return Err(ProviderError::Configuration("invalid webhook secret".to_owned())),
        };
        let mut s = "sha256=".to_owned();
        let h = hex_encode(tag.as_slice());
        s.append(h.as_str());
        Ok(s)
    }

    /// The publication for the endpoint's reply: a non-2xx status is the
    /// endpoint's rejection; otherwise the receipt is the reply (see
    /// `webhook_receipt`), with its `id` and a valid `url` as the external
    /// reference.
    pub fn publication(&self, status: u16, body: String, parsed: Result<Json, String>) -> (r: Result<Publication, ProviderError>)
        ensures
            !is_success(status) ==> (r matches Err(ProviderError::Remote { status: s, body: b })
                && s == status && b@ == body@),
            is_success(status) ==> match webhook_receipt(status, body@, crate::json::parse_outcome(parsed)) {
                Err(m) => r matches Err(ProviderError::InvalidResponse(x)) && x@ == m,
                Ok(v) => r matches Ok(p) && {
                    &&& p.provider == ProviderKind::GenericWebhook
                    &&& p.status == PublicationStatus::Published
                    &&& p.receipt.view_json() == v
                    &&& crate::sdk::opt_string_view(p.external_id) == get_str(v, "id"@)
                    &&& crate::sdk::opt_string_view(p.external_url) == match get_str(v, "url"@) {
                        Some(t) => crate::web::parsed_url_text(t),
                        None => None,
                    }
                    &&& p.action is None
                },
            },
    {
        if !(200 <= status && status <= 299) {
            return Err(ProviderError::Remote { status, body });
        }
        let receipt = if is_blank_str(body.as_str()) {
            crate::json::object1("status", Json::Number(crate::json::JsonNumber::PosInt(status as u64)))
        } else {
            match parsed {
                Ok(v) => v,
                Err(m) => {
                    let mut msg = "successful webhook response was not JSON: ".to_owned();
                    msg.append(m.as_str());
                    msg.append("; body=");
                    msg.append(body.as_str());
                    return Err(ProviderError::InvalidResponse(msg));
                },
            }
        };
        let external_id = match receipt.get_str("id") {
            Some(s) => Some(s.to_owned()),
            None => None,
        };
        let external_url = crate::web::url_text_if_valid(receipt.get_str("url"));
        Ok(
            Publication {
                provider: ProviderKind::GenericWebhook,
                status: PublicationStatus::Published,
                external_id,
                external_url,
                receipt,
                action: None,
            },
        )
    }
}

} // verus!
