//! The event and provider domain model and its validation rules.
use vstd::prelude::*;
use vstd::arithmetic::div_mod::lemma_mod_multiples_vanish;
use crate::json::Json;
use crate::text::{is_blank, is_blank_str, str_eq, trim, trimmed_len, utf8_len, utf8_len_exceeds};

verus! {

broadcast use vstd::string::group_string_axioms;

/// The providers an event can be cross-posted to.
#[derive(Debug, Clone, Copy, PartialEq, Eq, Structural, Hash, Ord, PartialOrd)]
pub enum ProviderKind {
    Eventbrite,
    Meetup,
    MetaFacebookPage,
    Craigslist,
    GenericWebhook,
}

/// The stable name of each provider.
pub open spec fn provider_name(k: ProviderKind) -> Seq<char> {
    match k {
        ProviderKind::Eventbrite => "eventbrite"@,
        ProviderKind::Meetup => "meetup"@,
        ProviderKind::MetaFacebookPage => "meta_facebook_page"@,
        ProviderKind::Craigslist => "craigslist"@,
        ProviderKind::GenericWebhook => "generic_webhook"@,
    }
}

/// The provider that a textual name (or one of its aliases) denotes.
pub open spec fn provider_named(s: Seq<char>) -> Option<ProviderKind> {
    if s == "eventbrite"@ {
        Some(ProviderKind::Eventbrite)
    } else if s == "meetup"@ {
        Some(ProviderKind::Meetup)
    } else if s == "meta"@ || s == "facebook"@ || s == "meta_facebook_page"@ {
        Some(ProviderKind::MetaFacebookPage)
    } else if s == "craigslist"@ {
        Some(ProviderKind::Craigslist)
    } else if s == "generic_webhook"@ || s == "webhook"@ {
        Some(ProviderKind::GenericWebhook)
    } else {
        None
    }
}

/// Every provider, in declaration order.
pub open spec fn all_providers() -> Seq<ProviderKind> {
    seq![
        ProviderKind::Eventbrite,
        ProviderKind::Meetup,
        ProviderKind::MetaFacebookPage,
        ProviderKind::Craigslist,
        ProviderKind::GenericWebhook,
    ]
}

#[derive(Debug)]
pub enum DomainError {
    UnknownProvider(String),
    InvalidEvent(&'static str),
    InvalidCrossPost(&'static str),
}

/// The display text of a domain error.
pub open spec fn domain_error_text(e: DomainError) -> Seq<char> {
    match e {
        DomainError::UnknownProvider(s) => "unknown provider: "@ + s@,
        DomainError::InvalidEvent(m) => "invalid event: "@ + m@,
        DomainError::InvalidCrossPost(m) => "invalid cross-post request: "@ + m@,
    }
}

impl DomainError {
    /// The error's display text.
    pub fn to_display_string(&self) -> (s: String)
        ensures
            s@ == domain_error_text(*self),
    {
        match self {
            DomainError::UnknownProvider(p) => {
                let mut s = "unknown provider: ".to_owned();
                s.append(p.as_str());
                s
            },
            DomainError::InvalidEvent(m) => {
                let mut s = "invalid event: ".to_owned();
                s.append(m);
                s
            },
            DomainError::InvalidCrossPost(m) => {
                let mut s = "invalid cross-post request: ".to_owned();
                s.append(m);
                s
            },
        }
    }
}

impl ProviderKind {
    /// Every provider, in declaration order.
    pub const ALL: [ProviderKind; 5] = [
        ProviderKind::Eventbrite,
        ProviderKind::Meetup,
        ProviderKind::MetaFacebookPage,
        ProviderKind::Craigslist,
        ProviderKind::GenericWebhook,
    ];

    /// Every provider, in declaration order.
    pub fn all() -> (r: [ProviderKind; 5])
        ensures
            r@ == all_providers(),
    {
        let r = ProviderKind::ALL;
        assert(r@ =~= all_providers());
        r
    }

    /// The provider's stable name.
    pub fn as_str(self) -> (s: &'static str)
        ensures
            s@ == provider_name(self),
    {
        match self {
            ProviderKind::Eventbrite => "eventbrite",
            ProviderKind::Meetup => "meetup",
            ProviderKind::MetaFacebookPage => "meta_facebook_page",
            ProviderKind::Craigslist => "craigslist",
            ProviderKind::GenericWebhook => "generic_webhook",
        }
    }

    /// Reads a provider name; `meta` and `facebook` name the Facebook Page
    /// provider and `webhook` the generic webhook.
    pub fn parse(value: &str) -> (r: Result<ProviderKind, DomainError>)
        ensures
            provider_named(value@) matches Some(k) ==> r == Ok::<ProviderKind, DomainError>(k),
            provider_named(value@) is None ==> (r matches Err(DomainError::UnknownProvider(s))
                && s@ == value@),
    {
        if str_eq(value, "eventbrite") {
            Ok(ProviderKind::Eventbrite)
        } else if str_eq(value, "meetup") {
            Ok(ProviderKind::Meetup)
        } else if str_eq(value, "meta") || str_eq(value, "facebook") || str_eq(
            value,
            "meta_facebook_page",
        ) {
            Ok(ProviderKind::MetaFacebookPage)
        } else if str_eq(value, "craigslist") {
            Ok(ProviderKind::Craigslist)
        } else if str_eq(value, "generic_webhook") || str_eq(value, "webhook") {
            Ok(ProviderKind::GenericWebhook)
        } else {
            Err(DomainError::UnknownProvider(value.to_owned()))
        }
    }
}

impl std::str::FromStr for ProviderKind {
    type Err = DomainError;

    fn from_str(value: &str) -> (r: Result<Self, Self::Err>)
        ensures
            provider_named(value@) matches Some(k) ==> r == Ok::<ProviderKind, DomainError>(k),
            provider_named(value@) is None ==> (r matches Err(DomainError::UnknownProvider(s))
                && s@ == value@),
    {
        ProviderKind::parse(value)
    }
}

/// Reading back a provider's stable name gives the provider.
pub proof fn lemma_provider_name_round_trip(k: ProviderKind)
    ensures
        provider_named(provider_name(k)) == Some(k),
{
    reveal_strlit("eventbrite");
    reveal_strlit("meetup");
    reveal_strlit("meta");
    reveal_strlit("facebook");
    reveal_strlit("meta_facebook_page");
    reveal_strlit("craigslist");
    reveal_strlit("generic_webhook");
    reveal_strlit("webhook");
    let ev = "eventbrite"@;
    let mu = "meetup"@;
    let me = "meta"@;
    let fb = "facebook"@;
    let mf = "meta_facebook_page"@;
    let cl = "craigslist"@;
    let gw = "generic_webhook"@;
    let wh = "webhook"@;
    match k {
        ProviderKind::Eventbrite => {},
        ProviderKind::Meetup => {
            assert(mu.len() != ev.len());
        },
        ProviderKind::MetaFacebookPage => {
            assert(mf.len() != ev.len() && mf.len() != mu.len());
            assert(mf.len() != me.len() && mf.len() != fb.len());
        },
        ProviderKind::Craigslist => {
            assert(cl[0] != ev[0]);
            assert(cl.len() != mu.len() && cl.len() != me.len() && cl.len() != fb.len());
            assert(cl.len() != mf.len());
        },
        ProviderKind::GenericWebhook => {
            assert(gw.len() != ev.len() && gw.len() != mu.len() && gw.len() != me.len());
            assert(gw.len() != fb.len() && gw.len() != mf.len() && gw.len() != cl.len());
        },
    }
}

/// Distinct providers have distinct stable names.
pub proof fn lemma_provider_names_distinct(a: ProviderKind, b: ProviderKind)
    requires
        a != b,
    ensures
        provider_name(a) != provider_name(b),
{
    lemma_provider_name_round_trip(a);
    lemma_provider_name_round_trip(b);
}

/// `all()` lists every provider exactly once.
pub proof fn lemma_all_providers_complete(k: ProviderKind)
    ensures
        all_providers().contains(k),
        forall|i: int, j: int|
            0 <= i < j < all_providers().len() ==> all_providers()[i] != all_providers()[j],
{
    let s = all_providers();
    match k {
        ProviderKind::Eventbrite => assert(s[0] == k),
        ProviderKind::Meetup => assert(s[1] == k),
        ProviderKind::MetaFacebookPage => assert(s[2] == k),
        ProviderKind::Craigslist => assert(s[3] == k),
        ProviderKind::GenericWebhook => assert(s[4] == k),
    }
}

#[derive(Debug, Clone, Copy, PartialEq, Eq, Structural)]
pub enum DeliveryMode {
    NativeEvent,
    DistributionPost,
    SignedWebhook,
    ManualHandoff,
}

#[derive(Debug, Clone)]
pub struct ProviderCapabilities {
    pub provider: ProviderKind,
    pub delivery_mode: DeliveryMode,
    pub oauth: bool,
    pub create: bool,
    pub update: bool,
    pub delete: bool,
    pub publish: bool,
    pub webhooks: bool,
    pub requires_manual_step: bool,
    pub notes: Vec<String>,
}

impl ProviderCapabilities {
    /// The flags in declaration order: oauth, create, update, delete,
    /// publish, webhooks, requires_manual_step.
    pub open spec fn flags(self) -> (bool, bool, bool, bool, bool, bool, bool) {
        (
            self.oauth,
            self.create,
            self.update,
            self.delete,
            self.publish,
            self.webhooks,
            self.requires_manual_step,
        )
    }
}

/// A UTC instant: whole seconds since the Unix epoch and the nanoseconds
/// within that second.  As in chrono, a leap second is held as the last
/// second of a minute with nanoseconds from 1,000,000,000 on.
#[derive(Debug, Clone, Copy, PartialEq, Eq, Structural)]
pub struct Timestamp {
    pub secs: i64,
    pub nanos: u32,
}

/// The earliest and latest seconds that a UTC date-time can hold
/// (January 1, 262144 BCE and December 31, 262142 CE).
pub open spec fn min_timestamp_secs() -> int {
    -8334601228800
}

pub open spec fn max_timestamp_secs() -> int {
    8210266876799
}

/// Nanoseconds in a second.
pub open spec fn nanos_per_sec() -> int {
    1_000_000_000
}

/// The second of the day (UTC) on which an instant falls.
pub open spec fn second_of_day(t: Timestamp) -> int {
    (t.secs as int) % 86400
}

impl Timestamp {
    /// The instant lies in the representable range, and its nanoseconds are
    /// below one second, or below two in the last second of a minute (a
    /// leap second).
    pub open spec fn wf(self) -> bool {
        &&& min_timestamp_secs() <= self.secs <= max_timestamp_secs()
        &&& self.nanos < 1_000_000_000 || (self.nanos < 2_000_000_000 && (self.secs as int) % 60 == 59)
    }

    /// A reading of the system clock (`Utc::now`): well formed, and never
    /// inside a leap second.
    pub open spec fn is_clock_reading(self) -> bool {
        self.wf() && self.nanos < 1_000_000_000
    }

    /// Builds an instant from its parts, if they describe one.
    pub fn from_parts(secs: i64, nanos: u32) -> (r: Option<Timestamp>)
        ensures
            r matches Some(t) ==> t.secs == secs && t.nanos == nanos && t.wf(),
            r is None ==> !(Timestamp { secs, nanos }).wf(),
    {
        if !(-8334601228800 <= secs && secs <= 8210266876799) {
            return None;
        }
        let shifted: u64 = (secs + 8334601228800) as u64;
        proof {
            lemma_mod_multiples_vanish(138910020480, secs as int, 60);
        }
        if nanos < 1_000_000_000 || (nanos < 2_000_000_000 && shifted % 60 == 59) {
            Some(Timestamp { secs, nanos })
        } else {
            None
        }
    }

    /// `self <= other` in time.
    pub fn not_after(&self, other: &Timestamp) -> (r: bool)
        ensures
            r == (self.secs < other.secs || (self.secs == other.secs && self.nanos <= other.nanos)),
    {
        self.secs < other.secs || (self.secs == other.secs && self.nanos <= other.nanos)
    }
}

/// `a <= b` in time: by the second, then by the nanoseconds within it (a
/// leap second comes after the second it extends).
pub open spec fn ts_le(a: Timestamp, b: Timestamp) -> bool {
    a.secs < b.secs || (a.secs == b.secs && a.nanos <= b.nanos)
}

/// The leap second that `end - start` counts beyond the difference of the
/// seconds: one more where `start` is a leap second and `end` lies later in
/// its day's clock, one less where `end` is a leap second and lies earlier.
pub open spec fn leap_adjustment(start: Timestamp, end: Timestamp) -> int {
    if second_of_day(end) > second_of_day(start) && start.nanos >= 1_000_000_000 {
        1
    } else if second_of_day(end) < second_of_day(start) && end.nanos >= 1_000_000_000 {
        -1
    } else {
        0
    }
}

/// Nanoseconds from `start` to `end`, as a `DateTime<Utc>` difference counts
/// them.  Without leap seconds this is the difference of the instants'
/// nanoseconds since the epoch.
pub open spec fn elapsed_nanos(start: Timestamp, end: Timestamp) -> int {
    (end.secs - start.secs + leap_adjustment(start, end)) * nanos_per_sec() + end.nanos
        - start.nanos
}

/// Whole minutes from `start` to `end`, truncated toward zero.
pub open spec fn whole_minutes_between(start: Timestamp, end: Timestamp) -> int {
    let d = elapsed_nanos(start, end);
    if d >= 0 {
        d / 60_000_000_000
    } else {
        -((-d) / 60_000_000_000)
    }
}

/// The model of an event as the library reads it.
#[derive(Debug, Clone)]
pub struct EventDraft {
    pub id: u128,
    pub owner_id: u128,
    pub title: String,
    pub summary: String,
    pub description_html: String,
    pub starts_at: Timestamp,
    pub ends_at: Timestamp,
    pub timezone: String,
    pub canonical_url: String,
    pub online_url: Option<String>,
    pub tags: Vec<String>,
}

/// What `EventDraft::validate` answers.
pub open spec fn event_verdict(e: EventDraft) -> Result<(), Seq<char>> {
    let title_len = trim(e.title@).len();
    if !(1 <= title_len <= 200) {
        Err("title must contain 1..=200 characters"@)
    } else if e.summary@.len() > 280 {
        Err("summary cannot exceed 280 characters"@)
    } else if ts_le(e.ends_at, e.starts_at) {
        Err("ends_at must be after starts_at"@)
    } else if is_blank(e.timezone@) {
        Err("timezone cannot be empty"@)
    } else {
        Ok(())
    }
}

impl EventDraft {
    pub fn validate(&self) -> (r: Result<(), DomainError>)
        ensures
            r is Ok <==> event_verdict(*self) is Ok,
            r matches Err(e) ==> e matches DomainError::InvalidEvent(m)
                && event_verdict(*self) == Err::<(), Seq<char>>(m@),
    {
        let title_len = trimmed_len(self.title.as_str());
        if !(1 <= title_len && title_len <= 200) {
            return Err(DomainError::InvalidEvent("title must contain 1..=200 characters"));
        }
        if self.summary.as_str().unicode_len() > 280 {
            return Err(DomainError::InvalidEvent("summary cannot exceed 280 characters"));
        }
        if self.ends_at.not_after(&self.starts_at) {
            return Err(DomainError::InvalidEvent("ends_at must be after starts_at"));
        }
        if is_blank_str(self.timezone.as_str()) {
            return Err(DomainError::InvalidEvent("timezone cannot be empty"));
        }
        Ok(())
    }

    /// Whole minutes from the start to the end, truncated toward zero.
    pub fn duration_minutes(&self) -> (m: i64)
        requires
            self.starts_at.wf(),
            self.ends_at.wf(),
        ensures
            m == whole_minutes_between(self.starts_at, self.ends_at),
    {
        let start = self.starts_at;
        let end = self.ends_at;
        let start_of_day: u64 = ((start.secs + 8334601228800) as u64) % 86400;
        let end_of_day: u64 = ((end.secs + 8334601228800) as u64) % 86400;
        proof {
            lemma_mod_multiples_vanish(96465292, start.secs as int, 86400);
            lemma_mod_multiples_vanish(96465292, end.secs as int, 86400);
        }
        let adjustment: i128 = if end_of_day > start_of_day && start.nanos >= 1_000_000_000 {
            1
        } else if end_of_day < start_of_day && end.nanos >= 1_000_000_000 {
            -1
        } else {
            0
        };
        let d: i128 = (end.secs as i128 - start.secs as i128 + adjustment) * 1_000_000_000i128
            + end.nanos as i128 - start.nanos as i128;
        let m: i128 = if d >= 0 {
            d / 60_000_000_000i128
        } else {
            -((-d) / 60_000_000_000i128)
        };
        proof {
            lemma_elapsed_bounds(start, end);
        }
        m as i64
    }
}

/// Between two well-formed instants, the elapsed time is less than the
/// calendar's span and two seconds, either way.
proof fn lemma_elapsed_bounds(start: Timestamp, end: Timestamp)
    requires
        start.wf(),
        end.wf(),
    ensures
        -16544868105602 * nanos_per_sec() <= elapsed_nanos(start, end) <= 16544868105602
            * nanos_per_sec(),
{
    let a = end.secs - start.secs + leap_adjustment(start, end);
    assert(-16544868105600 <= a <= 16544868105600);
    assert(-16544868105600 * nanos_per_sec() <= a * nanos_per_sec() <= 16544868105600
        * nanos_per_sec()) by (nonlinear_arith)
        requires
            -16544868105600 <= a <= 16544868105600,
            nanos_per_sec() == 1_000_000_000,
    ;
}

/// A valid event never ends before it starts: its duration in whole
/// minutes is not negative (and within the calendar's span).
pub proof fn lemma_valid_event_duration(e: EventDraft)
    requires
        e.starts_at.wf(),
        e.ends_at.wf(),
        event_verdict(e) is Ok,
    ensures
        0 <= whole_minutes_between(e.starts_at, e.ends_at) <= 275748854400,
{
    let (start, end) = (e.starts_at, e.ends_at);
    let a = end.secs - start.secs + leap_adjustment(start, end);
    assert(a >= 0);
    assert(a == 0 || a * nanos_per_sec() >= nanos_per_sec()) by (nonlinear_arith)
        requires
            a >= 0,
            nanos_per_sec() == 1_000_000_000,
    ;
    assert(a == 0 ==> (end.secs == start.secs && end.nanos > start.nanos) || end.nanos
        >= 1_000_000_000);
    let d = elapsed_nanos(start, end);
    assert(d > -1_000_000_000);
    lemma_elapsed_bounds(start, end);
    if d < 0 {
        assert((-d) / 60_000_000_000 == 0);
    } else {
        assert(0 <= d / 60_000_000_000 <= 275748854400) by (nonlinear_arith)
            requires
                0 <= d <= 16544868105602 * 1_000_000_000,
        ;
    }
}

#[derive(Debug, Clone)]
pub struct PublishTarget {
    pub provider: ProviderKind,
    pub connection_id: u128,
    pub options: Json,
}

#[derive(Debug, Clone)]
pub struct CrossPostRequest {
    pub event_id: u128,
    pub targets: Vec<PublishTarget>,
    pub idempotency_key: String,
}

/// What `CrossPostRequest::validate` answers; the key is limited by its
/// UTF-8 byte length.
pub open spec fn cross_post_verdict(r: CrossPostRequest) -> Result<(), Seq<char>> {
    if r.targets@.len() == 0 {
        Err("at least one target is required"@)
    } else if is_blank(r.idempotency_key@) || utf8_len(r.idempotency_key@) > 200 {
        Err("idempotency_key must contain 1..=200 characters"@)
    } else {
        Ok(())
    }
}

impl CrossPostRequest {
    pub fn validate(&self) -> (r: Result<(), DomainError>)
        ensures
            r is Ok <==> cross_post_verdict(*self) is Ok,
            r matches Err(e) ==> e matches DomainError::InvalidCrossPost(m)
                && cross_post_verdict(*self) == Err::<(), Seq<char>>(m@),
    {
        if self.targets.len() == 0 {
            return Err(DomainError::InvalidCrossPost("at least one target is required"));
        }
        if is_blank_str(self.idempotency_key.as_str()) || utf8_len_exceeds(
            self.idempotency_key.as_str(),
            200,
        ) {
            return Err(DomainError::InvalidCrossPost("idempotency_key must contain 1..=200 characters"));
        }
        Ok(())
    }
}

#[derive(Debug, Clone, Copy, PartialEq, Eq, Structural)]
pub enum PublicationStatus {
    Queued,
    Running,
    Published,
    ActionRequired,
    Retrying,
    Failed,
}

/// A step the user completes by hand, with the fields prepared for it.
#[derive(Debug, Clone)]
pub struct ManualAction {
    pub heading: String,
    pub instructions: String,
    pub destination_url: String,
    pub prepared_fields: Vec<(String, String)>,
}

#[derive(Debug, Clone)]
pub struct Publication {
    pub provider: ProviderKind,
    pub status: PublicationStatus,
    pub external_id: Option<String>,
    pub external_url: Option<String>,
    pub receipt: Json,
    pub action: Option<ManualAction>,
}

#[derive(Debug, Clone)]
pub struct JobUpdate {
    pub job_id: u128,
    pub event_id: u128,
    pub provider: Option<ProviderKind>,
    pub status: PublicationStatus,
    pub attempt: u32,
    pub message: String,
    pub occurred_at: Timestamp,
    pub publication: Option<Publication>,
}

} // verus!
