//! Text forms of instants, through the `chrono` crate.
use vstd::prelude::*;
use crate::domain::Timestamp;

verus! {

/// The RFC 3339 text that `DateTime<Utc>::to_rfc3339` gives for an instant.
pub uninterp spec fn rfc3339_text(secs: i64, nanos: u32) -> Seq<char>;

/// The text that `DateTime<Utc>`'s `Display` gives for an instant
/// (such as `2024-05-01 18:30:00 UTC`).
pub uninterp spec fn utc_display_text(secs: i64, nanos: u32) -> Seq<char>;

/// `DateTime::<Utc>::from_timestamp(..).to_rfc3339()`.  Trusted: the text is
/// the named RFC 3339 form.  A well-formed instant lies within chrono's
/// calendar (years -262143 through 262142) and has nanoseconds below one
/// second, so `from_timestamp` gives `Some` for it and the `None` arm is
/// never taken.
#[verifier::external_body]
pub(crate) fn to_rfc3339(t: &Timestamp) -> (s: String)
    requires
        t.wf(),
    ensures
        s@ == rfc3339_text(t.secs, t.nanos),
{
    match chrono::DateTime::from_timestamp(t.secs, t.nanos) {
        Some(d) => d.to_rfc3339(),
        None => String::new(),
    }
}

/// `DateTime::<Utc>::from_timestamp(..).to_string()`.  Trusted: the text is
/// the named display form.  As for `to_rfc3339`, `from_timestamp` gives
/// `Some` for every well-formed instant, so the `None` arm is never taken.
#[verifier::external_body]
pub(crate) fn to_utc_display(t: &Timestamp) -> (s: String)
    requires
        t.wf(),
    ensures
        s@ == utc_display_text(t.secs, t.nanos),
{
    match chrono::DateTime::from_timestamp(t.secs, t.nanos) {
        Some(d) => d.to_string(),
        None => String::new(),
    }
}

} // verus!
