//! The provider adapters: what each one sends, and what it makes of the
//! replies.
pub mod craigslist;
pub mod generic_webhook;
pub mod eventbrite;
pub mod meetup;
pub mod meta;
