//! Event cross-posting library: domain model, validation rules, provider
//! request planning, webhook signing and the token vault.
use vstd::prelude::*;

pub mod contracts;
pub mod crypto;
pub mod datetime;
pub mod domain;
pub mod encoding;
pub mod json;
pub mod providers;
pub mod sdk;
pub mod text;
pub mod vault;
pub mod web;

verus! {

} // verus!
