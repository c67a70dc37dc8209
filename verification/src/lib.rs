use vstd::prelude::*;

pub mod text;
pub mod srs;
pub mod mime;
pub mod message;
pub mod smtp;
pub mod outbound;
pub mod delivery;
pub mod crypto;
pub mod config;
pub mod dns;
pub mod i18n;
pub mod web;
pub mod dashboard;
pub mod filter;
pub mod blocklist;
pub mod rate_limit;
pub mod email_body;
pub mod compose;


verus! {

} // verus!
