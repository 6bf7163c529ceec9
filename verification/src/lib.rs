use vstd::prelude::*;

pub mod actors;
pub mod cache;
pub mod config;
pub mod digest;
pub mod fetch;
pub mod keys;
pub mod link;
pub mod object;
pub mod permission;
pub mod routes;
pub mod signature;
pub mod text;
pub mod urls;
pub mod webfinger;

verus! {

} // verus!
