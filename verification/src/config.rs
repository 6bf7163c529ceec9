//! The settings of an instance.
use vstd::prelude::*;

verus! {

/// The settings an instance runs with.
pub struct Config {
    pub instance_domain: String,
    pub bind_address: String,
    pub contact_email: String,
    pub port: u16,
    pub pg_user: String,
    pub pg_password: String,
    pub pg_host: String,
    pub pg_port: u16,
    pub pg_dbname: String,
}

} // verus!
