//! Device configuration and credentials.
//!
//! The configuration is persisted by the surrounding binary; the library
//! only defines its shape and its blank starting point. Every privileged
//! call to the server carries a freshly issued short-lived API key — the
//! explicit policy is to fetch a new credential before each such call
//! rather than to cache one.

use vstd::prelude::*;

verus! {

/// The device's durable configuration.
#[derive(Debug)]
pub struct Config {
    /// Base URL of the remote server.
    pub url: String,
    /// The device's own id.
    pub id: String,
    /// Basic-auth user for the first bootstrap.
    pub username: String,
    /// Basic-auth password for the first bootstrap.
    pub password: String,
    /// The last issued API key, if any.
    pub key: Option<String>,
}

/// A short-lived API key, issued per privileged call.
#[derive(Debug)]
pub struct Apikey {
    pub key: String,
}

impl Config {
    /// A blank configuration, as on a device not yet enrolled.
    pub fn new() -> (c: Config)
        ensures
            c.url@ == Seq::<char>::empty(),
            c.id@ == Seq::<char>::empty(),
            c.username@ == Seq::<char>::empty(),
            c.password@ == Seq::<char>::empty(),
            c.key is None,
    {
        Config {
            url: String::new(),
            id: String::new(),
            username: String::new(),
            password: String::new(),
            key: None,
        }
    }
}

impl Default for Config {
    /// The blank configuration.
    fn default() -> (c: Config)
        ensures
            c.url@ == Seq::<char>::empty(),
            c.id@ == Seq::<char>::empty(),
            c.username@ == Seq::<char>::empty(),
            c.password@ == Seq::<char>::empty(),
            c.key is None,
    {
        Config::new()
    }
}

} // verus!
