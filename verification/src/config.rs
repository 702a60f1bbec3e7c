//! Connection-level configuration and the authorization rule. The
//! core takes configuration as explicit values; reading the ambient
//! environment is the process boundary's job.

use vstd::prelude::*;
use vstd::string::StringExecFns;

verus! {

/// What the service needs to run: where to bind, and the shared
/// authorization token when one is configured.
#[derive(Debug, Clone)]
pub struct Config {
    pub bind_addr: String,
    pub auth: Option<String>,
}

impl Default for Config {
    /// An empty bind address and no authorization token.
    fn default() -> (c: Config)
        ensures
            c.bind_addr@.len() == 0,
            c.auth is None,
    {
        Config { bind_addr: String::new(), auth: None }
    }
}

impl Config {
    /// Build the configuration from the values the environment
    /// offered: the bind address is required, the authorization token
    /// optional.
    pub fn load_config(bind_addr: Option<String>, auth: Option<String>) -> (r: Result<
        Config,
        String,
    >)
        ensures
            bind_addr is Some ==> r is Ok && r->Ok_0.bind_addr == bind_addr->0 && r->Ok_0.auth
                == auth,
            bind_addr is None ==> r is Err && r->Err_0@ == "No BIND_ADDR provided"@,
    {
        match bind_addr {
            Some(bind_addr) => Ok(Config { bind_addr, auth }),
            None => Err(String::from_str("No BIND_ADDR provided")),
        }
    }
}

/// Whether a request may pass: either no token is configured, or the
/// request presented an authorization header equal to the configured
/// token.
pub fn auth(expected: &Option<String>, header: Option<&String>) -> (ok: bool)
    ensures
        ok == (expected is None || (header is Some && header->0@ == expected->0@)),
{
    match expected {
        None => true,
        Some(e) => match header {
            Some(h) => String::eq(h, e),
            None => false,
        },
    }
}

} // verus!
