//! Process-wide configuration, loaded once at startup and read-only after.
//!
//! The caller reads the environment and hands each variable in as an
//! `Option<String>`; this module decides which combinations are acceptable
//! and derives the values the relay needs (upstream URL, partial key for the
//! startup log).  A missing or empty required variable is a fatal startup
//! error naming that variable.

use vstd::prelude::*;
use vstd::string::StringExecFns;
use vstd::string::StrSliceExecFns;

verus! {

/// Configuration held for the process lifetime, never mutated after startup.
pub struct ProcessConfig {
    /// Secret for Basic authentication against the provider (password slot).
    pub api_key: String,
    /// Mail domain, a path segment of the upstream URL.
    pub domain: String,
    /// Fixed recipient of every relayed mail.
    pub to_address: String,
    /// Address the listener binds to.
    pub bind_address: String,
    /// Port the listener binds to.
    pub port: String,
}

/// Which required environment variable was missing or empty at startup.
#[derive(Clone, Copy, Debug, PartialEq, Eq, Structural)]
pub enum ConfigError {
    MissingApiKey,
    MissingDomain,
    MissingToAddress,
}

impl ConfigError {
    /// The name of the environment variable this error reports.
    pub fn variable(&self) -> (r: &'static str)
        ensures
            *self is MissingApiKey ==> r@ == "MAILGUN_API_KEY"@,
            *self is MissingDomain ==> r@ == "MAILGUN_DOMAIN"@,
            *self is MissingToAddress ==> r@ == "MAILGUN_TO_ADDRESS"@,
    {
        match self {
            ConfigError::MissingApiKey => "MAILGUN_API_KEY",
            ConfigError::MissingDomain => "MAILGUN_DOMAIN",
            ConfigError::MissingToAddress => "MAILGUN_TO_ADDRESS",
        }
    }
}

/// A required variable counts as present only when set and non-empty.
pub open spec fn present(v: Option<String>) -> bool {
    match v {
        Some(s) => s@.len() > 0,
        None => false,
    }
}

/// Builds the process configuration from the raw environment values, or
/// reports the first required variable (in the order key, domain, recipient)
/// that is missing or empty.  The bind address and port fall back to their
/// documented defaults when unset.
pub fn load_config(
    api_key: Option<String>,
    domain: Option<String>,
    to_address: Option<String>,
    bind_address: Option<String>,
    port: Option<String>,
) -> (r: Result<ProcessConfig, ConfigError>)
    ensures
        r is Ok <==> present(api_key) && present(domain) && present(to_address),
        !present(api_key) ==> r == Result::<ProcessConfig, ConfigError>::Err(
            ConfigError::MissingApiKey,
        ),
        present(api_key) && !present(domain) ==> r == Result::<
            ProcessConfig,
            ConfigError,
        >::Err(ConfigError::MissingDomain),
        present(api_key) && present(domain) && !present(to_address) ==> r == Result::<
            ProcessConfig,
            ConfigError,
        >::Err(ConfigError::MissingToAddress),
        r matches Ok(c) ==> {
            &&& c.api_key@ == api_key.unwrap()@
            &&& c.domain@ == domain.unwrap()@
            &&& c.to_address@ == to_address.unwrap()@
            &&& (bind_address matches Some(b) ==> c.bind_address@ == b@)
            &&& (bind_address is None ==> c.bind_address@ == "0.0.0.0"@)
            &&& (port matches Some(p) ==> c.port@ == p@)
            &&& (port is None ==> c.port@ == "8088"@)
        },
{
    let api_key = match api_key {
        Some(s) => {
            if s.as_str().unicode_len() == 0 {
                return Err(ConfigError::MissingApiKey);
            }
            s
        },
        None => {
            return Err(ConfigError::MissingApiKey);
        },
    };
    let domain = match domain {
        Some(s) => {
            if s.as_str().unicode_len() == 0 {
                return Err(ConfigError::MissingDomain);
            }
            s
        },
        None => {
            return Err(ConfigError::MissingDomain);
        },
    };
    let to_address = match to_address {
        Some(s) => {
            if s.as_str().unicode_len() == 0 {
                return Err(ConfigError::MissingToAddress);
            }
            s
        },
        None => {
            return Err(ConfigError::MissingToAddress);
        },
    };
    let bind_address = match bind_address {
        Some(b) => b,
        None => String::from_str("0.0.0.0"),
    };
    let port = match port {
        Some(p) => p,
        None => String::from_str("8088"),
    };
    Ok(ProcessConfig { api_key, domain, to_address, bind_address, port })
}

impl ProcessConfig {
    /// The provider endpoint every outbound message is posted to.
    pub fn upstream_url(&self) -> (r: String)
        ensures
            r@ == "https://api.mailgun.net/v3/"@ + self.domain@ + "/messages"@,
    {
        let mut url = String::from_str("https://api.mailgun.net/v3/");
        url.append(self.domain.as_str());
        url.append("/messages");
        proof {
            assert(url@ =~= "https://api.mailgun.net/v3/"@ + self.domain@ + "/messages"@);
        }
        url
    }

    /// The leading characters of the API key, at most six, disclosed in the
    /// startup log line.
    pub fn api_key_prefix(&self) -> (r: String)
        ensures
            self.api_key@.len() >= 6 ==> r@ == self.api_key@.take(6),
            self.api_key@.len() < 6 ==> r@ == self.api_key@,
    {
        let n = self.api_key.as_str().unicode_len();
        let k = if n < 6 {
            n
        } else {
            6
        };
        let prefix = self.api_key.as_str().substring_char(0, k);
        proof {
            assert(prefix@ =~= self.api_key@.take(k as int));
            if self.api_key@.len() < 6 {
                assert(prefix@ =~= self.api_key@);
            }
        }
        String::from_str(prefix)
    }
}

} // verus!
