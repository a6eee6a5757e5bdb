use std::rc::Rc;

use vstd::prelude::*;
use vstd::utf8::{decode_utf8 as utf8_text, valid_utf8};

use crate::config::{Config, ConfigError, ErrorKind, default_name, default_value, message_of};
use crate::flex_abi::decode_utf8;
use crate::http_context::{share, HeaderSet};

verus! {

/// Why a reconfiguration was turned down.
#[derive(Debug)]
pub enum ConfigureError {
    /// The host supplied no configuration.
    Missing,
    /// The configuration bytes are not UTF-8.
    NotUtf8,
    /// The configuration text is no valid policy.
    Invalid(ConfigError),
}

impl ConfigureError {
    /// The error's message.
    pub fn to_string(&self) -> (s: String)
        ensures
            match self {
                ConfigureError::Missing => s@ == "No configuration provided"@,
                ConfigureError::NotUtf8 => s@ == "Configuration is not valid UTF-8"@,
                ConfigureError::Invalid(e) => s@ == message_of(e.spec_kind()),
            },
    {
        match self {
            ConfigureError::Missing => String::from_str("No configuration provided"),
            ConfigureError::NotUtf8 => String::from_str("Configuration is not valid UTF-8"),
            ConfigureError::Invalid(e) => e.to_string(),
        }
    }
}

/// The long-lived root: owns the current policy and makes per-request
/// contexts that share it.
pub struct HeaderSetRoot {
    config: Rc<Config>,
    configured: bool,
}

/// The text of the configuration bytes that the host supplied.
pub fn configuration_text(bytes: Option<Vec<u8>>) -> (r: Result<String, ConfigureError>)
    ensures
        match bytes {
            None => r matches Err(ConfigureError::Missing),
            Some(b) => match r {
                Ok(s) => valid_utf8(b@) && s@ == utf8_text(b@),
                Err(e) => e is NotUtf8 && !valid_utf8(b@),
            },
        },
{
    match bytes {
        None => Err(ConfigureError::Missing),
        Some(b) => match decode_utf8(b) {
            Some(s) => Ok(s),
            None => Err(ConfigureError::NotUtf8),
        },
    }
}

impl HeaderSetRoot {
    pub closed spec fn policy(&self) -> Config {
        *self.config
    }

    pub closed spec fn is_configured(&self) -> bool {
        self.configured
    }

    /// The current policy is well formed.
    pub open spec fn wf(&self) -> bool {
        self.policy().wf()
    }

    /// An unconfigured root on the built-in policy.
    pub fn new() -> (r: HeaderSetRoot)
        ensures
            r.wf(),
            !r.is_configured(),
            r.policy().header_name matches Some(n) && n@ == default_name(),
            r.policy().header_value matches Some(v) && v@ == default_value(),
            r.policy().headers matches Some(h) && h@.len() == 0,
    {
        HeaderSetRoot { config: Rc::new(Config::default()), configured: false }
    }

    /// Installs a loaded policy, if it is well formed. Otherwise the current
    /// policy and state stay.
    pub fn configure(&mut self, loaded: Result<Config, ConfigError>) -> (r: Result<(), ConfigureError>)
        requires
            old(self).wf(),
        ensures
            final(self).wf(),
            match loaded {
                Ok(c) => if c.wf() {
                    r is Ok && final(self).policy() == c && final(self).is_configured()
                } else {
                    r matches Err(ConfigureError::Invalid(e)) && e.spec_kind() == ErrorKind::Data
                },
                Err(e) => r == Err::<(), ConfigureError>(ConfigureError::Invalid(e)),
            },
            r is Err ==> final(self).policy() == old(self).policy()
                && final(self).is_configured() == old(self).is_configured(),
    {
        match loaded {
            Ok(c) => match c.validate() {
                Ok(c) => {
                    self.config = Rc::new(c);
                    self.configured = true;
                    Ok(())
                },
                Err(e) => Err(ConfigureError::Invalid(e)),
            },
            Err(e) => Err(ConfigureError::Invalid(e)),
        }
    }

    /// A new per-request context on the current policy.
    pub fn create_http_context(&self) -> (h: HeaderSet)
        ensures
            h.policy() == self.policy(),
    {
        HeaderSet::new(share(&self.config))
    }
}

} // verus!
