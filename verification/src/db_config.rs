//! Database settings: the connection string, with a caller-supplied
//! fallback for when the configured one is empty. Reading the
//! environment is the caller's business; the fallback arrives as a
//! plain argument.

use vstd::prelude::*;

use crate::decode::req_str_of;
use crate::decode::req_str_ok;
use crate::decode::read_req_str;
use crate::error::ConfigError;
use crate::value::ConfigValue;
use crate::value::Tree;

verus! {

/// Database settings.
#[derive(Clone, Debug)]
pub struct DbConfig {
    pub url: String,
}

impl DbConfig {
    /// Whether a tree materializes into this structure.
    pub open spec fn decodable(t: Tree) -> bool {
        &&& t is Obj
        &&& req_str_ok(t, "url"@)
    }

    /// What the materialization yields.
    pub open spec fn decodes_to(t: Tree, c: Self) -> bool {
        c.url@ == req_str_of(t, "url"@)
    }

    /// Materializes the structure; a missing or mistyped field is an
    /// error.
    pub fn decode(t: &ConfigValue) -> (r: Result<Self, ConfigError>)
        ensures
            r is Ok <==> Self::decodable(t@),
            r matches Ok(c) ==> Self::decodes_to(t@, c),
            r matches Err(e) ==> e@ is Decode,
    {
        if !matches!(t, ConfigValue::Obj(_)) {
            return Err(ConfigError::Decode("db".to_owned()));
        }
        let url = read_req_str(t, "url")?;
        Ok(DbConfig { url })
    }

    /// The connection string to use: the configured one, unless it is
    /// empty and a fallback is supplied.
    pub fn effective_url(&self, fallback: Option<String>) -> (r: String)
        ensures
            self.url@.len() == 0 && fallback is Some ==> r@ == fallback->0@,
            self.url@.len() > 0 || fallback is None ==> r@ == self.url@,
    {
        if self.url.as_str().unicode_len() == 0 {
            match fallback {
                Some(f) => f,
                None => self.url.clone(),
            }
        } else {
            self.url.clone()
        }
    }
}

} // verus!
