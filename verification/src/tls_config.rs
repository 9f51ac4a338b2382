//! Transport-security settings: a plain data holder with two required
//! fields.

use vstd::prelude::*;

use crate::decode::req_str_of;
use crate::decode::req_str_ok;
use crate::decode::read_req_str;
use crate::error::ConfigError;
use crate::value::ConfigValue;
use crate::value::Tree;

verus! {

/// Certificate and key material locations.
#[derive(Clone, Debug)]
pub struct TlsConfig {
    pub cert: String,
    pub key: String,
}

impl TlsConfig {
    /// Whether a tree materializes into this structure.
    pub open spec fn decodable(t: Tree) -> bool {
        &&& t is Obj
        &&& req_str_ok(t, "cert"@)
        &&& req_str_ok(t, "key"@)
    }

    /// What the materialization yields.
    pub open spec fn decodes_to(t: Tree, c: Self) -> bool {
        &&& c.cert@ == req_str_of(t, "cert"@)
        &&& c.key@ == req_str_of(t, "key"@)
    }

    /// Materializes the structure; a missing or mistyped field is an
    /// error.
    pub fn decode(t: &ConfigValue) -> (r: Result<Self, ConfigError>)
        ensures
            r is Ok <==> Self::decodable(t@),
            r matches Ok(c) ==> Self::decodes_to(t@, c),
            r matches Err(e) ==> e@ is Decode,
    {
        if !matches!(t, ConfigValue::Obj(_)) {
            return Err(ConfigError::Decode("tls".to_owned()));
        }
        let cert = read_req_str(t, "cert")?;
        let key = read_req_str(t, "key")?;
        Ok(TlsConfig { cert, key })
    }
}

} // verus!
