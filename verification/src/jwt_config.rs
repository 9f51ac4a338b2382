//! Token-signing settings: a plain data holder with two required
//! fields.

use vstd::prelude::*;

use crate::decode::req_i64_of;
use crate::decode::req_i64_ok;
use crate::decode::req_str_of;
use crate::decode::req_str_ok;
use crate::decode::read_req_i64;
use crate::decode::read_req_str;
use crate::error::ConfigError;
use crate::value::ConfigValue;
use crate::value::Tree;

verus! {

/// Token-signing settings.
#[derive(Clone, Debug)]
pub struct JwtConfig {
    pub secret: String,
    pub expiry: i64,
}

impl JwtConfig {
    /// Whether a tree materializes into this structure.
    pub open spec fn decodable(t: Tree) -> bool {
        &&& t is Obj
        &&& req_str_ok(t, "secret"@)
        &&& req_i64_ok(t, "expiry"@)
    }

    /// What the materialization yields.
    pub open spec fn decodes_to(t: Tree, c: Self) -> bool {
        &&& c.secret@ == req_str_of(t, "secret"@)
        &&& c.expiry as int == req_i64_of(t, "expiry"@)
    }

    /// Materializes the structure; a missing or mistyped field is an
    /// error.
    pub fn decode(t: &ConfigValue) -> (r: Result<Self, ConfigError>)
        ensures
            r is Ok <==> Self::decodable(t@),
            r matches Ok(c) ==> Self::decodes_to(t@, c),
            r matches Err(e) ==> e@ is Decode,
    {
        if !matches!(t, ConfigValue::Obj(_)) {
            return Err(ConfigError::Decode("jwt".to_owned()));
        }
        let secret = read_req_str(t, "secret")?;
        let expiry = read_req_i64(t, "expiry")?;
        Ok(JwtConfig { secret, expiry })
    }
}

impl Default for JwtConfig {
    /// The default: an empty secret and a zero expiry.
    fn default() -> (r: Self)
        ensures
            r.secret@ == Seq::<char>::empty(),
            r.expiry == 0,
    {
        JwtConfig { secret: String::new(), expiry: 0 }
    }
}

} // verus!
