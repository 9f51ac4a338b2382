//! The server's own settings block: database, logging, token and
//! transport-security sections, every one optional.

use vstd::prelude::*;

use crate::db_config::DbConfig;
use crate::decode::opt_node;
use crate::error::ConfigError;
use crate::jwt_config::JwtConfig;
use crate::log_config::LogConfig;
use crate::tls_config::TlsConfig;
use crate::value::ConfigValue;
use crate::value::Tree;
use crate::value::obj_get;

verus! {

/// The server's own settings block.
#[derive(Clone, Debug)]
pub struct RsServerConfig {
    pub db: Option<DbConfig>,
    pub log: Option<LogConfig>,
    pub jwt: Option<JwtConfig>,
    pub tls: Option<TlsConfig>,
}

impl RsServerConfig {
    /// Whether a tree materializes into this structure.
    pub open spec fn decodable(t: Tree) -> bool {
        &&& t is Obj
        &&& match opt_node(t, "db"@) {
            None => true,
            Some(sub) => DbConfig::decodable(sub),
        }
        &&& match opt_node(t, "log"@) {
            None => true,
            Some(sub) => LogConfig::decodable(sub),
        }
        &&& match opt_node(t, "jwt"@) {
            None => true,
            Some(sub) => JwtConfig::decodable(sub),
        }
        &&& match opt_node(t, "tls"@) {
            None => true,
            Some(sub) => TlsConfig::decodable(sub),
        }
    }

    /// What the materialization yields.
    pub open spec fn decodes_to(t: Tree, c: Self) -> bool {
        &&& match opt_node(t, "db"@) {
            None => c.db is None,
            Some(sub) => c.db matches Some(x) && DbConfig::decodes_to(sub, x),
        }
        &&& match opt_node(t, "log"@) {
            None => c.log is None,
            Some(sub) => c.log matches Some(x) && LogConfig::decodes_to(sub, x),
        }
        &&& match opt_node(t, "jwt"@) {
            None => c.jwt is None,
            Some(sub) => c.jwt matches Some(x) && JwtConfig::decodes_to(sub, x),
        }
        &&& match opt_node(t, "tls"@) {
            None => c.tls is None,
            Some(sub) => c.tls matches Some(x) && TlsConfig::decodes_to(sub, x),
        }
    }

    /// Materializes the structure; a mistyped section is an error.
    pub fn decode(t: &ConfigValue) -> (r: Result<Self, ConfigError>)
        ensures
            r is Ok <==> Self::decodable(t@),
            r matches Ok(c) ==> Self::decodes_to(t@, c),
            r matches Err(e) ==> e@ is Decode,
    {
        if !matches!(t, ConfigValue::Obj(_)) {
            return Err(ConfigError::Decode("server config".to_owned()));
        }
        let db = match obj_get(t, &"db".to_owned()) {
            None => None,
            Some(sub) => match sub {
                ConfigValue::Null => None,
                _ => Some(DbConfig::decode(sub)?),
            },
        };
        let log = match obj_get(t, &"log".to_owned()) {
            None => None,
            Some(sub) => match sub {
                ConfigValue::Null => None,
                _ => Some(LogConfig::decode(sub)?),
            },
        };
        let jwt = match obj_get(t, &"jwt".to_owned()) {
            None => None,
            Some(sub) => match sub {
                ConfigValue::Null => None,
                _ => Some(JwtConfig::decode(sub)?),
            },
        };
        let tls = match obj_get(t, &"tls".to_owned()) {
            None => None,
            Some(sub) => match sub {
                ConfigValue::Null => None,
                _ => Some(TlsConfig::decode(sub)?),
            },
        };
        Ok(RsServerConfig { db, log, jwt, tls })
    }

    /// The token settings; callers establish that the section is set.
    pub fn get_jwt(&self) -> (r: &JwtConfig)
        requires
            self.jwt is Some,
        ensures
            *r == self.jwt->0,
    {
        match &self.jwt {
            Some(j) => j,
            None => unreached(),
        }
    }
}

impl Default for RsServerConfig {
    /// The default: every section absent.
    fn default() -> (r: Self)
        ensures
            r.db is None,
            r.log is None,
            r.jwt is None,
            r.tls is None,
    {
        RsServerConfig { db: None, log: None, jwt: None, tls: None }
    }
}

} // verus!
