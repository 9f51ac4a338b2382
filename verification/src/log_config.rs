//! Logging settings: the filter level the process logs at.

use vstd::prelude::*;

use crate::decode::opt_str_of;
use crate::decode::opt_str_ok;
use crate::decode::read_opt_str;
use crate::error::ConfigError;
use crate::value::ConfigValue;
use crate::value::Tree;

verus! {

/// Logging settings.
#[derive(Clone, Debug)]
pub struct LogConfig {
    pub filter_level: String,
}

impl LogConfig {
    /// Whether a tree materializes into this structure.
    pub open spec fn decodable(t: Tree) -> bool {
        &&& t is Obj
        &&& opt_str_ok(t, "filter-level"@)
    }

    /// What the materialization yields: the configured level, or
    /// `info` when none is set.
    pub open spec fn decodes_to(t: Tree, c: Self) -> bool {
        match opt_str_of(t, "filter-level"@) {
            Some(s) => c.filter_level@ == s,
            None => c.filter_level@ == "info"@,
        }
    }

    /// Materializes the structure; a mistyped field is an error.
    pub fn decode(t: &ConfigValue) -> (r: Result<Self, ConfigError>)
        ensures
            r is Ok <==> Self::decodable(t@),
            r matches Ok(c) ==> Self::decodes_to(t@, c),
            r matches Err(e) ==> e@ is Decode,
    {
        if !matches!(t, ConfigValue::Obj(_)) {
            return Err(ConfigError::Decode("log".to_owned()));
        }
        let filter_level = match read_opt_str(t, "filter-level")? {
            Some(s) => s,
            None => "info".to_owned(),
        };
        Ok(LogConfig { filter_level })
    }
}

} // verus!
