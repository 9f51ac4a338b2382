//! Layered configuration resolution: a dynamically shaped value tree,
//! deep merge, `${dotted.path}` placeholder substitution, declarative
//! imports (local documents and a remote key-value source), profile
//! selection, and materialization into typed configuration structures.

use vstd::prelude::*;

pub mod db_config;
pub mod decode;
pub mod jwt_config;
pub mod load;
pub mod log_config;
pub mod nacos_config;
pub mod rs_server_config;
pub mod spring;
pub mod store;
pub mod tls_config;
pub mod error;
pub mod import;
pub mod parse;
pub mod placeholder;
pub mod profile;
pub mod text;
pub mod value;

verus! {

/// Empty payload, used where a response carries no data.
#[derive(Clone, Copy, Debug)]
pub struct Empty {}

/// Always false; the default for boolean settings that are opt-in.
pub fn default_false() -> (r: bool)
    ensures
        r == false,
{
    false
}

/// Always true; the default for boolean settings that are opt-out.
pub fn default_true() -> (r: bool)
    ensures
        r == true,
{
    true
}

} // verus!
