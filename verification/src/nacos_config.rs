//! Standalone remote-source settings: a plain data holder for a fixed
//! endpoint, used where the connection is configured directly rather
//! than discovered from the tree.

use vstd::prelude::*;

verus! {

/// A fixed remote-source endpoint with its credentials.
#[derive(Clone, Debug)]
pub struct NacosConfig {
    enable: bool,
    server_addr: String,
    namespace: String,
    app_name: String,
    group: String,
    auth_username: String,
    auth_password: String,
}

impl NacosConfig {
    /// Whether the remote source is switched on.
    pub closed spec fn enabled(&self) -> bool {
        self.enable
    }

    /// Whether the remote source is switched on.
    pub fn is_enabled(&self) -> (r: bool)
        ensures
            r == self.enabled(),
    {
        self.enable
    }
}

impl Default for NacosConfig {
    /// The default: switched off, with every field empty.
    fn default() -> (r: Self)
        ensures
            !r.enabled(),
    {
        NacosConfig {
            enable: false,
            server_addr: String::new(),
            namespace: String::new(),
            app_name: String::new(),
            group: String::new(),
            auth_username: String::new(),
            auth_password: String::new(),
        }
    }
}

} // verus!
