//! Route layout of the HTTP ingress adapter.
//!
//! The HTTP adapter contains no verification logic: it accepts an uploaded
//! quote, hands the bytes to the decision core, and returns a text
//! rendering of the decision. The one thing worth pinning down is where
//! that endpoint lives; the adapter builds its application from the route
//! table assembled here.

use vstd::prelude::*;

verus! {

/// Where the verification service is served: a mount point and the routes
/// under it.
#[derive(Debug)]
pub struct ServiceConfig {
    /// The path prefix all routes are mounted under.
    pub mount_point: &'static str,
    /// The route paths, relative to the mount point.
    pub routes: Vec<&'static str>,
}

/// Assembles the verification service's route table, named for the web
/// framework the HTTP adapter embeds: a single quote-upload endpoint,
/// `/verify`, mounted under `/sgx`.
pub fn rocket() -> (config: ServiceConfig)
    ensures
        config.mount_point@ == "/sgx"@,
        config.routes@.len() == 1,
        config.routes@[0]@ == "/verify"@,
{
    let mut routes: Vec<&'static str> = Vec::new();
    routes.push("/verify");
    ServiceConfig { mount_point: "/sgx", routes }
}

} // verus!
