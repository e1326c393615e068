//! Settings handed to the engine at start-up.

use vstd::prelude::*;

verus! {

/// Immutable configuration of one running instance.
#[derive(Debug, PartialEq, Eq)]
pub struct AppConfig {
    /// Number of distinct approvers at which a proposal is executed.
    pub required_approvals: usize,
    /// Prefix that text-command front ends listen for; unused by the engine.
    pub command_prefix: String,
    /// Age in seconds beyond which a pending proposal is swept.
    pub expiry_seconds: u64,
}

impl AppConfig {
    /// Bundles the three settings.
    pub fn new(required_approvals: usize, command_prefix: String, expiry_seconds: u64) -> (config:
        AppConfig)
        ensures
            config.required_approvals == required_approvals,
            config.command_prefix == command_prefix,
            config.expiry_seconds == expiry_seconds,
    {
        AppConfig { required_approvals, command_prefix, expiry_seconds }
    }
}

impl Clone for AppConfig {
    fn clone(&self) -> (copy: AppConfig)
        ensures
            copy == *self,
    {
        AppConfig {
            required_approvals: self.required_approvals,
            command_prefix: self.command_prefix.clone(),
            expiry_seconds: self.expiry_seconds,
        }
    }
}

} // verus!
