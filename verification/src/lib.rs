//! Host health-check notifier: inspects mount points for available
//! capacity and filesystem-scrub status, aggregates the findings into one
//! human-readable report, and reports per-step success back to the caller.

use vstd::prelude::*;

pub mod notice;
pub mod pcstatus;
pub mod text;

verus! {

/// Run-time configuration: the mount points to inspect, the low-space
/// alert threshold in percent, and the delivery endpoint.
#[derive(Debug)]
pub struct Config {
    /// Mount points whose capacity is inspected.
    pub mount_points: Vec<String>,
    /// Remaining-space alert threshold, in percent (0 to 100).
    pub remaining_space_alert: u32,
    /// Webhook endpoint the composed report is delivered to.
    pub slack_webhook_url: String,
}

} // verus!
