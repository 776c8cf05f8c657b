//! Refresh periods, timeouts and validators, as the service is configured.
use vstd::prelude::*;

verus! {

/// How long each refresh may take, in milliseconds.
#[derive(Clone, Copy, Debug)]
pub struct Timeouts {
    pub cache_fetch_campaigns_from_market: u64,
    pub cache_update_campaign_statuses: u64,
}

/// The service's settings; periods are in milliseconds.
#[derive(Clone, Debug)]
pub struct Config {
    pub validators: Vec<String>,
    pub fetch_campaigns_every: u64,
    pub update_campaigns_every: u64,
    pub timeouts: Timeouts,
}

} // verus!
