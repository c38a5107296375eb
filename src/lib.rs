//! Network diagnostics core: the interface-selection session, the probe
//! decision logic and the aggregation of probe results into one snapshot.

pub mod internal_comms;
pub mod session;
pub mod fetch_dns;
pub mod fetch_local;
pub mod panels;
