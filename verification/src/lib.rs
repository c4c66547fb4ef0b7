//! Core domain types of the Linexus ecosystem: node identities and their
//! lifecycle, the Demiurge ledger, demand routing, the permission funnel and
//! KPI-driven maintenance jobs.

pub mod identity;

pub mod errors;
pub mod funnel;
pub mod engine;
pub mod demiurge;
pub mod jobs;
