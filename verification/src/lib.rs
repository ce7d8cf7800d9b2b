//! The core of a universal compute exchange.
//!
//! Jobs are read from requests and handed to providers: containers on this machine
//! ([`oci_runner`]), RunPod's serverless endpoints ([`runpod_serverless`]) and rented
//! pods ([`runpod_pod`]). Finished jobs leave receipts ([`receipt`]), whose GPU work is
//! anchored and reported for minting ([`mint_allowlist`]). Machines of one's own are
//! offered on a marketplace ([`marketplace`]), behind capability tokens
//! ([`capability_token`]). [`server`] says how requests to the exchange are answered.
//!
//! Nothing here sends or waits: requests to other services are values, and so is what
//! became of them ([`http`]).

pub mod capability_token;
pub mod clock;
pub mod digest;
pub mod float64;
pub mod float_order;
pub mod http;
pub mod job;
pub mod json;
pub mod laws;
pub mod marketplace;
pub mod mint_allowlist;
pub mod oci_runner;
pub mod provider;
pub mod receipt;
pub mod runpod_pod;
pub mod runpod_serverless;
pub mod server;
pub mod text;
