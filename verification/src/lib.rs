//! Inventory of the virtual networks of a cloud account, region by region:
//! who created each one, and when.
//!
//! The crate holds the decisions of the pipeline as state machines and pure
//! functions. Whoever drives them performs the remote calls and the waiting,
//! and hands every outcome back.

pub mod aggregate;
pub mod aws;
pub mod errors;
pub mod events_stream;
pub mod paged;
pub mod region;
pub mod report;
pub mod resolver;
pub mod text;
pub mod throttle;
pub mod trace;
pub mod vpc_info;
pub mod vpc_stream;
pub mod worker;
