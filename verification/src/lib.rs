//! Verified decision, geometry, naming and policy logic for repairing audio gaps between two
//! copies of the same programme, and for describing each gap in a numeric fingerprint corpus.

pub mod contract;
pub mod corpus;
pub mod fit_routing;
pub mod gap_equivalence;
pub mod gap_listen;
pub mod lag_sweep;
pub mod mux_bitrate;
pub mod schema;
pub mod source_id;
pub mod text;
