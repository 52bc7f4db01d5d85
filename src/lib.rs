//! Ingestion, normalization and personalized distribution of torrent
//! metadata, with the bookkeeping decisions of the upload, fetch and removal
//! workflows.
pub mod aggregate;
pub mod distribute;
pub mod encode;
pub mod error;
pub mod ledger;
pub mod manifest;
pub mod metainfo;
pub mod normalize;
pub mod passkey;
pub mod private_entry;
pub mod tags;
pub mod workflow;
