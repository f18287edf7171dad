//! Ingestion and normalisation of score tables read from a local delimited
//! file or from a remote spreadsheet range, plus the refresh policy that
//! decides when a source is read again.
pub mod text;
pub mod table;
pub mod normalize;
pub mod local;
pub mod cloud;
pub mod poller;
