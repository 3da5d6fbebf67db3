//! Verified core of a video streaming backend: rendition planning, master
//! playlist synthesis, codec command construction, the processing run state
//! machine and the small rules around upload intake, storage layout and
//! reporting.

pub mod auth;
pub mod codec;
pub mod config;
pub mod handlers;
pub mod ids;
pub mod intake;
pub mod json;
pub mod metrics;
pub mod models;
pub mod notes;
pub mod pipeline;
pub mod planner;
pub mod playlist;
pub mod response;
pub mod run;
pub mod storage;
pub mod validation;
pub mod text;
