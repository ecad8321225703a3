//! Presents a Tvheadend server as an HDHomeRun network tuner: the documents
//! the tuner answers with, and how backend channels become lineup entries.

pub mod config;
pub mod error;
pub mod hdhomerun;
pub mod service;
pub mod text;
pub mod tvheadend;
pub mod weburl;
