//! A data-driven engine for storing one image on any of several
//! third-party hosting services through a single operation set:
//! upload, list, delete and verify.  Each service is described by a
//! declarative descriptor (endpoints, auth placement, request
//! encoding and response paths); one executor drives them all, and a
//! bounded session-refresh engine covers the hosts whose credential
//! is a scraped, expiring session.  Requests are built and responses
//! are read as plain data, so that every rule in between is verified;
//! a transport of the caller's choosing carries the bytes.

pub mod api;
pub mod chevereto;
pub mod config;
pub mod descriptor;
pub mod error;
pub mod git;
pub mod http;
pub mod json;
pub mod manager;
pub mod smms;
pub mod util;
