//! Core logic of a thin command-line client for the blackd code-formatting
//! HTTP service.
//!
//! The client forwards source text to the service and relays the answer back
//! to the caller.  The decision logic lives here and is verified:
//!
//! - merging formatting options from a project configuration file and from
//!   command-line flags, with command-line values taking precedence
//!   ([`options`]);
//! - constructing the outgoing request, headers included ([`request`]);
//! - classifying the service's HTTP status code and body into one of a fixed
//!   set of outcomes ([`outcome`]).
//!
//! Reading stdin, locating and parsing the configuration file, parsing the
//! command line and performing the HTTP call are plain I/O plumbing: they
//! live outside this crate and hand these modules already-read values.

pub mod args;
pub mod config;
pub mod options;
pub mod outcome;
pub mod request;
pub mod text;
