//! Listing the articles saved with a read-it-later service.
//!
//! The crate turns command-line flags into the request that asks the service
//! for a list of articles, and turns the service's reply into what the user is
//! shown. It performs no I/O of its own: a caller sends the request that
//! [`call::prepare`] hands out and gives the reply to [`call::complete`].
//!
//! - [`cli`]: the flags of the subcommand.
//! - [`options`]: the enumerated options and how flag values are read as them.
//! - [`query`]: the request and its wire form.
//! - [`transport`]: what is sent and what comes back.
//! - [`response`]: the reply and how it is read from a JSON document.
//! - [`output`]: what is shown of a reply in each format.
//! - [`call`]: the two steps of a call.
//! - [`json`]: the calls into `serde_json` and what is taken on trust of them.
//! - [`error`], [`text`]: the failures, and small operations on strings.

pub mod call;
pub mod cli;
pub mod error;
pub mod json;
pub mod options;
pub mod output;
pub mod query;
pub mod response;
pub mod text;
pub mod transport;
