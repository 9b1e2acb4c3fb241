//! Session bootstrap and authenticated posting for a Mastodon-compatible
//! instance.
//!
//! The crate decides; its caller acts. [`flow::Flow`] is the state of one run:
//! it names the next thing to do as an [`flow::Action`] (read the state file,
//! ask the user, send a request, write the state file) and moves on when it is
//! handed the outcome as an [`flow::Event`]. Everything the run sends or stores
//! is computed here: the state file's text, the three endpoint addresses, the
//! form-encoded request bodies, and the reading of the server's replies.
//!
//! A run is not safe against a second run on the same state file at the same
//! time.
pub mod error;
pub mod visibility;
pub mod instance;
pub mod session;
pub mod json;
pub mod store;
pub mod form;
pub mod request;
pub mod response;
pub mod flow;
pub mod run;
pub mod client;
