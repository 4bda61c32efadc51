//! Automated semantic commit messages for a local git repository.
//!
//! The library computes a unified diff between the repository's index and
//! its working tree, builds a request for a remote text-generation service,
//! extracts the generated message from the service's reply, and writes a
//! new commit carrying that message.  The network round trip itself is left
//! to the surrounding program; everything that decides or formats is here.

pub mod commit;
pub mod diff;
pub mod errors;
pub mod git;
pub mod pipeline;
pub mod request;
pub mod response;
