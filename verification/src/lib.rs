//! Verified client logic for managing team topics on GitHub repositories.
//!
//! The library builds the GraphQL requests (the search for repositories
//! carrying a topic, and the mutation that replaces a repository's topic set
//! with a new one), decodes the fixed response shapes, and drives one
//! invocation of the tool as a state machine.  All network traffic is left
//! to the caller: the library hands out fully-formed requests and consumes
//! the replies.
//!
//! - [`protocol`] holds the two fixed operations, the framing of request
//!   bodies, and the decoding of the two response shapes.
//! - [`json`] models a decoded JSON document as a tree of plain values;
//!   [`parse`] turns response text into that tree.
//! - [`run`] sequences one invocation: the search first, then — for an
//!   update — one mutation per matched repository, in the order the search
//!   returned them, aborting on the first failure.
//! - [`error`] is the error taxonomy; [`escape`] the JSON string escaping
//!   that the framing uses.

pub mod error;
pub mod escape;
pub mod json;
pub mod parse;
pub mod protocol;
pub mod run;
