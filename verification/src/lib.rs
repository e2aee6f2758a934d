//! A small library for a pod-debugging command-line front-end.
//!
//! The library holds the decision logic of the tool: decoding a pod
//! listing into plain records, fuzzy resolution of a name pattern to a
//! single pod, relative-age formatting, and construction of the argument
//! lists handed to the external cluster CLI.  Process invocation and
//! terminal output live outside the library.

pub mod age;
pub mod args;
pub mod decode;
pub mod record;
pub mod resolve;
pub mod text;
