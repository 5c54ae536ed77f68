//! The decision logic of a small upload server: where an uploaded file is
//! stored, how one request's parts are worked through, what is answered, and
//! how the command line is read.
//!
//! Nothing here touches a socket or a file. The program around this library
//! performs each action that the upload machine asks for and reports back what
//! happened.

pub mod cli;
pub mod path;
pub mod response;
pub mod session;
pub mod upload;
