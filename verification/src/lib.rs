//! Client-side logic for a brokerage's trading API: the bearer-token cache,
//! the plan of each authenticated call, account selection and the
//! normalisation of failures into one error type.
//!
//! The library performs no I/O. It decides; the program around it sends the
//! requests, reads the files and hands back what it got.

pub mod bitwarden;
pub mod clock;
pub mod config;
pub mod creds;
pub mod options;
pub mod public;
pub mod text;
