//! The error taxonomy of the experiments library: one type that every
//! fallible operation returns, whichever collaborator failed.

pub mod error;
pub mod laws;

pub use error::{Error, RequestFailure, Result};
