//! The lexical tokens of the attachment-based compiler front end.

pub mod errors;
pub mod location;
pub mod token;
