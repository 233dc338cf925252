//! The tools that turn Tortuga source text into tokens, syntax trees and WebAssembly.

pub mod blank;
pub mod emitter;
pub mod errors;
pub mod input;
pub mod lexer;
pub mod lexeme;
pub mod location;
pub mod number;
pub mod parser;
pub mod reporter;
pub mod scanner;
pub mod text;
pub mod token;
pub mod transformer;
pub mod unicode;
pub mod validator;
pub mod xid;
