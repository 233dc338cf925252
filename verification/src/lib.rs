//! Tortuga: a small language whose programs are scanned, parsed and emitted
//! as WebAssembly modules, together with the pieces of a CGI web server.

pub mod actor;
pub mod board;
pub mod client;
pub mod compile;
pub mod compiler;
pub mod context;
pub mod grammar;
pub mod strings;
pub mod uri;
pub mod variable;
pub mod web_assembly;

pub use actor::{Actor, Address};
pub use board::{SlotIndex, SwitchBoard};
pub use compiler::errors::{CompilerError, ErrorKind, LexicalError, ParseNumberError, SyntacticalError};
pub use compiler::input::Input;
pub use compiler::lexeme::Lexeme;
pub use compiler::location::Location;
pub use compiler::number::Number;
pub use compiler::scanner::Scanner;
pub use compiler::token::{Kind, OwnedToken, Token};
pub use compiler::unicode::UnicodeProperties;
