//! Tokens of a small expression language, and a cursor that narrows a shared
//! token buffer without copying it.

pub mod cursor;
pub mod input;
pub mod laws;
pub mod token;

pub use cursor::Tokens;
pub use input::ParseInput;
pub use token::Token;
