pub mod lexer;

pub use lexer::token::{BraceSide, BraceType, Identifier, Lexeme, LitKind, Literal, Separator, Token};
pub use lexer::{Config, Error, ErrorKind, Position, ScanState, TokenStream};
