pub mod code_source_location;
pub mod render;
pub mod token;
pub mod token_buffer;
pub mod token_list;
pub mod token_type;
pub mod tokenizer;

pub use code_source_location::CodeSourceLocation;
pub use token::Token;
pub use token_buffer::{TokenDynamicArray, tokenize_w};
pub use token_list::TokenList;
pub use token_type::{RawToken, TokenType};
pub use tokenizer::{ScannedToken, Tokenizer, check_scan};
