use vstd::prelude::*;

use crate::token::Token;

verus! {

/// The tokens of one file, under that file's name.
#[derive(Debug, Clone)]
pub struct TokenList {
    pub file_name: String,
    pub tokens: Vec<Token>,
}

impl TokenList {
    pub fn new(file_name: String) -> (r: TokenList)
        ensures
            r.file_name@ == file_name@,
            r.tokens@.len() == 0,
    {
        TokenList { file_name, tokens: Vec::new() }
    }
}

} // verus!
