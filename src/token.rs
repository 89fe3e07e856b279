use vstd::prelude::*;
use vstd::string::StringExecFns;
use vstd::utf8::encode_utf8;

use crate::code_source_location::CodeSourceLocation;
use crate::token_type::{TokenType, compact_name, kind_name};

verus! {

/// One classified token: its kind, its lexeme and where it starts.
#[derive(Debug, Clone)]
pub struct Token {
    pub token_type: TokenType,
    pub value: String,
    pub source_location: CodeSourceLocation,
}

impl Token {
    pub fn new(token_type: TokenType, value: String, source_location: CodeSourceLocation) -> (r:
        Token)
        ensures
            r.token_type == token_type,
            r.value@ == value@,
            r.source_location.file_name@ == source_location.file_name@,
            r.source_location.line == source_location.line,
            r.source_location.column == source_location.column,
    {
        Token { token_type, value, source_location }
    }

    pub fn new_with_empty_value(token_type: TokenType, source_location: CodeSourceLocation) -> (r:
        Token)
        ensures
            r.token_type == token_type,
            r.value@ == Seq::<char>::empty(),
            r.source_location.file_name@ == source_location.file_name@,
            r.source_location.line == source_location.line,
            r.source_location.column == source_location.column,
    {
        Token { token_type, value: String::new(), source_location }
    }

    pub fn is_type(&self, token_type: &TokenType) -> (r: bool)
        ensures
            r == (self.token_type == *token_type),
    {
        self.token_type == *token_type
    }

    pub fn is_type_any_of(&self, token_types: &[TokenType]) -> (r: bool)
        ensures
            r == token_types@.contains(self.token_type),
    {
        let mut i: usize = 0;
        while i < token_types.len()
            invariant
                i <= token_types@.len(),
                forall|j: int| 0 <= j < i ==> token_types@[j] != self.token_type,
            decreases token_types@.len() - i,
        {
            if token_types[i] == self.token_type {
                return true;
            }
            i = i + 1;
        }
        false
    }

    /// The number of bytes of the lexeme in UTF-8.
    pub fn value_size(&self) -> (r: usize)
        ensures
            r == encode_utf8(self.value@).len() as usize,
    {
        self.value.as_str().len()
    }

    /// The short form: `(typ: <kind>, val: '<lexeme>', sl: <location>)`,
    /// without the `val` part for an empty lexeme.
    pub open spec fn compact_text(&self) -> Seq<char> {
        if self.value@.len() == 0 {
            "(typ: "@ + compact_name(self.token_type) + ", sl: "@
                + self.source_location.compact_text() + ")"@
        } else {
            "(typ: "@ + compact_name(self.token_type) + ", val: '"@ + self.value@ + "', sl: "@
                + self.source_location.compact_text() + ")"@
        }
    }

    /// The long form: `Token(type: <kind>, value: '<lexeme>', sourceLocation:
    /// <location>)`, without the `value` part for an empty lexeme.
    pub open spec fn display_text(&self) -> Seq<char> {
        if self.value@.len() == 0 {
            "Token(type: "@ + kind_name(self.token_type) + ", sourceLocation: "@
                + self.source_location.display_text() + ")"@
        } else {
            "Token(type: "@ + kind_name(self.token_type) + ", value: '"@ + self.value@
                + "', sourceLocation: "@ + self.source_location.display_text() + ")"@
        }
    }

    pub fn to_compact_string(&self) -> (r: String)
        ensures
            r@ == self.compact_text(),
    {
        let location = self.source_location.to_compact_string();
        let kind = self.token_type.compact_to_string();
        if self.value.as_str().is_empty() {
            String::from_str("(typ: ").concat(kind).concat(", sl: ").concat(location.as_str()).concat(
                ")",
            )
        } else {
            String::from_str("(typ: ").concat(kind).concat(", val: '").concat(
                self.value.as_str(),
            ).concat("', sl: ").concat(location.as_str()).concat(")")
        }
    }

    pub fn to_display_string(&self) -> (r: String)
        ensures
            r@ == self.display_text(),
    {
        let location = self.source_location.to_display_string();
        let kind = self.token_type.name();
        if self.value.as_str().is_empty() {
            String::from_str("Token(type: ").concat(kind).concat(", sourceLocation: ").concat(
                location.as_str(),
            ).concat(")")
        } else {
            String::from_str("Token(type: ").concat(kind).concat(", value: '").concat(
                self.value.as_str(),
            ).concat("', sourceLocation: ").concat(location.as_str()).concat(")")
        }
    }
}

} // verus!
