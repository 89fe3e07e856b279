use vstd::prelude::*;
use vstd::string::StrSliceExecFns;
use vstd::std_specs::iter::IteratorSpec;
use vstd::string::StringExecFns;

use crate::code_source_location::CodeSourceLocation;
use crate::token::Token;
use crate::token_type::{
    RawToken,
    TokenType,
    classifiable,
    classify_type,
    is_keyword_type,
    keyword_type,
    normalized_lexeme,
};

verus! {

broadcast use vstd::string::group_string_axioms;

/// One match of the pattern scanner: its raw class and the characters
/// `start..end` of the input that it covers.
#[derive(Debug, Clone, Copy, PartialEq, Eq, Structural)]
pub struct ScannedToken {
    pub kind: RawToken,
    pub start: usize,
    pub end: usize,
}

/// The line of the character at offset `i`: one more than the number of
/// newlines before it.
pub open spec fn line_of(s: Seq<char>, i: int) -> nat
    decreases i,
{
    if i <= 0 {
        1
    } else {
        line_of(s, i - 1) + if s[i - 1] == '\n' {
            1nat
        } else {
            0nat
        }
    }
}

/// The column of the character at offset `i`: the number of characters
/// between the last newline before it and it.
pub open spec fn column_of(s: Seq<char>, i: int) -> nat
    decreases i,
{
    if i <= 0 {
        0
    } else if s[i - 1] == '\n' {
        0
    } else {
        column_of(s, i - 1) + 1
    }
}

/// The text that a match covers.
pub open spec fn matched_text(input: Seq<char>, st: ScannedToken) -> Seq<char> {
    input.subrange(st.start as int, st.end as int)
}

/// What the pattern scanner hands over: spans inside the input, in order and
/// without overlap, each of which can be classified.
pub open spec fn well_scanned(input: Seq<char>, scanned: Seq<ScannedToken>) -> bool {
    &&& forall|k: int|
        0 <= k < scanned.len() ==> {
            &&& (#[trigger] scanned[k]).start <= scanned[k].end
            &&& scanned[k].end <= input.len()
            &&& classifiable(scanned[k].kind, matched_text(input, scanned[k]))
        }
    &&& forall|k: int| 0 <= k < scanned.len() - 1 ==> #[trigger] scanned[k].end <= scanned[k + 1].start
}

/// The token that a match becomes.
pub open spec fn is_token_of(file: Seq<char>, input: Seq<char>, st: ScannedToken, t: Token) -> bool {
    &&& t.token_type == classify_type(st.kind, matched_text(input, st))
    &&& t.value@ == normalized_lexeme(st.kind, matched_text(input, st))
    &&& t.source_location.file_name@ == file
    &&& t.source_location.line == line_of(input, st.start as int)
    &&& t.source_location.column == column_of(input, st.start as int)
}

/// The line of the end-of-input token: that of the position just after the
/// last match, or 0 where there is no match.
pub open spec fn end_line(input: Seq<char>, scanned: Seq<ScannedToken>) -> nat {
    if scanned.len() == 0 {
        0
    } else {
        line_of(input, scanned.last().end as int)
    }
}

/// The column of the end-of-input token: that of the position just after the
/// last match, or 0 where there is no match.
pub open spec fn end_column(input: Seq<char>, scanned: Seq<ScannedToken>) -> nat {
    if scanned.len() == 0 {
        0
    } else {
        column_of(input, scanned.last().end as int)
    }
}

/// The end-of-input token that closes every token sequence.
pub open spec fn is_end_token(
    file: Seq<char>,
    input: Seq<char>,
    scanned: Seq<ScannedToken>,
    t: Token,
) -> bool {
    &&& t.token_type == TokenType::Eoft
    &&& t.value@.len() == 0
    &&& t.source_location.file_name@ == file
    &&& t.source_location.line == end_line(input, scanned)
    &&& t.source_location.column == end_column(input, scanned)
}

/// The token sequence of a scan: one token per match, in order, then the
/// end-of-input token.
pub open spec fn is_tokenization(
    file: Seq<char>,
    input: Seq<char>,
    scanned: Seq<ScannedToken>,
    tokens: Seq<Token>,
) -> bool {
    &&& tokens.len() == scanned.len() + 1
    &&& forall|k: int|
        0 <= k < scanned.len() ==> is_token_of(file, input, #[trigger] scanned[k], tokens[k])
    &&& is_end_token(file, input, scanned, tokens[scanned.len() as int])
}

/// The characters of a string, in order.
fn chars_of(s: &str) -> (r: Vec<char>)
    ensures
        r@ == s@,
{
    let mut v: Vec<char> = Vec::new();
    let mut it = s.chars();
    loop
        invariant
            v@ + it.remaining() == s@,
            it.decrease() is Some,
        decreases it.decrease()->0,
    {
        match it.next() {
            Some(c) => {
                v.push(c);
            },
            None => {
                return v;
            },
        }
    }
}

/// Moves a line and column count from offset `from` to offset `to`.
fn advance(chars: &Vec<char>, from: usize, line: usize, column: usize, to: usize) -> (r: (
    usize,
    usize,
))
    requires
        from <= to <= chars@.len(),
        chars@.len() < usize::MAX,
        line == line_of(chars@, from as int),
        column == column_of(chars@, from as int),
        line <= from + 1,
        column <= from,
    ensures
        r.0 == line_of(chars@, to as int),
        r.1 == column_of(chars@, to as int),
        r.0 <= to + 1,
        r.1 <= to,
{
    let mut pos = from;
    let mut ln = line;
    let mut col = column;
    while pos < to
        invariant
            from <= pos <= to <= chars@.len(),
            chars@.len() < usize::MAX,
            ln == line_of(chars@, pos as int),
            col == column_of(chars@, pos as int),
            ln <= pos + 1,
            col <= pos,
        decreases to - pos,
    {
        if chars[pos] == '\n' {
            ln = ln + 1;
            col = 0;
        } else {
            col = col + 1;
        }
        pos = pos + 1;
    }
    (ln, col)
}

/// Turns the matches of the pattern scanner over one input into tokens.
pub struct Tokenizer<'a> {
    input: &'a str,
    file_name: &'a str,
    line: usize,
    column: usize,
}

impl<'a> Tokenizer<'a> {
    /// The text being tokenized.
    pub closed spec fn source(&self) -> Seq<char> {
        self.input@
    }

    /// The name of the file the text comes from.
    pub closed spec fn file(&self) -> Seq<char> {
        self.file_name@
    }

    /// The position of the end-of-input token of the last run: its line.
    pub closed spec fn end_line(&self) -> nat {
        self.line as nat
    }

    /// The position of the end-of-input token of the last run: its column.
    pub closed spec fn end_column(&self) -> nat {
        self.column as nat
    }

    pub fn new(file_name: &'a str, input: &'a str) -> (r: Tokenizer<'a>)
        ensures
            r.source() == input@,
            r.file() == file_name@,
            r.end_line() == 0,
            r.end_column() == 0,
    {
        Tokenizer { input, file_name, line: 0, column: 0 }
    }

    /// Classifies and locates each match, in order, and closes the sequence
    /// with the end-of-input token.
    pub fn tokenize(&mut self, scanned: &Vec<ScannedToken>) -> (r: Vec<Token>)
        requires
            well_scanned(old(self).source(), scanned@),
            old(self).source().len() < usize::MAX,
        ensures
            is_tokenization(old(self).file(), old(self).source(), scanned@, r@),
            final(self).source() == old(self).source(),
            final(self).file() == old(self).file(),
            final(self).end_line() == end_line(old(self).source(), scanned@),
            final(self).end_column() == end_column(old(self).source(), scanned@),
    {
        let chars = chars_of(self.input);
        let ghost input = self.input@;
        let ghost file = self.file_name@;
        let mut tokens: Vec<Token> = Vec::new();
        let mut pos: usize = 0;
        let mut line: usize = 1;
        let mut column: usize = 0;
        let mut k: usize = 0;
        while k < scanned.len()
            invariant
                chars@ == input,
                input == self.input@,
                file == self.file_name@,
                input.len() < usize::MAX,
                well_scanned(input, scanned@),
                k <= scanned@.len(),
                tokens@.len() == k,
                k == 0 ==> pos == 0,
                k > 0 ==> pos == scanned@[k - 1].start,
                pos <= input.len(),
                line == line_of(input, pos as int),
                column == column_of(input, pos as int),
                line <= pos + 1,
                column <= pos,
                forall|j: int|
                    0 <= j < k ==> is_token_of(file, input, #[trigger] scanned@[j], tokens@[j]),
            decreases scanned@.len() - k,
        {
            let st = scanned[k];
            assert(k > 0 ==> scanned@[k - 1].end <= scanned@[k as int].start);
            let (ln, col) = advance(&chars, pos, line, column, st.start);
            pos = st.start;
            line = ln;
            column = col;
            let text = String::from_str(self.input.substring_char(st.start, st.end));
            let (token_type, value) = TokenType::map_raw_token_type(st.kind, text);
            let location = CodeSourceLocation::new(String::from_str(self.file_name), line, column);
            tokens.push(Token::new(token_type, value, location));
            k = k + 1;
        }
        let mut end_ln: usize = 0;
        let mut end_col: usize = 0;
        if scanned.len() > 0 {
            let last = scanned[scanned.len() - 1];
            let (ln, col) = advance(&chars, pos, line, column, last.end);
            end_ln = ln;
            end_col = col;
        }
        self.line = end_ln;
        self.column = end_col;
        let location = CodeSourceLocation::new(String::from_str(self.file_name), end_ln, end_col);
        tokens.push(Token::new_with_empty_value(TokenType::Eoft, location));
        tokens
    }
}

/// Whether the matches of the pattern scanner over `input` can be tokenized:
/// they lie inside the input, in order and without overlap, each quoted
/// literal holds both its quotes, and the input's length fits the counters.
pub fn check_scan(input: &str, scanned: &Vec<ScannedToken>) -> (r: bool)
    ensures
        r == (well_scanned(input@, scanned@) && input@.len() < usize::MAX),
{
    let n = input.unicode_len();
    if n == usize::MAX {
        return false;
    }
    let mut k: usize = 0;
    while k < scanned.len()
        invariant
            n == input@.len(),
            k <= scanned@.len(),
            forall|j: int|
                0 <= j < k ==> {
                    &&& (#[trigger] scanned@[j]).start <= scanned@[j].end
                    &&& scanned@[j].end <= n
                    &&& classifiable(scanned@[j].kind, matched_text(input@, scanned@[j]))
                },
            forall|j: int| 0 <= j < k && j < scanned@.len() - 1 ==> #[trigger] scanned@[j].end <= scanned@[j + 1].start,
        decreases scanned@.len() - k,
    {
        let st = scanned[k];
        if st.start > st.end || st.end > n {
            return false;
        }
        let quoted = match st.kind {
            RawToken::STRING | RawToken::CHAR => true,
            _ => false,
        };
        if quoted && st.end - st.start < 2 {
            assert(!classifiable(st.kind, matched_text(input@, st)));
            return false;
        }
        if k + 1 < scanned.len() && st.end > scanned[k + 1].start {
            return false;
        }
        assert(matched_text(input@, st).len() == st.end - st.start);
        k = k + 1;
    }
    true
}

/// Nothing that the pattern scanner matches is classified as the end of
/// input.
pub proof fn lemma_classify_not_end(raw: RawToken, text: Seq<char>)
    ensures
        classify_type(raw, text) != TokenType::Eoft,
{
}

/// Every token sequence ends with the end-of-input token, whose lexeme is
/// empty, and no other token of it has that kind.
pub proof fn lemma_end_token_last_and_unique(
    file: Seq<char>,
    input: Seq<char>,
    scanned: Seq<ScannedToken>,
    tokens: Seq<Token>,
)
    requires
        is_tokenization(file, input, scanned, tokens),
    ensures
        tokens.last().token_type == TokenType::Eoft,
        tokens.last().value@.len() == 0,
        forall|k: int| 0 <= k < tokens.len() - 1 ==> #[trigger] tokens[k].token_type != TokenType::Eoft,
{
    assert forall|k: int| 0 <= k < tokens.len() - 1 implies #[trigger] tokens[k].token_type
        != TokenType::Eoft by {
        assert(is_token_of(file, input, scanned[k], tokens[k]));
        lemma_classify_not_end(scanned[k].kind, matched_text(input, scanned[k]));
    }
}

/// A word of the keyword table, matched alone as an ASCII identifier, gives
/// exactly one token before the end of input, of that keyword's kind; any
/// other word gives an `Identifier` token.
pub proof fn lemma_keyword_alone(file: Seq<char>, word: Seq<char>, tokens: Seq<Token>)
    requires
        word.len() <= usize::MAX,
        is_tokenization(
            file,
            word,
            seq![(ScannedToken { kind: RawToken::IdentifierAscii, start: 0, end: word.len() as usize })],
            tokens,
        ),
    ensures
        tokens.len() == 2,
        tokens[0].token_type == keyword_type(word),
        tokens[0].value@ == word,
        tokens[1].token_type == TokenType::Eoft,
        is_keyword_type(tokens[0].token_type) <==> (word == "main"@ || word == "var"@ || word
            == "if"@ || word == "while"@ || word == "else"@ || word == "for"@ || word == "break"@
            || word == "fun"@ || word == "return"@),
        !is_keyword_type(tokens[0].token_type) ==> tokens[0].token_type == TokenType::Identifier,
{
    let st = ScannedToken { kind: RawToken::IdentifierAscii, start: 0, end: word.len() as usize };
    let scanned = seq![st];
    assert(scanned[0] == st);
    assert(is_token_of(file, word, scanned[0], tokens[0]));
    assert(matched_text(word, st) == word);
}

} // verus!
