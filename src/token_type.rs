use vstd::prelude::*;
use vstd::string::StrSliceExecFns;
use vstd::string::StringExecFns;

verus! {

/// The lexical classes that the pattern scanner recognises, before any
/// semantic classification.
#[derive(Debug, Clone, Copy, PartialEq, Eq, Structural)]
pub enum RawToken {
    IdentifierAscii,
    IdentifierUnicode,
    Number,
    Binary,
    Hexadecimal,
    Octal,
    Whitespace,
    SingleLineComment,
    MultiLineComment,
    Plus,
    Minus,
    Star,
    Slash,
    LESS,
    GREATER,
    NOT,
    XOR,
    PERCENT,
    OR,
    AND,
    Equal,
    Colon,
    Comma,
    PlusPlus,
    MinusMinus,
    PlusEqual,
    MinusEqual,
    LessEqual,
    Greaterequal,
    NotEqual,
    XorEqual,
    PercentEqual,
    OrOr,
    AndAnd,
    OpenParentesis,
    CloseParentesis,
    OpenSQParentesis,
    CloseSQParentesis,
    OpenCurParentesis,
    CloseCurParentesis,
    BOOLEAN,
    STRING,
    CHAR,
    Dot,
    TYPEI8,
    TYPEI16,
    TYPEI32,
    TYPEI64,
    TYPEU8,
    TYPEU16,
    TYPEU32,
    TYPEU64,
    TYPEF32,
    TYPEF64,
    TYPEC32,
    TYPEC64,
    TYPECHAR,
    TYPESTRING,
    TYPEBOOL,
}

/// The token kinds that the parser consumes.
#[derive(Debug, Clone, Copy, PartialEq, Eq, Hash, Structural)]
pub enum TokenType {
    Integer,
    Double,
    Boolean,
    Plus,
    Minus,
    Not,
    Star,
    Divide,
    Xor,
    Percent,
    Or,
    And,
    Equal,
    Less,
    Greater,
    PlusPlus,
    MinusMinus,
    PlusEqual,
    MinusEqual,
    NotEqual,
    StarEqual,
    DivideEqual,
    XorEqual,
    PercentEqual,
    OrOr,
    AndAnd,
    EqualEqual,
    LessEqual,
    GreaterEqual,
    Dot,
    Identifier,
    Char,
    String,
    KMain,
    KVar,
    KIf,
    KWhile,
    KElse,
    KFor,
    KBreak,
    KFun,
    KReturn,
    KNullptr,
    OpenParenthesis,
    OpenSqParenthesis,
    OpenCurParenthesis,
    CloseParenthesis,
    CloseSqParenthesis,
    CloseCurParenthesis,
    Comma,
    Colon,
    TypeI8,
    TypeI16,
    TypeI32,
    TypeI64,
    TypeU8,
    TypeU16,
    TypeU32,
    TypeU64,
    TypeF32,
    TypeF64,
    TypeC32,
    TypeC64,
    TypeChar,
    TypeString,
    TypeBool,
    Comment,
    Unknown,
    Eoft,
}

/// The keyword kinds: one for each entry of the keyword table.
pub open spec fn is_keyword_type(t: TokenType) -> bool {
    match t {
        TokenType::KMain | TokenType::KVar | TokenType::KIf | TokenType::KWhile
        | TokenType::KElse | TokenType::KFor | TokenType::KBreak | TokenType::KFun
        | TokenType::KReturn => true,
        _ => false,
    }
}

/// The keyword table: the keyword kind of a word, or `Identifier` for any
/// other text.
pub open spec fn keyword_type(s: Seq<char>) -> TokenType {
    if s == "main"@ {
        TokenType::KMain
    } else if s == "var"@ {
        TokenType::KVar
    } else if s == "if"@ {
        TokenType::KIf
    } else if s == "while"@ {
        TokenType::KWhile
    } else if s == "else"@ {
        TokenType::KElse
    } else if s == "for"@ {
        TokenType::KFor
    } else if s == "break"@ {
        TokenType::KBreak
    } else if s == "fun"@ {
        TokenType::KFun
    } else if s == "return"@ {
        TokenType::KReturn
    } else {
        TokenType::Identifier
    }
}

/// The token kind of each raw class whose kind does not depend on the text.
pub open spec fn fixed_type(raw: RawToken) -> TokenType {
    match raw {
            RawToken::Binary => TokenType::Integer,
            RawToken::Hexadecimal => TokenType::Integer,
            RawToken::Octal => TokenType::Integer,
            RawToken::Whitespace => TokenType::Unknown,
            RawToken::SingleLineComment => TokenType::Comment,
            RawToken::MultiLineComment => TokenType::Comment,
            RawToken::Plus => TokenType::Plus,
            RawToken::Minus => TokenType::Minus,
            RawToken::Star => TokenType::Star,
            RawToken::Slash => TokenType::Divide,
            RawToken::LESS => TokenType::Less,
            RawToken::GREATER => TokenType::Greater,
            RawToken::NOT => TokenType::Not,
            RawToken::XOR => TokenType::Xor,
            RawToken::PERCENT => TokenType::Percent,
            RawToken::OR => TokenType::Or,
            RawToken::AND => TokenType::And,
            RawToken::Equal => TokenType::Equal,
            RawToken::Colon => TokenType::Colon,
            RawToken::Comma => TokenType::Comma,
            RawToken::PlusPlus => TokenType::PlusPlus,
            RawToken::MinusMinus => TokenType::MinusMinus,
            RawToken::PlusEqual => TokenType::PlusEqual,
            RawToken::MinusEqual => TokenType::MinusEqual,
            RawToken::LessEqual => TokenType::LessEqual,
            RawToken::Greaterequal => TokenType::GreaterEqual,
            RawToken::NotEqual => TokenType::NotEqual,
            RawToken::XorEqual => TokenType::XorEqual,
            RawToken::PercentEqual => TokenType::PercentEqual,
            RawToken::OrOr => TokenType::OrOr,
            RawToken::AndAnd => TokenType::AndAnd,
            RawToken::OpenParentesis => TokenType::OpenParenthesis,
            RawToken::CloseParentesis => TokenType::CloseParenthesis,
            RawToken::OpenSQParentesis => TokenType::OpenSqParenthesis,
            RawToken::CloseSQParentesis => TokenType::CloseSqParenthesis,
            RawToken::OpenCurParentesis => TokenType::OpenCurParenthesis,
            RawToken::CloseCurParentesis => TokenType::CloseCurParenthesis,
            RawToken::BOOLEAN => TokenType::Boolean,
            RawToken::STRING => TokenType::String,
            RawToken::CHAR => TokenType::Char,
            RawToken::Dot => TokenType::Dot,
            RawToken::TYPEI8 => TokenType::TypeI8,
            RawToken::TYPEI16 => TokenType::TypeI16,
            RawToken::TYPEI32 => TokenType::TypeI32,
            RawToken::TYPEI64 => TokenType::TypeI64,
            RawToken::TYPEU8 => TokenType::TypeU8,
            RawToken::TYPEU16 => TokenType::TypeU16,
            RawToken::TYPEU32 => TokenType::TypeU32,
            RawToken::TYPEU64 => TokenType::TypeU64,
            RawToken::TYPEF32 => TokenType::TypeF32,
            RawToken::TYPEF64 => TokenType::TypeF64,
            RawToken::TYPEC32 => TokenType::TypeC32,
            RawToken::TYPEC64 => TokenType::TypeC64,
            RawToken::TYPECHAR => TokenType::TypeChar,
            RawToken::TYPESTRING => TokenType::TypeString,
            RawToken::TYPEBOOL => TokenType::TypeBool,
            _ => TokenType::Unknown,
    }
}

/// Raw classes whose lexeme loses its enclosing quote characters.
pub open spec fn is_quoted(raw: RawToken) -> bool {
    raw is STRING || raw is CHAR
}

/// The token kind of a raw match: keyword resolution for ASCII identifiers,
/// the dot rule for numbers, the fixed mapping otherwise.
pub open spec fn classify_type(raw: RawToken, text: Seq<char>) -> TokenType {
    match raw {
        RawToken::IdentifierAscii => keyword_type(text),
        RawToken::IdentifierUnicode => TokenType::Identifier,
        RawToken::Number => if text.contains('.') {
            TokenType::Double
        } else {
            TokenType::Integer
        },
        _ => fixed_type(raw),
    }
}

/// The text without its first and last character.
pub open spec fn strip_ends(text: Seq<char>) -> Seq<char> {
    text.subrange(1, text.len() - 1)
}

/// The lexeme kept for a raw match: quotes stripped from string and character
/// literals, the text unchanged otherwise.
pub open spec fn normalized_lexeme(raw: RawToken, text: Seq<char>) -> Seq<char> {
    if is_quoted(raw) {
        strip_ends(text)
    } else {
        text
    }
}

/// A raw match that can be classified: quoted literals hold both quotes.
pub open spec fn classifiable(raw: RawToken, text: Seq<char>) -> bool {
    is_quoted(raw) ==> text.len() >= 2
}

/// The short upper-case name of each token kind.
pub open spec fn compact_name(t: TokenType) -> Seq<char> {
    match t {
            TokenType::Integer => "INT"@,
            TokenType::Double => "DBL"@,
            TokenType::Boolean => "BOOL"@,
            TokenType::Plus => "PLUS_OP"@,
            TokenType::Minus => "MINUS_OP"@,
            TokenType::Not => "NOT_OP"@,
            TokenType::Star => "STAR_OP"@,
            TokenType::Divide => "DIVIDE_OP"@,
            TokenType::Xor => "XOR_OP"@,
            TokenType::Percent => "PERCENT_OP"@,
            TokenType::Or => "OR_OP"@,
            TokenType::And => "AND_OP"@,
            TokenType::Equal => "EQUAL_OP"@,
            TokenType::Less => "LESS_OP"@,
            TokenType::Greater => "GREATER_OP"@,
            TokenType::PlusPlus => "PLUSPLUS_OP"@,
            TokenType::MinusMinus => "MINUSMINUS_OP"@,
            TokenType::PlusEqual => "PLUSEQUAL_OP"@,
            TokenType::MinusEqual => "MINUSEQUAL_OP"@,
            TokenType::NotEqual => "NOTEQUAL_OP"@,
            TokenType::StarEqual => "STAREQUAL_OP"@,
            TokenType::DivideEqual => "DIVIDEEQUAL_OP"@,
            TokenType::XorEqual => "XOREQUAL_OP"@,
            TokenType::PercentEqual => "PERCENTEQUAL_OP"@,
            TokenType::OrOr => "OROR_OP"@,
            TokenType::AndAnd => "ANDAND_OP"@,
            TokenType::EqualEqual => "EQUALEQUAL_OP"@,
            TokenType::LessEqual => "LESSEQUAL_OP"@,
            TokenType::GreaterEqual => "GREATEREQUAL_OP"@,
            TokenType::Dot => "DOT_OP"@,
            TokenType::Identifier => "IDENT"@,
            TokenType::Char => "CH"@,
            TokenType::String => "STR"@,
            TokenType::KMain => "K_MAIN"@,
            TokenType::KVar => "K_VAR"@,
            TokenType::KIf => "K_IF"@,
            TokenType::KWhile => "K_WHILE"@,
            TokenType::KElse => "K_ELSE"@,
            TokenType::KFor => "K_FOR"@,
            TokenType::KBreak => "BREAK"@,
            TokenType::KFun => "K_FUN"@,
            TokenType::KReturn => "K_RETURN"@,
            TokenType::KNullptr => "K_NULLPTR"@,
            TokenType::OpenParenthesis => "OPEN_PAR"@,
            TokenType::OpenSqParenthesis => "OPEN_SQ_PAR"@,
            TokenType::OpenCurParenthesis => "OPEN_CUR_PAR"@,
            TokenType::CloseParenthesis => "CLOSE_PAR"@,
            TokenType::CloseSqParenthesis => "CLOSE_SQ_PAR"@,
            TokenType::CloseCurParenthesis => "CLOSE_CUR_PAR"@,
            TokenType::Comma => "COMMA"@,
            TokenType::Colon => "COLON"@,
            TokenType::TypeI8 => "I8"@,
            TokenType::TypeI16 => "I16"@,
            TokenType::TypeI32 => "I32"@,
            TokenType::TypeI64 => "I64"@,
            TokenType::TypeU8 => "U8"@,
            TokenType::TypeU16 => "U16"@,
            TokenType::TypeU32 => "U32"@,
            TokenType::TypeU64 => "U64"@,
            TokenType::TypeF32 => "F32"@,
            TokenType::TypeF64 => "F64"@,
            TokenType::TypeC32 => "C32"@,
            TokenType::TypeC64 => "C64"@,
            TokenType::TypeChar => "CHAR"@,
            TokenType::TypeString => "STRING"@,
            TokenType::TypeBool => "BOOL"@,
            TokenType::Comment => "COMMENT"@,
            TokenType::Unknown => "UNKNOWN"@,
            TokenType::Eoft => "EOF"@,
    }
}

/// The name of each token kind as it is written in the source.
pub open spec fn kind_name(t: TokenType) -> Seq<char> {
    match t {
            TokenType::Integer => "Integer"@,
            TokenType::Double => "Double"@,
            TokenType::Boolean => "Boolean"@,
            TokenType::Plus => "Plus"@,
            TokenType::Minus => "Minus"@,
            TokenType::Not => "Not"@,
            TokenType::Star => "Star"@,
            TokenType::Divide => "Divide"@,
            TokenType::Xor => "Xor"@,
            TokenType::Percent => "Percent"@,
            TokenType::Or => "Or"@,
            TokenType::And => "And"@,
            TokenType::Equal => "Equal"@,
            TokenType::Less => "Less"@,
            TokenType::Greater => "Greater"@,
            TokenType::PlusPlus => "PlusPlus"@,
            TokenType::MinusMinus => "MinusMinus"@,
            TokenType::PlusEqual => "PlusEqual"@,
            TokenType::MinusEqual => "MinusEqual"@,
            TokenType::NotEqual => "NotEqual"@,
            TokenType::StarEqual => "StarEqual"@,
            TokenType::DivideEqual => "DivideEqual"@,
            TokenType::XorEqual => "XorEqual"@,
            TokenType::PercentEqual => "PercentEqual"@,
            TokenType::OrOr => "OrOr"@,
            TokenType::AndAnd => "AndAnd"@,
            TokenType::EqualEqual => "EqualEqual"@,
            TokenType::LessEqual => "LessEqual"@,
            TokenType::GreaterEqual => "GreaterEqual"@,
            TokenType::Dot => "Dot"@,
            TokenType::Identifier => "Identifier"@,
            TokenType::Char => "Char"@,
            TokenType::String => "String"@,
            TokenType::KMain => "KMain"@,
            TokenType::KVar => "KVar"@,
            TokenType::KIf => "KIf"@,
            TokenType::KWhile => "KWhile"@,
            TokenType::KElse => "KElse"@,
            TokenType::KFor => "KFor"@,
            TokenType::KBreak => "KBreak"@,
            TokenType::KFun => "KFun"@,
            TokenType::KReturn => "KReturn"@,
            TokenType::KNullptr => "KNullptr"@,
            TokenType::OpenParenthesis => "OpenParenthesis"@,
            TokenType::OpenSqParenthesis => "OpenSqParenthesis"@,
            TokenType::OpenCurParenthesis => "OpenCurParenthesis"@,
            TokenType::CloseParenthesis => "CloseParenthesis"@,
            TokenType::CloseSqParenthesis => "CloseSqParenthesis"@,
            TokenType::CloseCurParenthesis => "CloseCurParenthesis"@,
            TokenType::Comma => "Comma"@,
            TokenType::Colon => "Colon"@,
            TokenType::TypeI8 => "TypeI8"@,
            TokenType::TypeI16 => "TypeI16"@,
            TokenType::TypeI32 => "TypeI32"@,
            TokenType::TypeI64 => "TypeI64"@,
            TokenType::TypeU8 => "TypeU8"@,
            TokenType::TypeU16 => "TypeU16"@,
            TokenType::TypeU32 => "TypeU32"@,
            TokenType::TypeU64 => "TypeU64"@,
            TokenType::TypeF32 => "TypeF32"@,
            TokenType::TypeF64 => "TypeF64"@,
            TokenType::TypeC32 => "TypeC32"@,
            TokenType::TypeC64 => "TypeC64"@,
            TokenType::TypeChar => "TypeChar"@,
            TokenType::TypeString => "TypeString"@,
            TokenType::TypeBool => "TypeBool"@,
            TokenType::Comment => "Comment"@,
            TokenType::Unknown => "Unknown"@,
            TokenType::Eoft => "Eoft"@,
    }
}

/// Whether two strings hold the same characters.
fn same_text(a: &str, b: &str) -> (r: bool)
    ensures
        r == (a@ == b@),
{
    let n = a.unicode_len();
    if n != b.unicode_len() {
        return false;
    }
    let mut i: usize = 0;
    while i < n
        invariant
            n == a@.len(),
            n == b@.len(),
            i <= n,
            a@.subrange(0, i as int) == b@.subrange(0, i as int),
        decreases n - i,
    {
        if a.get_char(i) != b.get_char(i) {
            return false;
        }
        assert(a@.subrange(0, i + 1) == a@.subrange(0, i as int).push(a@[i as int]));
        assert(b@.subrange(0, i + 1) == b@.subrange(0, i as int).push(b@[i as int]));
        i = i + 1;
    }
    assert(a@ == a@.subrange(0, n as int));
    assert(b@ == b@.subrange(0, n as int));
    true
}

/// Whether a string holds the given character.
fn has_char(s: &str, c: char) -> (r: bool)
    ensures
        r == s@.contains(c),
{
    let n = s.unicode_len();
    let mut i: usize = 0;
    while i < n
        invariant
            n == s@.len(),
            i <= n,
            forall|j: int| 0 <= j < i ==> s@[j] != c,
        decreases n - i,
    {
        if s.get_char(i) == c {
            return true;
        }
        i = i + 1;
    }
    false
}

impl TokenType {
    /// Whether this kind is one of the keyword kinds.
    pub fn is_keyword(&self) -> (r: bool)
        ensures
            r == is_keyword_type(*self),
    {
        match self {
            TokenType::KMain | TokenType::KVar | TokenType::KIf | TokenType::KWhile
            | TokenType::KElse | TokenType::KFor | TokenType::KBreak | TokenType::KFun
            | TokenType::KReturn => true,
            _ => false,
        }
    }

    /// Looks a word up in the keyword table.
    pub fn map_keword_to_token_type(keyword: String) -> (r: TokenType)
        ensures
            r == keyword_type(keyword@),
    {
        let k = keyword.as_str();
        if same_text(k, "main") {
            TokenType::KMain
        } else if same_text(k, "var") {
            TokenType::KVar
        } else if same_text(k, "if") {
            TokenType::KIf
        } else if same_text(k, "while") {
            TokenType::KWhile
        } else if same_text(k, "else") {
            TokenType::KElse
        } else if same_text(k, "for") {
            TokenType::KFor
        } else if same_text(k, "break") {
            TokenType::KBreak
        } else if same_text(k, "fun") {
            TokenType::KFun
        } else if same_text(k, "return") {
            TokenType::KReturn
        } else {
            TokenType::Identifier
        }
    }

    /// Removes exactly one character from each end of the text.
    pub fn trim_start_and_end(raw: String) -> (r: String)
        requires
            raw@.len() >= 2,
        ensures
            r@ == strip_ends(raw@),
    {
        let s = raw.as_str();
        let n = s.unicode_len();
        let inner = s.substring_char(1, n - 1);
        String::from_str(inner)
    }

    /// The token kind of a raw class whose kind does not depend on the text.
    fn map_fixed_type(raw: RawToken) -> (r: TokenType)
        ensures
            r == fixed_type(raw),
    {
        match raw {
                RawToken::Binary => TokenType::Integer,
                RawToken::Hexadecimal => TokenType::Integer,
                RawToken::Octal => TokenType::Integer,
                RawToken::Whitespace => TokenType::Unknown,
                RawToken::SingleLineComment => TokenType::Comment,
                RawToken::MultiLineComment => TokenType::Comment,
                RawToken::Plus => TokenType::Plus,
                RawToken::Minus => TokenType::Minus,
                RawToken::Star => TokenType::Star,
                RawToken::Slash => TokenType::Divide,
                RawToken::LESS => TokenType::Less,
                RawToken::GREATER => TokenType::Greater,
                RawToken::NOT => TokenType::Not,
                RawToken::XOR => TokenType::Xor,
                RawToken::PERCENT => TokenType::Percent,
                RawToken::OR => TokenType::Or,
                RawToken::AND => TokenType::And,
                RawToken::Equal => TokenType::Equal,
                RawToken::Colon => TokenType::Colon,
                RawToken::Comma => TokenType::Comma,
                RawToken::PlusPlus => TokenType::PlusPlus,
                RawToken::MinusMinus => TokenType::MinusMinus,
                RawToken::PlusEqual => TokenType::PlusEqual,
                RawToken::MinusEqual => TokenType::MinusEqual,
                RawToken::LessEqual => TokenType::LessEqual,
                RawToken::Greaterequal => TokenType::GreaterEqual,
                RawToken::NotEqual => TokenType::NotEqual,
                RawToken::XorEqual => TokenType::XorEqual,
                RawToken::PercentEqual => TokenType::PercentEqual,
                RawToken::OrOr => TokenType::OrOr,
                RawToken::AndAnd => TokenType::AndAnd,
                RawToken::OpenParentesis => TokenType::OpenParenthesis,
                RawToken::CloseParentesis => TokenType::CloseParenthesis,
                RawToken::OpenSQParentesis => TokenType::OpenSqParenthesis,
                RawToken::CloseSQParentesis => TokenType::CloseSqParenthesis,
                RawToken::OpenCurParentesis => TokenType::OpenCurParenthesis,
                RawToken::CloseCurParentesis => TokenType::CloseCurParenthesis,
                RawToken::BOOLEAN => TokenType::Boolean,
                RawToken::STRING => TokenType::String,
                RawToken::CHAR => TokenType::Char,
                RawToken::Dot => TokenType::Dot,
                RawToken::TYPEI8 => TokenType::TypeI8,
                RawToken::TYPEI16 => TokenType::TypeI16,
                RawToken::TYPEI32 => TokenType::TypeI32,
                RawToken::TYPEI64 => TokenType::TypeI64,
                RawToken::TYPEU8 => TokenType::TypeU8,
                RawToken::TYPEU16 => TokenType::TypeU16,
                RawToken::TYPEU32 => TokenType::TypeU32,
                RawToken::TYPEU64 => TokenType::TypeU64,
                RawToken::TYPEF32 => TokenType::TypeF32,
                RawToken::TYPEF64 => TokenType::TypeF64,
                RawToken::TYPEC32 => TokenType::TypeC32,
                RawToken::TYPEC64 => TokenType::TypeC64,
                RawToken::TYPECHAR => TokenType::TypeChar,
                RawToken::TYPESTRING => TokenType::TypeString,
                RawToken::TYPEBOOL => TokenType::TypeBool,
                _ => TokenType::Unknown,
        }
    }

    /// Classifies a raw match: its token kind and its normalized lexeme.
    pub fn map_raw_token_type(raw_token: RawToken, raw_val: String) -> (r: (TokenType, String))
        requires
            classifiable(raw_token, raw_val@),
        ensures
            r.0 == classify_type(raw_token, raw_val@),
            r.1@ == normalized_lexeme(raw_token, raw_val@),
    {
        match raw_token {
            RawToken::IdentifierAscii => {
                let t = TokenType::map_keword_to_token_type(raw_val.clone());
                (t, raw_val)
            },
            RawToken::IdentifierUnicode => (TokenType::Identifier, raw_val),
            RawToken::Number => {
                if has_char(raw_val.as_str(), '.') {
                    (TokenType::Double, raw_val)
                } else {
                    (TokenType::Integer, raw_val)
                }
            },
            RawToken::STRING => (TokenType::String, TokenType::trim_start_and_end(raw_val)),
            RawToken::CHAR => (TokenType::Char, TokenType::trim_start_and_end(raw_val)),
            _ => (TokenType::map_fixed_type(raw_token), raw_val),
        }
    }

    /// The short upper-case name of this kind.
    pub fn compact_to_string(&self) -> (r: &'static str)
        ensures
            r@ == compact_name(*self),
    {
        match self {
            TokenType::Integer => "INT",
            TokenType::Double => "DBL",
            TokenType::Boolean => "BOOL",
            TokenType::Plus => "PLUS_OP",
            TokenType::Minus => "MINUS_OP",
            TokenType::Not => "NOT_OP",
            TokenType::Star => "STAR_OP",
            TokenType::Divide => "DIVIDE_OP",
            TokenType::Xor => "XOR_OP",
            TokenType::Percent => "PERCENT_OP",
            TokenType::Or => "OR_OP",
            TokenType::And => "AND_OP",
            TokenType::Equal => "EQUAL_OP",
            TokenType::Less => "LESS_OP",
            TokenType::Greater => "GREATER_OP",
            TokenType::PlusPlus => "PLUSPLUS_OP",
            TokenType::MinusMinus => "MINUSMINUS_OP",
            TokenType::PlusEqual => "PLUSEQUAL_OP",
            TokenType::MinusEqual => "MINUSEQUAL_OP",
            TokenType::NotEqual => "NOTEQUAL_OP",
            TokenType::StarEqual => "STAREQUAL_OP",
            TokenType::DivideEqual => "DIVIDEEQUAL_OP",
            TokenType::XorEqual => "XOREQUAL_OP",
            TokenType::PercentEqual => "PERCENTEQUAL_OP",
            TokenType::OrOr => "OROR_OP",
            TokenType::AndAnd => "ANDAND_OP",
            TokenType::EqualEqual => "EQUALEQUAL_OP",
            TokenType::LessEqual => "LESSEQUAL_OP",
            TokenType::GreaterEqual => "GREATEREQUAL_OP",
            TokenType::Dot => "DOT_OP",
            TokenType::Identifier => "IDENT",
            TokenType::Char => "CH",
            TokenType::String => "STR",
            TokenType::KMain => "K_MAIN",
            TokenType::KVar => "K_VAR",
            TokenType::KIf => "K_IF",
            TokenType::KWhile => "K_WHILE",
            TokenType::KElse => "K_ELSE",
            TokenType::KFor => "K_FOR",
            TokenType::KBreak => "BREAK",
            TokenType::KFun => "K_FUN",
            TokenType::KReturn => "K_RETURN",
            TokenType::KNullptr => "K_NULLPTR",
            TokenType::OpenParenthesis => "OPEN_PAR",
            TokenType::OpenSqParenthesis => "OPEN_SQ_PAR",
            TokenType::OpenCurParenthesis => "OPEN_CUR_PAR",
            TokenType::CloseParenthesis => "CLOSE_PAR",
            TokenType::CloseSqParenthesis => "CLOSE_SQ_PAR",
            TokenType::CloseCurParenthesis => "CLOSE_CUR_PAR",
            TokenType::Comma => "COMMA",
            TokenType::Colon => "COLON",
            TokenType::TypeI8 => "I8",
            TokenType::TypeI16 => "I16",
            TokenType::TypeI32 => "I32",
            TokenType::TypeI64 => "I64",
            TokenType::TypeU8 => "U8",
            TokenType::TypeU16 => "U16",
            TokenType::TypeU32 => "U32",
            TokenType::TypeU64 => "U64",
            TokenType::TypeF32 => "F32",
            TokenType::TypeF64 => "F64",
            TokenType::TypeC32 => "C32",
            TokenType::TypeC64 => "C64",
            TokenType::TypeChar => "CHAR",
            TokenType::TypeString => "STRING",
            TokenType::TypeBool => "BOOL",
            TokenType::Comment => "COMMENT",
            TokenType::Unknown => "UNKNOWN",
            TokenType::Eoft => "EOF",
        }
    }

    /// The name of this kind as it is written in the source.
    pub fn name(&self) -> (r: &'static str)
        ensures
            r@ == kind_name(*self),
    {
        match self {
            TokenType::Integer => "Integer",
            TokenType::Double => "Double",
            TokenType::Boolean => "Boolean",
            TokenType::Plus => "Plus",
            TokenType::Minus => "Minus",
            TokenType::Not => "Not",
            TokenType::Star => "Star",
            TokenType::Divide => "Divide",
            TokenType::Xor => "Xor",
            TokenType::Percent => "Percent",
            TokenType::Or => "Or",
            TokenType::And => "And",
            TokenType::Equal => "Equal",
            TokenType::Less => "Less",
            TokenType::Greater => "Greater",
            TokenType::PlusPlus => "PlusPlus",
            TokenType::MinusMinus => "MinusMinus",
            TokenType::PlusEqual => "PlusEqual",
            TokenType::MinusEqual => "MinusEqual",
            TokenType::NotEqual => "NotEqual",
            TokenType::StarEqual => "StarEqual",
            TokenType::DivideEqual => "DivideEqual",
            TokenType::XorEqual => "XorEqual",
            TokenType::PercentEqual => "PercentEqual",
            TokenType::OrOr => "OrOr",
            TokenType::AndAnd => "AndAnd",
            TokenType::EqualEqual => "EqualEqual",
            TokenType::LessEqual => "LessEqual",
            TokenType::GreaterEqual => "GreaterEqual",
            TokenType::Dot => "Dot",
            TokenType::Identifier => "Identifier",
            TokenType::Char => "Char",
            TokenType::String => "String",
            TokenType::KMain => "KMain",
            TokenType::KVar => "KVar",
            TokenType::KIf => "KIf",
            TokenType::KWhile => "KWhile",
            TokenType::KElse => "KElse",
            TokenType::KFor => "KFor",
            TokenType::KBreak => "KBreak",
            TokenType::KFun => "KFun",
            TokenType::KReturn => "KReturn",
            TokenType::KNullptr => "KNullptr",
            TokenType::OpenParenthesis => "OpenParenthesis",
            TokenType::OpenSqParenthesis => "OpenSqParenthesis",
            TokenType::OpenCurParenthesis => "OpenCurParenthesis",
            TokenType::CloseParenthesis => "CloseParenthesis",
            TokenType::CloseSqParenthesis => "CloseSqParenthesis",
            TokenType::CloseCurParenthesis => "CloseCurParenthesis",
            TokenType::Comma => "Comma",
            TokenType::Colon => "Colon",
            TokenType::TypeI8 => "TypeI8",
            TokenType::TypeI16 => "TypeI16",
            TokenType::TypeI32 => "TypeI32",
            TokenType::TypeI64 => "TypeI64",
            TokenType::TypeU8 => "TypeU8",
            TokenType::TypeU16 => "TypeU16",
            TokenType::TypeU32 => "TypeU32",
            TokenType::TypeU64 => "TypeU64",
            TokenType::TypeF32 => "TypeF32",
            TokenType::TypeF64 => "TypeF64",
            TokenType::TypeC32 => "TypeC32",
            TokenType::TypeC64 => "TypeC64",
            TokenType::TypeChar => "TypeChar",
            TokenType::TypeString => "TypeString",
            TokenType::TypeBool => "TypeBool",
            TokenType::Comment => "Comment",
            TokenType::Unknown => "Unknown",
            TokenType::Eoft => "Eoft",
        }
    }
}

} // verus!
