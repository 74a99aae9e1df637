//! The token taxonomy: every lexical category the tokenizer can report, in
//! priority order.
//!
//! The order of the variants of [`Tokens`] is part of the contract. When two
//! patterns can start a token at the same offset, the kind that comes first
//! here wins, so every compound operator stands before the operators it
//! starts with, and every reserved word stands before `Identifier`.

use vstd::prelude::*;

verus! {

/// Number of kinds that have a pattern: every kind but `Unknown`.
pub const PATTERN_COUNT: usize = 89;

/// A lexical category.
///
/// `Unknown` has no pattern. It is only ever attached to the gap between two
/// recognised tokens.
#[derive(Debug, Copy, Clone, PartialEq, Eq, Structural)]
pub enum Tokens {
    // Literals.
    Number,
    String,
    // Comment delimiters and the at sign.
    BlockCommentLeft,
    BlockCommentRight,
    SingleComment,
    Asperand,
    // Increment and decrement.
    Increment,
    Decrement,
    // Comparison and logical operators.
    Equals,
    Unequals,
    GreaterOrEqual,
    LessOrEquals,
    LogicalAnd,
    LogicalOr,
    LogicalNot,
    // Plain assignment.
    Assign,
    // Member access.
    Pointer,
    Period,
    // Arithmetic compound assignment.
    AddAssign,
    SubAssign,
    MulAssign,
    DivAssign,
    ModAssign,
    // Bitwise compound assignment.
    BinaryShiftLeftAssign,
    BinaryShiftRightAssign,
    BinaryAndAssign,
    BinaryOrAssign,
    BinaryXorAssign,
    // Bitwise operators.
    BinaryAnd,
    BinaryOr,
    BinaryNot,
    BinaryXor,
    BinaryShiftLeft,
    BinaryShiftRight,
    // Reserved words.
    Break,
    Case,
    Char,
    Const,
    Continue,
    Default,
    Do,
    Double,
    Else,
    Enum,
    Extern,
    Float,
    For,
    Goto,
    If,
    Int,
    Long,
    Register,
    Return,
    Short,
    Signed,
    SizeOf,
    Static,
    Struct,
    Switch,
    Typedef,
    Union,
    Unsigned,
    Void,
    Volatile,
    While,
    // Single-character punctuation.
    Comma,
    SemiColon,
    Colon,
    Question,
    Apostrophe,
    Quotation,
    Slash,
    BackSlash,
    Dollar,
    Percent,
    LeftCurly,
    RightCurly,
    LeftBracket,
    RightBracket,
    LeftParen,
    RightParen,
    Plus,
    Minus,
    Asterisk,
    Less,
    Greater,
    Hash,
    // Names and blanks.
    Identifier,
    Whitespace,
    // The gap between recognised tokens.
    Unknown,
}

/// What one step of the tokenizer finds: the byte offsets at which the next
/// token starts and ends in the text that was searched, and its kind.
#[derive(Debug, Clone, Copy, PartialEq, Eq, Structural)]
pub struct TokenSize(pub usize, pub usize, pub Tokens);

/// Why no token or no pattern table could be produced.
#[derive(Debug, Clone, Copy, PartialEq, Eq, Structural)]
pub enum TokenizeError {
    /// No pattern matches anywhere in the text.
    NoMatchingToken,
    /// A pattern of the library is not a well-formed regular expression.
    InvalidPattern,
}

impl TokenizeError {
    /// The message of the error, as a sentence.
    pub fn message(&self) -> (text: &'static str)
        ensures
            text@ == (match *self {
                TokenizeError::NoMatchingToken => "No matching token found"@,
                TokenizeError::InvalidPattern => "Invalid token pattern"@,
            }),
    {
        match self {
            TokenizeError::NoMatchingToken => "No matching token found",
            TokenizeError::InvalidPattern => "Invalid token pattern",
        }
    }
}

impl Tokens {
    /// The kind at place `i` of the priority order; `Unknown` past its end.
    pub open spec fn at(i: int) -> Tokens {
        if i == 0 {
            Tokens::Number
        } else if i == 1 {
            Tokens::String
        } else if i == 2 {
            Tokens::BlockCommentLeft
        } else if i == 3 {
            Tokens::BlockCommentRight
        } else if i == 4 {
            Tokens::SingleComment
        } else if i == 5 {
            Tokens::Asperand
        } else if i == 6 {
            Tokens::Increment
        } else if i == 7 {
            Tokens::Decrement
        } else if i == 8 {
            Tokens::Equals
        } else if i == 9 {
            Tokens::Unequals
        } else if i == 10 {
            Tokens::GreaterOrEqual
        } else if i == 11 {
            Tokens::LessOrEquals
        } else if i == 12 {
            Tokens::LogicalAnd
        } else if i == 13 {
            Tokens::LogicalOr
        } else if i == 14 {
            Tokens::LogicalNot
        } else if i == 15 {
            Tokens::Assign
        } else if i == 16 {
            Tokens::Pointer
        } else if i == 17 {
            Tokens::Period
        } else if i == 18 {
            Tokens::AddAssign
        } else if i == 19 {
            Tokens::SubAssign
        } else if i == 20 {
            Tokens::MulAssign
        } else if i == 21 {
            Tokens::DivAssign
        } else if i == 22 {
            Tokens::ModAssign
        } else if i == 23 {
            Tokens::BinaryShiftLeftAssign
        } else if i == 24 {
            Tokens::BinaryShiftRightAssign
        } else if i == 25 {
            Tokens::BinaryAndAssign
        } else if i == 26 {
            Tokens::BinaryOrAssign
        } else if i == 27 {
            Tokens::BinaryXorAssign
        } else if i == 28 {
            Tokens::BinaryAnd
        } else if i == 29 {
            Tokens::BinaryOr
        } else if i == 30 {
            Tokens::BinaryNot
        } else if i == 31 {
            Tokens::BinaryXor
        } else if i == 32 {
            Tokens::BinaryShiftLeft
        } else if i == 33 {
            Tokens::BinaryShiftRight
        } else if i == 34 {
            Tokens::Break
        } else if i == 35 {
            Tokens::Case
        } else if i == 36 {
            Tokens::Char
        } else if i == 37 {
            Tokens::Const
        } else if i == 38 {
            Tokens::Continue
        } else if i == 39 {
            Tokens::Default
        } else if i == 40 {
            Tokens::Do
        } else if i == 41 {
            Tokens::Double
        } else if i == 42 {
            Tokens::Else
        } else if i == 43 {
            Tokens::Enum
        } else if i == 44 {
            Tokens::Extern
        } else if i == 45 {
            Tokens::Float
        } else if i == 46 {
            Tokens::For
        } else if i == 47 {
            Tokens::Goto
        } else if i == 48 {
            Tokens::If
        } else if i == 49 {
            Tokens::Int
        } else if i == 50 {
            Tokens::Long
        } else if i == 51 {
            Tokens::Register
        } else if i == 52 {
            Tokens::Return
        } else if i == 53 {
            Tokens::Short
        } else if i == 54 {
            Tokens::Signed
        } else if i == 55 {
            Tokens::SizeOf
        } else if i == 56 {
            Tokens::Static
        } else if i == 57 {
            Tokens::Struct
        } else if i == 58 {
            Tokens::Switch
        } else if i == 59 {
            Tokens::Typedef
        } else if i == 60 {
            Tokens::Union
        } else if i == 61 {
            Tokens::Unsigned
        } else if i == 62 {
            Tokens::Void
        } else if i == 63 {
            Tokens::Volatile
        } else if i == 64 {
            Tokens::While
        } else if i == 65 {
            Tokens::Comma
        } else if i == 66 {
            Tokens::SemiColon
        } else if i == 67 {
            Tokens::Colon
        } else if i == 68 {
            Tokens::Question
        } else if i == 69 {
            Tokens::Apostrophe
        } else if i == 70 {
            Tokens::Quotation
        } else if i == 71 {
            Tokens::Slash
        } else if i == 72 {
            Tokens::BackSlash
        } else if i == 73 {
            Tokens::Dollar
        } else if i == 74 {
            Tokens::Percent
        } else if i == 75 {
            Tokens::LeftCurly
        } else if i == 76 {
            Tokens::RightCurly
        } else if i == 77 {
            Tokens::LeftBracket
        } else if i == 78 {
            Tokens::RightBracket
        } else if i == 79 {
            Tokens::LeftParen
        } else if i == 80 {
            Tokens::RightParen
        } else if i == 81 {
            Tokens::Plus
        } else if i == 82 {
            Tokens::Minus
        } else if i == 83 {
            Tokens::Asterisk
        } else if i == 84 {
            Tokens::Less
        } else if i == 85 {
            Tokens::Greater
        } else if i == 86 {
            Tokens::Hash
        } else if i == 87 {
            Tokens::Identifier
        } else if i == 88 {
            Tokens::Whitespace
        } else {
            Tokens::Unknown
        }
    }

    /// The place of a kind in the priority order. `Unknown` comes last, at
    /// `PATTERN_COUNT`.
    pub open spec fn position(self) -> int {
        match self {
            Tokens::Number => 0,
            Tokens::String => 1,
            Tokens::BlockCommentLeft => 2,
            Tokens::BlockCommentRight => 3,
            Tokens::SingleComment => 4,
            Tokens::Asperand => 5,
            Tokens::Increment => 6,
            Tokens::Decrement => 7,
            Tokens::Equals => 8,
            Tokens::Unequals => 9,
            Tokens::GreaterOrEqual => 10,
            Tokens::LessOrEquals => 11,
            Tokens::LogicalAnd => 12,
            Tokens::LogicalOr => 13,
            Tokens::LogicalNot => 14,
            Tokens::Assign => 15,
            Tokens::Pointer => 16,
            Tokens::Period => 17,
            Tokens::AddAssign => 18,
            Tokens::SubAssign => 19,
            Tokens::MulAssign => 20,
            Tokens::DivAssign => 21,
            Tokens::ModAssign => 22,
            Tokens::BinaryShiftLeftAssign => 23,
            Tokens::BinaryShiftRightAssign => 24,
            Tokens::BinaryAndAssign => 25,
            Tokens::BinaryOrAssign => 26,
            Tokens::BinaryXorAssign => 27,
            Tokens::BinaryAnd => 28,
            Tokens::BinaryOr => 29,
            Tokens::BinaryNot => 30,
            Tokens::BinaryXor => 31,
            Tokens::BinaryShiftLeft => 32,
            Tokens::BinaryShiftRight => 33,
            Tokens::Break => 34,
            Tokens::Case => 35,
            Tokens::Char => 36,
            Tokens::Const => 37,
            Tokens::Continue => 38,
            Tokens::Default => 39,
            Tokens::Do => 40,
            Tokens::Double => 41,
            Tokens::Else => 42,
            Tokens::Enum => 43,
            Tokens::Extern => 44,
            Tokens::Float => 45,
            Tokens::For => 46,
            Tokens::Goto => 47,
            Tokens::If => 48,
            Tokens::Int => 49,
            Tokens::Long => 50,
            Tokens::Register => 51,
            Tokens::Return => 52,
            Tokens::Short => 53,
            Tokens::Signed => 54,
            Tokens::SizeOf => 55,
            Tokens::Static => 56,
            Tokens::Struct => 57,
            Tokens::Switch => 58,
            Tokens::Typedef => 59,
            Tokens::Union => 60,
            Tokens::Unsigned => 61,
            Tokens::Void => 62,
            Tokens::Volatile => 63,
            Tokens::While => 64,
            Tokens::Comma => 65,
            Tokens::SemiColon => 66,
            Tokens::Colon => 67,
            Tokens::Question => 68,
            Tokens::Apostrophe => 69,
            Tokens::Quotation => 70,
            Tokens::Slash => 71,
            Tokens::BackSlash => 72,
            Tokens::Dollar => 73,
            Tokens::Percent => 74,
            Tokens::LeftCurly => 75,
            Tokens::RightCurly => 76,
            Tokens::LeftBracket => 77,
            Tokens::RightBracket => 78,
            Tokens::LeftParen => 79,
            Tokens::RightParen => 80,
            Tokens::Plus => 81,
            Tokens::Minus => 82,
            Tokens::Asterisk => 83,
            Tokens::Less => 84,
            Tokens::Greater => 85,
            Tokens::Hash => 86,
            Tokens::Identifier => 87,
            Tokens::Whitespace => 88,
            Tokens::Unknown => 89,
        }
    }

    /// The place of this kind in the priority order.
    pub fn index(self) -> (i: usize)
        ensures
            i == self.position(),
            i <= PATTERN_COUNT,
            i == PATTERN_COUNT <==> self == Tokens::Unknown,
    {
        match self {
            Tokens::Number => 0,
            Tokens::String => 1,
            Tokens::BlockCommentLeft => 2,
            Tokens::BlockCommentRight => 3,
            Tokens::SingleComment => 4,
            Tokens::Asperand => 5,
            Tokens::Increment => 6,
            Tokens::Decrement => 7,
            Tokens::Equals => 8,
            Tokens::Unequals => 9,
            Tokens::GreaterOrEqual => 10,
            Tokens::LessOrEquals => 11,
            Tokens::LogicalAnd => 12,
            Tokens::LogicalOr => 13,
            Tokens::LogicalNot => 14,
            Tokens::Assign => 15,
            Tokens::Pointer => 16,
            Tokens::Period => 17,
            Tokens::AddAssign => 18,
            Tokens::SubAssign => 19,
            Tokens::MulAssign => 20,
            Tokens::DivAssign => 21,
            Tokens::ModAssign => 22,
            Tokens::BinaryShiftLeftAssign => 23,
            Tokens::BinaryShiftRightAssign => 24,
            Tokens::BinaryAndAssign => 25,
            Tokens::BinaryOrAssign => 26,
            Tokens::BinaryXorAssign => 27,
            Tokens::BinaryAnd => 28,
            Tokens::BinaryOr => 29,
            Tokens::BinaryNot => 30,
            Tokens::BinaryXor => 31,
            Tokens::BinaryShiftLeft => 32,
            Tokens::BinaryShiftRight => 33,
            Tokens::Break => 34,
            Tokens::Case => 35,
            Tokens::Char => 36,
            Tokens::Const => 37,
            Tokens::Continue => 38,
            Tokens::Default => 39,
            Tokens::Do => 40,
            Tokens::Double => 41,
            Tokens::Else => 42,
            Tokens::Enum => 43,
            Tokens::Extern => 44,
            Tokens::Float => 45,
            Tokens::For => 46,
            Tokens::Goto => 47,
            Tokens::If => 48,
            Tokens::Int => 49,
            Tokens::Long => 50,
            Tokens::Register => 51,
            Tokens::Return => 52,
            Tokens::Short => 53,
            Tokens::Signed => 54,
            Tokens::SizeOf => 55,
            Tokens::Static => 56,
            Tokens::Struct => 57,
            Tokens::Switch => 58,
            Tokens::Typedef => 59,
            Tokens::Union => 60,
            Tokens::Unsigned => 61,
            Tokens::Void => 62,
            Tokens::Volatile => 63,
            Tokens::While => 64,
            Tokens::Comma => 65,
            Tokens::SemiColon => 66,
            Tokens::Colon => 67,
            Tokens::Question => 68,
            Tokens::Apostrophe => 69,
            Tokens::Quotation => 70,
            Tokens::Slash => 71,
            Tokens::BackSlash => 72,
            Tokens::Dollar => 73,
            Tokens::Percent => 74,
            Tokens::LeftCurly => 75,
            Tokens::RightCurly => 76,
            Tokens::LeftBracket => 77,
            Tokens::RightBracket => 78,
            Tokens::LeftParen => 79,
            Tokens::RightParen => 80,
            Tokens::Plus => 81,
            Tokens::Minus => 82,
            Tokens::Asterisk => 83,
            Tokens::Less => 84,
            Tokens::Greater => 85,
            Tokens::Hash => 86,
            Tokens::Identifier => 87,
            Tokens::Whitespace => 88,
            Tokens::Unknown => 89,
        }
    }

    /// The kind at place `i` of the priority order, if there is one.
    pub fn from_index(i: usize) -> (kind: Option<Tokens>)
        ensures
            kind == (if i <= PATTERN_COUNT {
                Some(Tokens::at(i as int))
            } else {
                None
            }),
    {
        if i == 0 {
            Some(Tokens::Number)
        } else if i == 1 {
            Some(Tokens::String)
        } else if i == 2 {
            Some(Tokens::BlockCommentLeft)
        } else if i == 3 {
            Some(Tokens::BlockCommentRight)
        } else if i == 4 {
            Some(Tokens::SingleComment)
        } else if i == 5 {
            Some(Tokens::Asperand)
        } else if i == 6 {
            Some(Tokens::Increment)
        } else if i == 7 {
            Some(Tokens::Decrement)
        } else if i == 8 {
            Some(Tokens::Equals)
        } else if i == 9 {
            Some(Tokens::Unequals)
        } else if i == 10 {
            Some(Tokens::GreaterOrEqual)
        } else if i == 11 {
            Some(Tokens::LessOrEquals)
        } else if i == 12 {
            Some(Tokens::LogicalAnd)
        } else if i == 13 {
            Some(Tokens::LogicalOr)
        } else if i == 14 {
            Some(Tokens::LogicalNot)
        } else if i == 15 {
            Some(Tokens::Assign)
        } else if i == 16 {
            Some(Tokens::Pointer)
        } else if i == 17 {
            Some(Tokens::Period)
        } else if i == 18 {
            Some(Tokens::AddAssign)
        } else if i == 19 {
            Some(Tokens::SubAssign)
        } else if i == 20 {
            Some(Tokens::MulAssign)
        } else if i == 21 {
            Some(Tokens::DivAssign)
        } else if i == 22 {
            Some(Tokens::ModAssign)
        } else if i == 23 {
            Some(Tokens::BinaryShiftLeftAssign)
        } else if i == 24 {
            Some(Tokens::BinaryShiftRightAssign)
        } else if i == 25 {
            Some(Tokens::BinaryAndAssign)
        } else if i == 26 {
            Some(Tokens::BinaryOrAssign)
        } else if i == 27 {
            Some(Tokens::BinaryXorAssign)
        } else if i == 28 {
            Some(Tokens::BinaryAnd)
        } else if i == 29 {
            Some(Tokens::BinaryOr)
        } else if i == 30 {
            Some(Tokens::BinaryNot)
        } else if i == 31 {
            Some(Tokens::BinaryXor)
        } else if i == 32 {
            Some(Tokens::BinaryShiftLeft)
        } else if i == 33 {
            Some(Tokens::BinaryShiftRight)
        } else if i == 34 {
            Some(Tokens::Break)
        } else if i == 35 {
            Some(Tokens::Case)
        } else if i == 36 {
            Some(Tokens::Char)
        } else if i == 37 {
            Some(Tokens::Const)
        } else if i == 38 {
            Some(Tokens::Continue)
        } else if i == 39 {
            Some(Tokens::Default)
        } else if i == 40 {
            Some(Tokens::Do)
        } else if i == 41 {
            Some(Tokens::Double)
        } else if i == 42 {
            Some(Tokens::Else)
        } else if i == 43 {
            Some(Tokens::Enum)
        } else if i == 44 {
            Some(Tokens::Extern)
        } else if i == 45 {
            Some(Tokens::Float)
        } else if i == 46 {
            Some(Tokens::For)
        } else if i == 47 {
            Some(Tokens::Goto)
        } else if i == 48 {
            Some(Tokens::If)
        } else if i == 49 {
            Some(Tokens::Int)
        } else if i == 50 {
            Some(Tokens::Long)
        } else if i == 51 {
            Some(Tokens::Register)
        } else if i == 52 {
            Some(Tokens::Return)
        } else if i == 53 {
            Some(Tokens::Short)
        } else if i == 54 {
            Some(Tokens::Signed)
        } else if i == 55 {
            Some(Tokens::SizeOf)
        } else if i == 56 {
            Some(Tokens::Static)
        } else if i == 57 {
            Some(Tokens::Struct)
        } else if i == 58 {
            Some(Tokens::Switch)
        } else if i == 59 {
            Some(Tokens::Typedef)
        } else if i == 60 {
            Some(Tokens::Union)
        } else if i == 61 {
            Some(Tokens::Unsigned)
        } else if i == 62 {
            Some(Tokens::Void)
        } else if i == 63 {
            Some(Tokens::Volatile)
        } else if i == 64 {
            Some(Tokens::While)
        } else if i == 65 {
            Some(Tokens::Comma)
        } else if i == 66 {
            Some(Tokens::SemiColon)
        } else if i == 67 {
            Some(Tokens::Colon)
        } else if i == 68 {
            Some(Tokens::Question)
        } else if i == 69 {
            Some(Tokens::Apostrophe)
        } else if i == 70 {
            Some(Tokens::Quotation)
        } else if i == 71 {
            Some(Tokens::Slash)
        } else if i == 72 {
            Some(Tokens::BackSlash)
        } else if i == 73 {
            Some(Tokens::Dollar)
        } else if i == 74 {
            Some(Tokens::Percent)
        } else if i == 75 {
            Some(Tokens::LeftCurly)
        } else if i == 76 {
            Some(Tokens::RightCurly)
        } else if i == 77 {
            Some(Tokens::LeftBracket)
        } else if i == 78 {
            Some(Tokens::RightBracket)
        } else if i == 79 {
            Some(Tokens::LeftParen)
        } else if i == 80 {
            Some(Tokens::RightParen)
        } else if i == 81 {
            Some(Tokens::Plus)
        } else if i == 82 {
            Some(Tokens::Minus)
        } else if i == 83 {
            Some(Tokens::Asterisk)
        } else if i == 84 {
            Some(Tokens::Less)
        } else if i == 85 {
            Some(Tokens::Greater)
        } else if i == 86 {
            Some(Tokens::Hash)
        } else if i == 87 {
            Some(Tokens::Identifier)
        } else if i == 88 {
            Some(Tokens::Whitespace)
        } else if i == 89 {
            Some(Tokens::Unknown)
        } else {
            None
        }
    }
}

/// The priority order lists every kind exactly once: `at` and `position` are
/// inverse to each other on `0..=PATTERN_COUNT`.
pub proof fn lemma_order_is_a_bijection(kind: Tokens, i: int)
    ensures
        0 <= kind.position() <= PATTERN_COUNT,
        Tokens::at(kind.position()) == kind,
        0 <= i <= PATTERN_COUNT ==> Tokens::at(i).position() == i,
{
}

/// No pattern reports `Unknown`: the kinds with a pattern are exactly the
/// kinds other than `Unknown`.
pub proof fn lemma_unknown_has_no_pattern(i: int)
    ensures
        0 <= i < PATTERN_COUNT <==> Tokens::at(i) != Tokens::Unknown,
{
}

} // verus!
