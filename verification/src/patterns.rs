//! The pattern of each kind, as a regular expression.
//!
//! Every pattern marks, with its first capture group, the part of a match
//! that is the token. What stands outside that group is context: a number
//! must be followed by the end of the text or by something that is not a
//! digit, and the character before a string literal is looked at but is not
//! part of it.
//!
//! A reserved word is a word only where no character of a name follows it:
//! `forever` is one name, and `double` is not `do` and a name.

use crate::kinds::Tokens;
use vstd::prelude::*;

verus! {

/// The pattern of `kind`, as text. `Unknown` has none; it gets the empty
/// text, which no function of the library compiles.
pub open spec fn pattern_text(kind: Tokens) -> Seq<char> {
    match kind {
        Tokens::Number => "(((?i)0x[0-9a-fA-F]+)|((?i)0b[01]+)|(0|(0\\.|[1-9][0-9]*)[0-9]*)([eE](\\+|-)?[0-9]+)?)($|[^\\d])"@,
        Tokens::String => "[^\\\\]?(\"(\\\\\"|.)*?\")"@,
        Tokens::BlockCommentLeft => "(/\\*)"@,
        Tokens::BlockCommentRight => "(\\*/)"@,
        Tokens::SingleComment => "(//)"@,
        Tokens::Asperand => "(@)"@,
        Tokens::Increment => "(\\+\\+)"@,
        Tokens::Decrement => "(--)"@,
        Tokens::Equals => "(==)"@,
        Tokens::Unequals => "(!=)"@,
        Tokens::GreaterOrEqual => "(>=)"@,
        Tokens::LessOrEquals => "(<=)"@,
        Tokens::LogicalAnd => "(&&)"@,
        Tokens::LogicalOr => "(\\|\\|)"@,
        Tokens::LogicalNot => "(!)"@,
        Tokens::Assign => "(=)"@,
        Tokens::Pointer => "(->)"@,
        Tokens::Period => "(\\.)"@,
        Tokens::AddAssign => "(\\+=)"@,
        Tokens::SubAssign => "(\\-=)"@,
        Tokens::MulAssign => "(\\*=)"@,
        Tokens::DivAssign => "(/=)"@,
        Tokens::ModAssign => "(%=)"@,
        Tokens::BinaryShiftLeftAssign => "(<<=)"@,
        Tokens::BinaryShiftRightAssign => "(>>=)"@,
        Tokens::BinaryAndAssign => "(&=)"@,
        Tokens::BinaryOrAssign => "(\\|=)"@,
        Tokens::BinaryXorAssign => "(\\^=)"@,
        Tokens::BinaryAnd => "(&)"@,
        Tokens::BinaryOr => "(\\|)"@,
        Tokens::BinaryNot => "(~)"@,
        Tokens::BinaryXor => "(\\^)"@,
        Tokens::BinaryShiftLeft => "(<<)"@,
        Tokens::BinaryShiftRight => "(>>)"@,
        Tokens::Break => "(break)($|[^_a-zA-Z0-9])"@,
        Tokens::Case => "(case)($|[^_a-zA-Z0-9])"@,
        Tokens::Char => "(char)($|[^_a-zA-Z0-9])"@,
        Tokens::Const => "(const)($|[^_a-zA-Z0-9])"@,
        Tokens::Continue => "(continue)($|[^_a-zA-Z0-9])"@,
        Tokens::Default => "(default)($|[^_a-zA-Z0-9])"@,
        Tokens::Do => "(do)($|[^_a-zA-Z0-9])"@,
        Tokens::Double => "(double)($|[^_a-zA-Z0-9])"@,
        Tokens::Else => "(else)($|[^_a-zA-Z0-9])"@,
        Tokens::Enum => "(enum)($|[^_a-zA-Z0-9])"@,
        Tokens::Extern => "(extern)($|[^_a-zA-Z0-9])"@,
        Tokens::Float => "(float)($|[^_a-zA-Z0-9])"@,
        Tokens::For => "(for)($|[^_a-zA-Z0-9])"@,
        Tokens::Goto => "(goto)($|[^_a-zA-Z0-9])"@,
        Tokens::If => "(if)($|[^_a-zA-Z0-9])"@,
        Tokens::Int => "(int)($|[^_a-zA-Z0-9])"@,
        Tokens::Long => "(long)($|[^_a-zA-Z0-9])"@,
        Tokens::Register => "(register)($|[^_a-zA-Z0-9])"@,
        Tokens::Return => "(return)($|[^_a-zA-Z0-9])"@,
        Tokens::Short => "(short)($|[^_a-zA-Z0-9])"@,
        Tokens::Signed => "(signed)($|[^_a-zA-Z0-9])"@,
        Tokens::SizeOf => "(sizeof)($|[^_a-zA-Z0-9])"@,
        Tokens::Static => "(static)($|[^_a-zA-Z0-9])"@,
        Tokens::Struct => "(struct)($|[^_a-zA-Z0-9])"@,
        Tokens::Switch => "(switch)($|[^_a-zA-Z0-9])"@,
        Tokens::Typedef => "(typedef)($|[^_a-zA-Z0-9])"@,
        Tokens::Union => "(union)($|[^_a-zA-Z0-9])"@,
        Tokens::Unsigned => "(unsigned)($|[^_a-zA-Z0-9])"@,
        Tokens::Void => "(void)($|[^_a-zA-Z0-9])"@,
        Tokens::Volatile => "(volatile)($|[^_a-zA-Z0-9])"@,
        Tokens::While => "(while)($|[^_a-zA-Z0-9])"@,
        Tokens::Comma => "(,)"@,
        Tokens::SemiColon => "(;)"@,
        Tokens::Colon => "(:)"@,
        Tokens::Question => "(\\?)"@,
        Tokens::Apostrophe => "(')"@,
        Tokens::Quotation => "(\")"@,
        Tokens::Slash => "(/)"@,
        Tokens::BackSlash => "(\\\\)"@,
        Tokens::Dollar => "(\\$)"@,
        Tokens::Percent => "(%)"@,
        Tokens::LeftCurly => "(\\{)"@,
        Tokens::RightCurly => "(})"@,
        Tokens::LeftBracket => "(\\[)"@,
        Tokens::RightBracket => "(])"@,
        Tokens::LeftParen => "(\\()"@,
        Tokens::RightParen => "(\\))"@,
        Tokens::Plus => "(\\+)"@,
        Tokens::Minus => "(-)"@,
        Tokens::Asterisk => "(\\*)"@,
        Tokens::Less => "(<)"@,
        Tokens::Greater => "(>)"@,
        Tokens::Hash => "(#)"@,
        Tokens::Identifier => "([_a-zA-Z][a-zA-Z0-9_]*)"@,
        Tokens::Whitespace => "([\\t\\v\\n\\f ]+)"@,
        Tokens::Unknown => Seq::empty(),
    }
}

/// The pattern of `kind`, or `None` for `Unknown`.
pub fn pattern(kind: Tokens) -> (source: Option<&'static str>)
    ensures
        source is None <==> kind == Tokens::Unknown,
        source matches Some(text) ==> text@ == pattern_text(kind),
{
    match kind {
        Tokens::Number => Some("(((?i)0x[0-9a-fA-F]+)|((?i)0b[01]+)|(0|(0\\.|[1-9][0-9]*)[0-9]*)([eE](\\+|-)?[0-9]+)?)($|[^\\d])"),
        Tokens::String => Some("[^\\\\]?(\"(\\\\\"|.)*?\")"),
        Tokens::BlockCommentLeft => Some("(/\\*)"),
        Tokens::BlockCommentRight => Some("(\\*/)"),
        Tokens::SingleComment => Some("(//)"),
        Tokens::Asperand => Some("(@)"),
        Tokens::Increment => Some("(\\+\\+)"),
        Tokens::Decrement => Some("(--)"),
        Tokens::Equals => Some("(==)"),
        Tokens::Unequals => Some("(!=)"),
        Tokens::GreaterOrEqual => Some("(>=)"),
        Tokens::LessOrEquals => Some("(<=)"),
        Tokens::LogicalAnd => Some("(&&)"),
        Tokens::LogicalOr => Some("(\\|\\|)"),
        Tokens::LogicalNot => Some("(!)"),
        Tokens::Assign => Some("(=)"),
        Tokens::Pointer => Some("(->)"),
        Tokens::Period => Some("(\\.)"),
        Tokens::AddAssign => Some("(\\+=)"),
        Tokens::SubAssign => Some("(\\-=)"),
        Tokens::MulAssign => Some("(\\*=)"),
        Tokens::DivAssign => Some("(/=)"),
        Tokens::ModAssign => Some("(%=)"),
        Tokens::BinaryShiftLeftAssign => Some("(<<=)"),
        Tokens::BinaryShiftRightAssign => Some("(>>=)"),
        Tokens::BinaryAndAssign => Some("(&=)"),
        Tokens::BinaryOrAssign => Some("(\\|=)"),
        Tokens::BinaryXorAssign => Some("(\\^=)"),
        Tokens::BinaryAnd => Some("(&)"),
        Tokens::BinaryOr => Some("(\\|)"),
        Tokens::BinaryNot => Some("(~)"),
        Tokens::BinaryXor => Some("(\\^)"),
        Tokens::BinaryShiftLeft => Some("(<<)"),
        Tokens::BinaryShiftRight => Some("(>>)"),
        Tokens::Break => Some("(break)($|[^_a-zA-Z0-9])"),
        Tokens::Case => Some("(case)($|[^_a-zA-Z0-9])"),
        Tokens::Char => Some("(char)($|[^_a-zA-Z0-9])"),
        Tokens::Const => Some("(const)($|[^_a-zA-Z0-9])"),
        Tokens::Continue => Some("(continue)($|[^_a-zA-Z0-9])"),
        Tokens::Default => Some("(default)($|[^_a-zA-Z0-9])"),
        Tokens::Do => Some("(do)($|[^_a-zA-Z0-9])"),
        Tokens::Double => Some("(double)($|[^_a-zA-Z0-9])"),
        Tokens::Else => Some("(else)($|[^_a-zA-Z0-9])"),
        Tokens::Enum => Some("(enum)($|[^_a-zA-Z0-9])"),
        Tokens::Extern => Some("(extern)($|[^_a-zA-Z0-9])"),
        Tokens::Float => Some("(float)($|[^_a-zA-Z0-9])"),
        Tokens::For => Some("(for)($|[^_a-zA-Z0-9])"),
        Tokens::Goto => Some("(goto)($|[^_a-zA-Z0-9])"),
        Tokens::If => Some("(if)($|[^_a-zA-Z0-9])"),
        Tokens::Int => Some("(int)($|[^_a-zA-Z0-9])"),
        Tokens::Long => Some("(long)($|[^_a-zA-Z0-9])"),
        Tokens::Register => Some("(register)($|[^_a-zA-Z0-9])"),
        Tokens::Return => Some("(return)($|[^_a-zA-Z0-9])"),
        Tokens::Short => Some("(short)($|[^_a-zA-Z0-9])"),
        Tokens::Signed => Some("(signed)($|[^_a-zA-Z0-9])"),
        Tokens::SizeOf => Some("(sizeof)($|[^_a-zA-Z0-9])"),
        Tokens::Static => Some("(static)($|[^_a-zA-Z0-9])"),
        Tokens::Struct => Some("(struct)($|[^_a-zA-Z0-9])"),
        Tokens::Switch => Some("(switch)($|[^_a-zA-Z0-9])"),
        Tokens::Typedef => Some("(typedef)($|[^_a-zA-Z0-9])"),
        Tokens::Union => Some("(union)($|[^_a-zA-Z0-9])"),
        Tokens::Unsigned => Some("(unsigned)($|[^_a-zA-Z0-9])"),
        Tokens::Void => Some("(void)($|[^_a-zA-Z0-9])"),
        Tokens::Volatile => Some("(volatile)($|[^_a-zA-Z0-9])"),
        Tokens::While => Some("(while)($|[^_a-zA-Z0-9])"),
        Tokens::Comma => Some("(,)"),
        Tokens::SemiColon => Some("(;)"),
        Tokens::Colon => Some("(:)"),
        Tokens::Question => Some("(\\?)"),
        Tokens::Apostrophe => Some("(')"),
        Tokens::Quotation => Some("(\")"),
        Tokens::Slash => Some("(/)"),
        Tokens::BackSlash => Some("(\\\\)"),
        Tokens::Dollar => Some("(\\$)"),
        Tokens::Percent => Some("(%)"),
        Tokens::LeftCurly => Some("(\\{)"),
        Tokens::RightCurly => Some("(})"),
        Tokens::LeftBracket => Some("(\\[)"),
        Tokens::RightBracket => Some("(])"),
        Tokens::LeftParen => Some("(\\()"),
        Tokens::RightParen => Some("(\\))"),
        Tokens::Plus => Some("(\\+)"),
        Tokens::Minus => Some("(-)"),
        Tokens::Asterisk => Some("(\\*)"),
        Tokens::Less => Some("(<)"),
        Tokens::Greater => Some("(>)"),
        Tokens::Hash => Some("(#)"),
        Tokens::Identifier => Some("([_a-zA-Z][a-zA-Z0-9_]*)"),
        Tokens::Whitespace => Some("([\\t\\v\\n\\f ]+)"),
        Tokens::Unknown => None,
    }
}

} // verus!
