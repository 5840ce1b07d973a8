use vstd::prelude::*;

verus! {

/// Every kind of token and node that can appear in a Nix syntax tree.
#[allow(non_camel_case_types)]
#[derive(Clone, Copy, Debug, PartialEq, Eq, Structural, Hash)]
pub enum SyntaxKind {
    // Trivia and errors
    TOKEN_COMMENT,
    TOKEN_ERROR,
    TOKEN_WHITESPACE,
    // Keywords
    TOKEN_ASSERT,
    TOKEN_ELSE,
    TOKEN_IF,
    TOKEN_IN,
    TOKEN_INHERIT,
    TOKEN_LET,
    TOKEN_REC,
    TOKEN_THEN,
    TOKEN_WITH,
    // Symbols
    TOKEN_CURLY_B_OPEN,
    TOKEN_CURLY_B_CLOSE,
    TOKEN_SQUARE_B_OPEN,
    TOKEN_SQUARE_B_CLOSE,
    TOKEN_ASSIGN,
    TOKEN_AT,
    TOKEN_COLON,
    TOKEN_COMMA,
    TOKEN_DOT,
    TOKEN_ELLIPSIS,
    TOKEN_QUESTION,
    TOKEN_SEMICOLON,
    // Operators
    TOKEN_PAREN_OPEN,
    TOKEN_PAREN_CLOSE,
    TOKEN_CONCAT,
    TOKEN_INVERT,
    TOKEN_UPDATE,
    TOKEN_ADD,
    TOKEN_SUB,
    TOKEN_MUL,
    TOKEN_DIV,
    TOKEN_AND,
    TOKEN_EQUAL,
    TOKEN_IMPLICATION,
    TOKEN_LESS,
    TOKEN_LESS_OR_EQ,
    TOKEN_MORE,
    TOKEN_MORE_OR_EQ,
    TOKEN_NOT_EQUAL,
    TOKEN_OR,
    // Identifiers and values
    TOKEN_DYNAMIC_END,
    TOKEN_DYNAMIC_START,
    TOKEN_FLOAT,
    TOKEN_IDENT,
    TOKEN_INTEGER,
    TOKEN_INTERPOL_END,
    TOKEN_INTERPOL_END_START,
    TOKEN_INTERPOL_START,
    TOKEN_PATH,
    TOKEN_STRING_CONTENT,
    TOKEN_STRING_END,
    TOKEN_STRING_START,
    TOKEN_URI,
    // Nodes
    NODE_APPLY,
    NODE_ASSERT,
    NODE_ATTRIBUTE,
    NODE_DYNAMIC,
    NODE_ERROR,
    NODE_IDENT,
    NODE_IF_ELSE,
    NODE_INDEX_SET,
    NODE_INHERIT,
    NODE_INHERIT_FROM,
    NODE_STRING,
    NODE_STRING_INTERPOL,
    NODE_LAMBDA,
    NODE_LET,
    NODE_LET_IN,
    NODE_LIST,
    NODE_OPERATION,
    NODE_OR_DEFAULT,
    NODE_PAREN,
    NODE_PATTERN,
    NODE_PAT_BIND,
    NODE_PAT_ENTRY,
    NODE_ROOT,
    NODE_SET,
    NODE_SET_ENTRY,
    NODE_UNARY,
    NODE_VALUE,
    NODE_WITH,
}

impl SyntaxKind {
    /// A comment, whitespace, or an unrecognized token: something a reader skips over.
    pub open spec fn spec_is_trivia(self) -> bool {
        self == SyntaxKind::TOKEN_COMMENT || self == SyntaxKind::TOKEN_ERROR
            || self == SyntaxKind::TOKEN_WHITESPACE
    }

    /// Returns true if this token is a comment, whitespace, or similar, and
    /// should be skipped over by the parser.
    #[verifier::when_used_as_spec(spec_is_trivia)]
    pub fn is_trivia(self) -> (r: bool)
        ensures
            r == self.spec_is_trivia(),
    {
        match self {
            SyntaxKind::TOKEN_COMMENT | SyntaxKind::TOKEN_ERROR | SyntaxKind::TOKEN_WHITESPACE => true,
            _ => false,
        }
    }

    /// The name under which a kind appears in a tree dump: the variant's own name.
    pub open spec fn spec_name(self) -> Seq<char> {
        match self {
            SyntaxKind::TOKEN_COMMENT => "TOKEN_COMMENT"@,
            SyntaxKind::TOKEN_ERROR => "TOKEN_ERROR"@,
            SyntaxKind::TOKEN_WHITESPACE => "TOKEN_WHITESPACE"@,
            SyntaxKind::TOKEN_ASSERT => "TOKEN_ASSERT"@,
            SyntaxKind::TOKEN_ELSE => "TOKEN_ELSE"@,
            SyntaxKind::TOKEN_IF => "TOKEN_IF"@,
            SyntaxKind::TOKEN_IN => "TOKEN_IN"@,
            SyntaxKind::TOKEN_INHERIT => "TOKEN_INHERIT"@,
            SyntaxKind::TOKEN_LET => "TOKEN_LET"@,
            SyntaxKind::TOKEN_REC => "TOKEN_REC"@,
            SyntaxKind::TOKEN_THEN => "TOKEN_THEN"@,
            SyntaxKind::TOKEN_WITH => "TOKEN_WITH"@,
            SyntaxKind::TOKEN_CURLY_B_OPEN => "TOKEN_CURLY_B_OPEN"@,
            SyntaxKind::TOKEN_CURLY_B_CLOSE => "TOKEN_CURLY_B_CLOSE"@,
            SyntaxKind::TOKEN_SQUARE_B_OPEN => "TOKEN_SQUARE_B_OPEN"@,
            SyntaxKind::TOKEN_SQUARE_B_CLOSE => "TOKEN_SQUARE_B_CLOSE"@,
            SyntaxKind::TOKEN_ASSIGN => "TOKEN_ASSIGN"@,
            SyntaxKind::TOKEN_AT => "TOKEN_AT"@,
            SyntaxKind::TOKEN_COLON => "TOKEN_COLON"@,
            SyntaxKind::TOKEN_COMMA => "TOKEN_COMMA"@,
            SyntaxKind::TOKEN_DOT => "TOKEN_DOT"@,
            SyntaxKind::TOKEN_ELLIPSIS => "TOKEN_ELLIPSIS"@,
            SyntaxKind::TOKEN_QUESTION => "TOKEN_QUESTION"@,
            SyntaxKind::TOKEN_SEMICOLON => "TOKEN_SEMICOLON"@,
            SyntaxKind::TOKEN_PAREN_OPEN => "TOKEN_PAREN_OPEN"@,
            SyntaxKind::TOKEN_PAREN_CLOSE => "TOKEN_PAREN_CLOSE"@,
            SyntaxKind::TOKEN_CONCAT => "TOKEN_CONCAT"@,
            SyntaxKind::TOKEN_INVERT => "TOKEN_INVERT"@,
            SyntaxKind::TOKEN_UPDATE => "TOKEN_UPDATE"@,
            SyntaxKind::TOKEN_ADD => "TOKEN_ADD"@,
            SyntaxKind::TOKEN_SUB => "TOKEN_SUB"@,
            SyntaxKind::TOKEN_MUL => "TOKEN_MUL"@,
            SyntaxKind::TOKEN_DIV => "TOKEN_DIV"@,
            SyntaxKind::TOKEN_AND => "TOKEN_AND"@,
            SyntaxKind::TOKEN_EQUAL => "TOKEN_EQUAL"@,
            SyntaxKind::TOKEN_IMPLICATION => "TOKEN_IMPLICATION"@,
            SyntaxKind::TOKEN_LESS => "TOKEN_LESS"@,
            SyntaxKind::TOKEN_LESS_OR_EQ => "TOKEN_LESS_OR_EQ"@,
            SyntaxKind::TOKEN_MORE => "TOKEN_MORE"@,
            SyntaxKind::TOKEN_MORE_OR_EQ => "TOKEN_MORE_OR_EQ"@,
            SyntaxKind::TOKEN_NOT_EQUAL => "TOKEN_NOT_EQUAL"@,
            SyntaxKind::TOKEN_OR => "TOKEN_OR"@,
            SyntaxKind::TOKEN_DYNAMIC_END => "TOKEN_DYNAMIC_END"@,
            SyntaxKind::TOKEN_DYNAMIC_START => "TOKEN_DYNAMIC_START"@,
            SyntaxKind::TOKEN_FLOAT => "TOKEN_FLOAT"@,
            SyntaxKind::TOKEN_IDENT => "TOKEN_IDENT"@,
            SyntaxKind::TOKEN_INTEGER => "TOKEN_INTEGER"@,
            SyntaxKind::TOKEN_INTERPOL_END => "TOKEN_INTERPOL_END"@,
            SyntaxKind::TOKEN_INTERPOL_END_START => "TOKEN_INTERPOL_END_START"@,
            SyntaxKind::TOKEN_INTERPOL_START => "TOKEN_INTERPOL_START"@,
            SyntaxKind::TOKEN_PATH => "TOKEN_PATH"@,
            SyntaxKind::TOKEN_STRING_CONTENT => "TOKEN_STRING_CONTENT"@,
            SyntaxKind::TOKEN_STRING_END => "TOKEN_STRING_END"@,
            SyntaxKind::TOKEN_STRING_START => "TOKEN_STRING_START"@,
            SyntaxKind::TOKEN_URI => "TOKEN_URI"@,
            SyntaxKind::NODE_APPLY => "NODE_APPLY"@,
            SyntaxKind::NODE_ASSERT => "NODE_ASSERT"@,
            SyntaxKind::NODE_ATTRIBUTE => "NODE_ATTRIBUTE"@,
            SyntaxKind::NODE_DYNAMIC => "NODE_DYNAMIC"@,
            SyntaxKind::NODE_ERROR => "NODE_ERROR"@,
            SyntaxKind::NODE_IDENT => "NODE_IDENT"@,
            SyntaxKind::NODE_IF_ELSE => "NODE_IF_ELSE"@,
            SyntaxKind::NODE_INDEX_SET => "NODE_INDEX_SET"@,
            SyntaxKind::NODE_INHERIT => "NODE_INHERIT"@,
            SyntaxKind::NODE_INHERIT_FROM => "NODE_INHERIT_FROM"@,
            SyntaxKind::NODE_STRING => "NODE_STRING"@,
            SyntaxKind::NODE_STRING_INTERPOL => "NODE_STRING_INTERPOL"@,
            SyntaxKind::NODE_LAMBDA => "NODE_LAMBDA"@,
            SyntaxKind::NODE_LET => "NODE_LET"@,
            SyntaxKind::NODE_LET_IN => "NODE_LET_IN"@,
            SyntaxKind::NODE_LIST => "NODE_LIST"@,
            SyntaxKind::NODE_OPERATION => "NODE_OPERATION"@,
            SyntaxKind::NODE_OR_DEFAULT => "NODE_OR_DEFAULT"@,
            SyntaxKind::NODE_PAREN => "NODE_PAREN"@,
            SyntaxKind::NODE_PATTERN => "NODE_PATTERN"@,
            SyntaxKind::NODE_PAT_BIND => "NODE_PAT_BIND"@,
            SyntaxKind::NODE_PAT_ENTRY => "NODE_PAT_ENTRY"@,
            SyntaxKind::NODE_ROOT => "NODE_ROOT"@,
            SyntaxKind::NODE_SET => "NODE_SET"@,
            SyntaxKind::NODE_SET_ENTRY => "NODE_SET_ENTRY"@,
            SyntaxKind::NODE_UNARY => "NODE_UNARY"@,
            SyntaxKind::NODE_VALUE => "NODE_VALUE"@,
            SyntaxKind::NODE_WITH => "NODE_WITH"@,
        }
    }

    /// The name of this kind, as it appears in a tree dump.
    pub fn name(self) -> (r: &'static str)
        ensures
            r@ == self.spec_name(),
    {
        match self {
            SyntaxKind::TOKEN_COMMENT => "TOKEN_COMMENT",
            SyntaxKind::TOKEN_ERROR => "TOKEN_ERROR",
            SyntaxKind::TOKEN_WHITESPACE => "TOKEN_WHITESPACE",
            SyntaxKind::TOKEN_ASSERT => "TOKEN_ASSERT",
            SyntaxKind::TOKEN_ELSE => "TOKEN_ELSE",
            SyntaxKind::TOKEN_IF => "TOKEN_IF",
            SyntaxKind::TOKEN_IN => "TOKEN_IN",
            SyntaxKind::TOKEN_INHERIT => "TOKEN_INHERIT",
            SyntaxKind::TOKEN_LET => "TOKEN_LET",
            SyntaxKind::TOKEN_REC => "TOKEN_REC",
            SyntaxKind::TOKEN_THEN => "TOKEN_THEN",
            SyntaxKind::TOKEN_WITH => "TOKEN_WITH",
            SyntaxKind::TOKEN_CURLY_B_OPEN => "TOKEN_CURLY_B_OPEN",
            SyntaxKind::TOKEN_CURLY_B_CLOSE => "TOKEN_CURLY_B_CLOSE",
            SyntaxKind::TOKEN_SQUARE_B_OPEN => "TOKEN_SQUARE_B_OPEN",
            SyntaxKind::TOKEN_SQUARE_B_CLOSE => "TOKEN_SQUARE_B_CLOSE",
            SyntaxKind::TOKEN_ASSIGN => "TOKEN_ASSIGN",
            SyntaxKind::TOKEN_AT => "TOKEN_AT",
            SyntaxKind::TOKEN_COLON => "TOKEN_COLON",
            SyntaxKind::TOKEN_COMMA => "TOKEN_COMMA",
            SyntaxKind::TOKEN_DOT => "TOKEN_DOT",
            SyntaxKind::TOKEN_ELLIPSIS => "TOKEN_ELLIPSIS",
            SyntaxKind::TOKEN_QUESTION => "TOKEN_QUESTION",
            SyntaxKind::TOKEN_SEMICOLON => "TOKEN_SEMICOLON",
            SyntaxKind::TOKEN_PAREN_OPEN => "TOKEN_PAREN_OPEN",
            SyntaxKind::TOKEN_PAREN_CLOSE => "TOKEN_PAREN_CLOSE",
            SyntaxKind::TOKEN_CONCAT => "TOKEN_CONCAT",
            SyntaxKind::TOKEN_INVERT => "TOKEN_INVERT",
            SyntaxKind::TOKEN_UPDATE => "TOKEN_UPDATE",
            SyntaxKind::TOKEN_ADD => "TOKEN_ADD",
            SyntaxKind::TOKEN_SUB => "TOKEN_SUB",
            SyntaxKind::TOKEN_MUL => "TOKEN_MUL",
            SyntaxKind::TOKEN_DIV => "TOKEN_DIV",
            SyntaxKind::TOKEN_AND => "TOKEN_AND",
            SyntaxKind::TOKEN_EQUAL => "TOKEN_EQUAL",
            SyntaxKind::TOKEN_IMPLICATION => "TOKEN_IMPLICATION",
            SyntaxKind::TOKEN_LESS => "TOKEN_LESS",
            SyntaxKind::TOKEN_LESS_OR_EQ => "TOKEN_LESS_OR_EQ",
            SyntaxKind::TOKEN_MORE => "TOKEN_MORE",
            SyntaxKind::TOKEN_MORE_OR_EQ => "TOKEN_MORE_OR_EQ",
            SyntaxKind::TOKEN_NOT_EQUAL => "TOKEN_NOT_EQUAL",
            SyntaxKind::TOKEN_OR => "TOKEN_OR",
            SyntaxKind::TOKEN_DYNAMIC_END => "TOKEN_DYNAMIC_END",
            SyntaxKind::TOKEN_DYNAMIC_START => "TOKEN_DYNAMIC_START",
            SyntaxKind::TOKEN_FLOAT => "TOKEN_FLOAT",
            SyntaxKind::TOKEN_IDENT => "TOKEN_IDENT",
            SyntaxKind::TOKEN_INTEGER => "TOKEN_INTEGER",
            SyntaxKind::TOKEN_INTERPOL_END => "TOKEN_INTERPOL_END",
            SyntaxKind::TOKEN_INTERPOL_END_START => "TOKEN_INTERPOL_END_START",
            SyntaxKind::TOKEN_INTERPOL_START => "TOKEN_INTERPOL_START",
            SyntaxKind::TOKEN_PATH => "TOKEN_PATH",
            SyntaxKind::TOKEN_STRING_CONTENT => "TOKEN_STRING_CONTENT",
            SyntaxKind::TOKEN_STRING_END => "TOKEN_STRING_END",
            SyntaxKind::TOKEN_STRING_START => "TOKEN_STRING_START",
            SyntaxKind::TOKEN_URI => "TOKEN_URI",
            SyntaxKind::NODE_APPLY => "NODE_APPLY",
            SyntaxKind::NODE_ASSERT => "NODE_ASSERT",
            SyntaxKind::NODE_ATTRIBUTE => "NODE_ATTRIBUTE",
            SyntaxKind::NODE_DYNAMIC => "NODE_DYNAMIC",
            SyntaxKind::NODE_ERROR => "NODE_ERROR",
            SyntaxKind::NODE_IDENT => "NODE_IDENT",
            SyntaxKind::NODE_IF_ELSE => "NODE_IF_ELSE",
            SyntaxKind::NODE_INDEX_SET => "NODE_INDEX_SET",
            SyntaxKind::NODE_INHERIT => "NODE_INHERIT",
            SyntaxKind::NODE_INHERIT_FROM => "NODE_INHERIT_FROM",
            SyntaxKind::NODE_STRING => "NODE_STRING",
            SyntaxKind::NODE_STRING_INTERPOL => "NODE_STRING_INTERPOL",
            SyntaxKind::NODE_LAMBDA => "NODE_LAMBDA",
            SyntaxKind::NODE_LET => "NODE_LET",
            SyntaxKind::NODE_LET_IN => "NODE_LET_IN",
            SyntaxKind::NODE_LIST => "NODE_LIST",
            SyntaxKind::NODE_OPERATION => "NODE_OPERATION",
            SyntaxKind::NODE_OR_DEFAULT => "NODE_OR_DEFAULT",
            SyntaxKind::NODE_PAREN => "NODE_PAREN",
            SyntaxKind::NODE_PATTERN => "NODE_PATTERN",
            SyntaxKind::NODE_PAT_BIND => "NODE_PAT_BIND",
            SyntaxKind::NODE_PAT_ENTRY => "NODE_PAT_ENTRY",
            SyntaxKind::NODE_ROOT => "NODE_ROOT",
            SyntaxKind::NODE_SET => "NODE_SET",
            SyntaxKind::NODE_SET_ENTRY => "NODE_SET_ENTRY",
            SyntaxKind::NODE_UNARY => "NODE_UNARY",
            SyntaxKind::NODE_VALUE => "NODE_VALUE",
            SyntaxKind::NODE_WITH => "NODE_WITH",
        }
    }
}

/// Kind names are single words: no line feed in them.
pub proof fn lemma_name_has_no_line_feed(k: SyntaxKind)
    ensures
        forall|i: int| 0 <= i < k.spec_name().len() ==> k.spec_name()[i] != '\n',
{
    match k {
        SyntaxKind::TOKEN_COMMENT => reveal_strlit("TOKEN_COMMENT"),
        SyntaxKind::TOKEN_ERROR => reveal_strlit("TOKEN_ERROR"),
        SyntaxKind::TOKEN_WHITESPACE => reveal_strlit("TOKEN_WHITESPACE"),
        SyntaxKind::TOKEN_ASSERT => reveal_strlit("TOKEN_ASSERT"),
        SyntaxKind::TOKEN_ELSE => reveal_strlit("TOKEN_ELSE"),
        SyntaxKind::TOKEN_IF => reveal_strlit("TOKEN_IF"),
        SyntaxKind::TOKEN_IN => reveal_strlit("TOKEN_IN"),
        SyntaxKind::TOKEN_INHERIT => reveal_strlit("TOKEN_INHERIT"),
        SyntaxKind::TOKEN_LET => reveal_strlit("TOKEN_LET"),
        SyntaxKind::TOKEN_REC => reveal_strlit("TOKEN_REC"),
        SyntaxKind::TOKEN_THEN => reveal_strlit("TOKEN_THEN"),
        SyntaxKind::TOKEN_WITH => reveal_strlit("TOKEN_WITH"),
        SyntaxKind::TOKEN_CURLY_B_OPEN => reveal_strlit("TOKEN_CURLY_B_OPEN"),
        SyntaxKind::TOKEN_CURLY_B_CLOSE => reveal_strlit("TOKEN_CURLY_B_CLOSE"),
        SyntaxKind::TOKEN_SQUARE_B_OPEN => reveal_strlit("TOKEN_SQUARE_B_OPEN"),
        SyntaxKind::TOKEN_SQUARE_B_CLOSE => reveal_strlit("TOKEN_SQUARE_B_CLOSE"),
        SyntaxKind::TOKEN_ASSIGN => reveal_strlit("TOKEN_ASSIGN"),
        SyntaxKind::TOKEN_AT => reveal_strlit("TOKEN_AT"),
        SyntaxKind::TOKEN_COLON => reveal_strlit("TOKEN_COLON"),
        SyntaxKind::TOKEN_COMMA => reveal_strlit("TOKEN_COMMA"),
        SyntaxKind::TOKEN_DOT => reveal_strlit("TOKEN_DOT"),
        SyntaxKind::TOKEN_ELLIPSIS => reveal_strlit("TOKEN_ELLIPSIS"),
        SyntaxKind::TOKEN_QUESTION => reveal_strlit("TOKEN_QUESTION"),
        SyntaxKind::TOKEN_SEMICOLON => reveal_strlit("TOKEN_SEMICOLON"),
        SyntaxKind::TOKEN_PAREN_OPEN => reveal_strlit("TOKEN_PAREN_OPEN"),
        SyntaxKind::TOKEN_PAREN_CLOSE => reveal_strlit("TOKEN_PAREN_CLOSE"),
        SyntaxKind::TOKEN_CONCAT => reveal_strlit("TOKEN_CONCAT"),
        SyntaxKind::TOKEN_INVERT => reveal_strlit("TOKEN_INVERT"),
        SyntaxKind::TOKEN_UPDATE => reveal_strlit("TOKEN_UPDATE"),
        SyntaxKind::TOKEN_ADD => reveal_strlit("TOKEN_ADD"),
        SyntaxKind::TOKEN_SUB => reveal_strlit("TOKEN_SUB"),
        SyntaxKind::TOKEN_MUL => reveal_strlit("TOKEN_MUL"),
        SyntaxKind::TOKEN_DIV => reveal_strlit("TOKEN_DIV"),
        SyntaxKind::TOKEN_AND => reveal_strlit("TOKEN_AND"),
        SyntaxKind::TOKEN_EQUAL => reveal_strlit("TOKEN_EQUAL"),
        SyntaxKind::TOKEN_IMPLICATION => reveal_strlit("TOKEN_IMPLICATION"),
        SyntaxKind::TOKEN_LESS => reveal_strlit("TOKEN_LESS"),
        SyntaxKind::TOKEN_LESS_OR_EQ => reveal_strlit("TOKEN_LESS_OR_EQ"),
        SyntaxKind::TOKEN_MORE => reveal_strlit("TOKEN_MORE"),
        SyntaxKind::TOKEN_MORE_OR_EQ => reveal_strlit("TOKEN_MORE_OR_EQ"),
        SyntaxKind::TOKEN_NOT_EQUAL => reveal_strlit("TOKEN_NOT_EQUAL"),
        SyntaxKind::TOKEN_OR => reveal_strlit("TOKEN_OR"),
        SyntaxKind::TOKEN_DYNAMIC_END => reveal_strlit("TOKEN_DYNAMIC_END"),
        SyntaxKind::TOKEN_DYNAMIC_START => reveal_strlit("TOKEN_DYNAMIC_START"),
        SyntaxKind::TOKEN_FLOAT => reveal_strlit("TOKEN_FLOAT"),
        SyntaxKind::TOKEN_IDENT => reveal_strlit("TOKEN_IDENT"),
        SyntaxKind::TOKEN_INTEGER => reveal_strlit("TOKEN_INTEGER"),
        SyntaxKind::TOKEN_INTERPOL_END => reveal_strlit("TOKEN_INTERPOL_END"),
        SyntaxKind::TOKEN_INTERPOL_END_START => reveal_strlit("TOKEN_INTERPOL_END_START"),
        SyntaxKind::TOKEN_INTERPOL_START => reveal_strlit("TOKEN_INTERPOL_START"),
        SyntaxKind::TOKEN_PATH => reveal_strlit("TOKEN_PATH"),
        SyntaxKind::TOKEN_STRING_CONTENT => reveal_strlit("TOKEN_STRING_CONTENT"),
        SyntaxKind::TOKEN_STRING_END => reveal_strlit("TOKEN_STRING_END"),
        SyntaxKind::TOKEN_STRING_START => reveal_strlit("TOKEN_STRING_START"),
        SyntaxKind::TOKEN_URI => reveal_strlit("TOKEN_URI"),
        SyntaxKind::NODE_APPLY => reveal_strlit("NODE_APPLY"),
        SyntaxKind::NODE_ASSERT => reveal_strlit("NODE_ASSERT"),
        SyntaxKind::NODE_ATTRIBUTE => reveal_strlit("NODE_ATTRIBUTE"),
        SyntaxKind::NODE_DYNAMIC => reveal_strlit("NODE_DYNAMIC"),
        SyntaxKind::NODE_ERROR => reveal_strlit("NODE_ERROR"),
        SyntaxKind::NODE_IDENT => reveal_strlit("NODE_IDENT"),
        SyntaxKind::NODE_IF_ELSE => reveal_strlit("NODE_IF_ELSE"),
        SyntaxKind::NODE_INDEX_SET => reveal_strlit("NODE_INDEX_SET"),
        SyntaxKind::NODE_INHERIT => reveal_strlit("NODE_INHERIT"),
        SyntaxKind::NODE_INHERIT_FROM => reveal_strlit("NODE_INHERIT_FROM"),
        SyntaxKind::NODE_STRING => reveal_strlit("NODE_STRING"),
        SyntaxKind::NODE_STRING_INTERPOL => reveal_strlit("NODE_STRING_INTERPOL"),
        SyntaxKind::NODE_LAMBDA => reveal_strlit("NODE_LAMBDA"),
        SyntaxKind::NODE_LET => reveal_strlit("NODE_LET"),
        SyntaxKind::NODE_LET_IN => reveal_strlit("NODE_LET_IN"),
        SyntaxKind::NODE_LIST => reveal_strlit("NODE_LIST"),
        SyntaxKind::NODE_OPERATION => reveal_strlit("NODE_OPERATION"),
        SyntaxKind::NODE_OR_DEFAULT => reveal_strlit("NODE_OR_DEFAULT"),
        SyntaxKind::NODE_PAREN => reveal_strlit("NODE_PAREN"),
        SyntaxKind::NODE_PATTERN => reveal_strlit("NODE_PATTERN"),
        SyntaxKind::NODE_PAT_BIND => reveal_strlit("NODE_PAT_BIND"),
        SyntaxKind::NODE_PAT_ENTRY => reveal_strlit("NODE_PAT_ENTRY"),
        SyntaxKind::NODE_ROOT => reveal_strlit("NODE_ROOT"),
        SyntaxKind::NODE_SET => reveal_strlit("NODE_SET"),
        SyntaxKind::NODE_SET_ENTRY => reveal_strlit("NODE_SET_ENTRY"),
        SyntaxKind::NODE_UNARY => reveal_strlit("NODE_UNARY"),
        SyntaxKind::NODE_VALUE => reveal_strlit("NODE_VALUE"),
        SyntaxKind::NODE_WITH => reveal_strlit("NODE_WITH"),
    }
}

/// Kind names are printable ASCII.
pub proof fn lemma_name_is_printable_ascii(k: SyntaxKind)
    ensures
        forall|i: int| 0 <= i < k.spec_name().len() ==> 0x20 <= (#[trigger] k.spec_name()[i] as u32) <= 0x7e,
{
    match k {
        SyntaxKind::TOKEN_COMMENT => reveal_strlit("TOKEN_COMMENT"),
        SyntaxKind::TOKEN_ERROR => reveal_strlit("TOKEN_ERROR"),
        SyntaxKind::TOKEN_WHITESPACE => reveal_strlit("TOKEN_WHITESPACE"),
        SyntaxKind::TOKEN_ASSERT => reveal_strlit("TOKEN_ASSERT"),
        SyntaxKind::TOKEN_ELSE => reveal_strlit("TOKEN_ELSE"),
        SyntaxKind::TOKEN_IF => reveal_strlit("TOKEN_IF"),
        SyntaxKind::TOKEN_IN => reveal_strlit("TOKEN_IN"),
        SyntaxKind::TOKEN_INHERIT => reveal_strlit("TOKEN_INHERIT"),
        SyntaxKind::TOKEN_LET => reveal_strlit("TOKEN_LET"),
        SyntaxKind::TOKEN_REC => reveal_strlit("TOKEN_REC"),
        SyntaxKind::TOKEN_THEN => reveal_strlit("TOKEN_THEN"),
        SyntaxKind::TOKEN_WITH => reveal_strlit("TOKEN_WITH"),
        SyntaxKind::TOKEN_CURLY_B_OPEN => reveal_strlit("TOKEN_CURLY_B_OPEN"),
        SyntaxKind::TOKEN_CURLY_B_CLOSE => reveal_strlit("TOKEN_CURLY_B_CLOSE"),
        SyntaxKind::TOKEN_SQUARE_B_OPEN => reveal_strlit("TOKEN_SQUARE_B_OPEN"),
        SyntaxKind::TOKEN_SQUARE_B_CLOSE => reveal_strlit("TOKEN_SQUARE_B_CLOSE"),
        SyntaxKind::TOKEN_ASSIGN => reveal_strlit("TOKEN_ASSIGN"),
        SyntaxKind::TOKEN_AT => reveal_strlit("TOKEN_AT"),
        SyntaxKind::TOKEN_COLON => reveal_strlit("TOKEN_COLON"),
        SyntaxKind::TOKEN_COMMA => reveal_strlit("TOKEN_COMMA"),
        SyntaxKind::TOKEN_DOT => reveal_strlit("TOKEN_DOT"),
        SyntaxKind::TOKEN_ELLIPSIS => reveal_strlit("TOKEN_ELLIPSIS"),
        SyntaxKind::TOKEN_QUESTION => reveal_strlit("TOKEN_QUESTION"),
        SyntaxKind::TOKEN_SEMICOLON => reveal_strlit("TOKEN_SEMICOLON"),
        SyntaxKind::TOKEN_PAREN_OPEN => reveal_strlit("TOKEN_PAREN_OPEN"),
        SyntaxKind::TOKEN_PAREN_CLOSE => reveal_strlit("TOKEN_PAREN_CLOSE"),
        SyntaxKind::TOKEN_CONCAT => reveal_strlit("TOKEN_CONCAT"),
        SyntaxKind::TOKEN_INVERT => reveal_strlit("TOKEN_INVERT"),
        SyntaxKind::TOKEN_UPDATE => reveal_strlit("TOKEN_UPDATE"),
        SyntaxKind::TOKEN_ADD => reveal_strlit("TOKEN_ADD"),
        SyntaxKind::TOKEN_SUB => reveal_strlit("TOKEN_SUB"),
        SyntaxKind::TOKEN_MUL => reveal_strlit("TOKEN_MUL"),
        SyntaxKind::TOKEN_DIV => reveal_strlit("TOKEN_DIV"),
        SyntaxKind::TOKEN_AND => reveal_strlit("TOKEN_AND"),
        SyntaxKind::TOKEN_EQUAL => reveal_strlit("TOKEN_EQUAL"),
        SyntaxKind::TOKEN_IMPLICATION => reveal_strlit("TOKEN_IMPLICATION"),
        SyntaxKind::TOKEN_LESS => reveal_strlit("TOKEN_LESS"),
        SyntaxKind::TOKEN_LESS_OR_EQ => reveal_strlit("TOKEN_LESS_OR_EQ"),
        SyntaxKind::TOKEN_MORE => reveal_strlit("TOKEN_MORE"),
        SyntaxKind::TOKEN_MORE_OR_EQ => reveal_strlit("TOKEN_MORE_OR_EQ"),
        SyntaxKind::TOKEN_NOT_EQUAL => reveal_strlit("TOKEN_NOT_EQUAL"),
        SyntaxKind::TOKEN_OR => reveal_strlit("TOKEN_OR"),
        SyntaxKind::TOKEN_DYNAMIC_END => reveal_strlit("TOKEN_DYNAMIC_END"),
        SyntaxKind::TOKEN_DYNAMIC_START => reveal_strlit("TOKEN_DYNAMIC_START"),
        SyntaxKind::TOKEN_FLOAT => reveal_strlit("TOKEN_FLOAT"),
        SyntaxKind::TOKEN_IDENT => reveal_strlit("TOKEN_IDENT"),
        SyntaxKind::TOKEN_INTEGER => reveal_strlit("TOKEN_INTEGER"),
        SyntaxKind::TOKEN_INTERPOL_END => reveal_strlit("TOKEN_INTERPOL_END"),
        SyntaxKind::TOKEN_INTERPOL_END_START => reveal_strlit("TOKEN_INTERPOL_END_START"),
        SyntaxKind::TOKEN_INTERPOL_START => reveal_strlit("TOKEN_INTERPOL_START"),
        SyntaxKind::TOKEN_PATH => reveal_strlit("TOKEN_PATH"),
        SyntaxKind::TOKEN_STRING_CONTENT => reveal_strlit("TOKEN_STRING_CONTENT"),
        SyntaxKind::TOKEN_STRING_END => reveal_strlit("TOKEN_STRING_END"),
        SyntaxKind::TOKEN_STRING_START => reveal_strlit("TOKEN_STRING_START"),
        SyntaxKind::TOKEN_URI => reveal_strlit("TOKEN_URI"),
        SyntaxKind::NODE_APPLY => reveal_strlit("NODE_APPLY"),
        SyntaxKind::NODE_ASSERT => reveal_strlit("NODE_ASSERT"),
        SyntaxKind::NODE_ATTRIBUTE => reveal_strlit("NODE_ATTRIBUTE"),
        SyntaxKind::NODE_DYNAMIC => reveal_strlit("NODE_DYNAMIC"),
        SyntaxKind::NODE_ERROR => reveal_strlit("NODE_ERROR"),
        SyntaxKind::NODE_IDENT => reveal_strlit("NODE_IDENT"),
        SyntaxKind::NODE_IF_ELSE => reveal_strlit("NODE_IF_ELSE"),
        SyntaxKind::NODE_INDEX_SET => reveal_strlit("NODE_INDEX_SET"),
        SyntaxKind::NODE_INHERIT => reveal_strlit("NODE_INHERIT"),
        SyntaxKind::NODE_INHERIT_FROM => reveal_strlit("NODE_INHERIT_FROM"),
        SyntaxKind::NODE_STRING => reveal_strlit("NODE_STRING"),
        SyntaxKind::NODE_STRING_INTERPOL => reveal_strlit("NODE_STRING_INTERPOL"),
        SyntaxKind::NODE_LAMBDA => reveal_strlit("NODE_LAMBDA"),
        SyntaxKind::NODE_LET => reveal_strlit("NODE_LET"),
        SyntaxKind::NODE_LET_IN => reveal_strlit("NODE_LET_IN"),
        SyntaxKind::NODE_LIST => reveal_strlit("NODE_LIST"),
        SyntaxKind::NODE_OPERATION => reveal_strlit("NODE_OPERATION"),
        SyntaxKind::NODE_OR_DEFAULT => reveal_strlit("NODE_OR_DEFAULT"),
        SyntaxKind::NODE_PAREN => reveal_strlit("NODE_PAREN"),
        SyntaxKind::NODE_PATTERN => reveal_strlit("NODE_PATTERN"),
        SyntaxKind::NODE_PAT_BIND => reveal_strlit("NODE_PAT_BIND"),
        SyntaxKind::NODE_PAT_ENTRY => reveal_strlit("NODE_PAT_ENTRY"),
        SyntaxKind::NODE_ROOT => reveal_strlit("NODE_ROOT"),
        SyntaxKind::NODE_SET => reveal_strlit("NODE_SET"),
        SyntaxKind::NODE_SET_ENTRY => reveal_strlit("NODE_SET_ENTRY"),
        SyntaxKind::NODE_UNARY => reveal_strlit("NODE_UNARY"),
        SyntaxKind::NODE_VALUE => reveal_strlit("NODE_VALUE"),
        SyntaxKind::NODE_WITH => reveal_strlit("NODE_WITH"),
    }
}

} // verus!
