use std::rc::Rc;

use rnix::dump::TextDump;
use rnix::kinds::SyntaxKind;
use rnix::tree::{GreenElement, GreenNode, GreenToken, SyntaxElement, SyntaxNode, TextRange};
use rnix::types::{
    tokens, Apply, AttrSet, EntryHolder, Ident, Inherit, LetIn, List, OpKind, Operation, OrDefault,
    Paren, ParsedType, ParsedTypeError, PatEntry, Pattern, Root, SetEntry, TokenWrapper, TypedNode,
    Unary, UnaryOpKind, Value, Wrapper,
};

fn tok(kind: SyntaxKind, text: &str) -> GreenElement {
    GreenElement::Token(Rc::new(GreenToken::new(kind, text.to_string())))
}

fn node(kind: SyntaxKind, children: Vec<GreenElement>) -> GreenElement {
    GreenElement::Node(Rc::new(GreenNode::new(kind, children).unwrap()))
}

fn root(children: Vec<GreenElement>) -> SyntaxNode {
    SyntaxNode::new_root(GreenNode::new(SyntaxKind::NODE_ROOT, children).unwrap())
}

fn value(text: &str) -> GreenElement {
    node(SyntaxKind::NODE_VALUE, vec![tok(SyntaxKind::TOKEN_INTEGER, text)])
}

fn ident(text: &str) -> GreenElement {
    node(SyntaxKind::NODE_IDENT, vec![tok(SyntaxKind::TOKEN_IDENT, text)])
}

/// `1 + 2`
fn one_plus_two() -> SyntaxNode {
    root(vec![node(
        SyntaxKind::NODE_OPERATION,
        vec![
            value("1"),
            tok(SyntaxKind::TOKEN_WHITESPACE, " "),
            tok(SyntaxKind::TOKEN_ADD, "+"),
            tok(SyntaxKind::TOKEN_WHITESPACE, " "),
            value("2"),
        ],
    )])
}

fn only_child(n: &SyntaxNode) -> SyntaxNode {
    let mut cs = n.children();
    assert_eq!(cs.len(), 1);
    cs.remove(0)
}

#[test]
fn op_kind_from_token_maps_each_operator_token() {
    let table = [
        (SyntaxKind::TOKEN_CONCAT, OpKind::Concat),
        (SyntaxKind::TOKEN_QUESTION, OpKind::IsSet),
        (SyntaxKind::TOKEN_UPDATE, OpKind::Update),
        (SyntaxKind::TOKEN_ADD, OpKind::Add),
        (SyntaxKind::TOKEN_SUB, OpKind::Sub),
        (SyntaxKind::TOKEN_MUL, OpKind::Mul),
        (SyntaxKind::TOKEN_DIV, OpKind::Div),
        (SyntaxKind::TOKEN_AND, OpKind::And),
        (SyntaxKind::TOKEN_EQUAL, OpKind::Equal),
        (SyntaxKind::TOKEN_IMPLICATION, OpKind::Implication),
        (SyntaxKind::TOKEN_LESS, OpKind::Less),
        (SyntaxKind::TOKEN_LESS_OR_EQ, OpKind::LessOrEq),
        (SyntaxKind::TOKEN_MORE, OpKind::More),
        (SyntaxKind::TOKEN_MORE_OR_EQ, OpKind::MoreOrEq),
        (SyntaxKind::TOKEN_NOT_EQUAL, OpKind::NotEqual),
        (SyntaxKind::TOKEN_OR, OpKind::Or),
    ];
    for (token, op) in table.iter() {
        assert_eq!(OpKind::from_token(*token), Some(*op));
    }
}

#[test]
fn op_kind_from_token_rejects_other_tokens() {
    for token in [
        SyntaxKind::TOKEN_INVERT,
        SyntaxKind::TOKEN_ASSIGN,
        SyntaxKind::TOKEN_WHITESPACE,
        SyntaxKind::NODE_OPERATION,
        SyntaxKind::TOKEN_DOT,
    ] {
        assert_eq!(OpKind::from_token(token), None);
    }
}

#[test]
fn unary_op_kind_from_token() {
    assert_eq!(UnaryOpKind::from_token(SyntaxKind::TOKEN_INVERT), Some(UnaryOpKind::Invert));
    assert_eq!(UnaryOpKind::from_token(SyntaxKind::TOKEN_SUB), Some(UnaryOpKind::Negate));
    assert_eq!(UnaryOpKind::from_token(SyntaxKind::TOKEN_ADD), None);
    assert_eq!(UnaryOpKind::from_token(SyntaxKind::NODE_UNARY), None);
}

#[test]
fn sub_token_is_both_binary_and_unary() {
    assert_eq!(OpKind::from_token(SyntaxKind::TOKEN_SUB), Some(OpKind::Sub));
    assert_eq!(UnaryOpKind::from_token(SyntaxKind::TOKEN_SUB), Some(UnaryOpKind::Negate));
}

#[test]
fn trivia_kinds() {
    assert!(SyntaxKind::TOKEN_WHITESPACE.is_trivia());
    assert!(SyntaxKind::TOKEN_COMMENT.is_trivia());
    assert!(SyntaxKind::TOKEN_ERROR.is_trivia());
    assert!(!SyntaxKind::TOKEN_ADD.is_trivia());
    assert!(!SyntaxKind::NODE_ROOT.is_trivia());
}

#[test]
fn children_are_placed_one_after_another() {
    let r = one_plus_two();
    assert_eq!(r.text_range(), TextRange { start: 0, end: 5 });
    let op = only_child(&r);
    assert_eq!(op.kind(), SyntaxKind::NODE_OPERATION);
    let all = op.children_with_tokens();
    let ranges: Vec<(usize, usize)> = all
        .iter()
        .map(|e| {
            let r = e.text_range();
            (r.start, r.end)
        })
        .collect();
    assert_eq!(ranges, vec![(0, 1), (1, 2), (2, 3), (3, 4), (4, 5)]);
    assert_eq!(op.children().len(), 2);
    assert_eq!(op.children()[1].text_range(), TextRange { start: 4, end: 5 });
}

#[test]
fn ranges_count_utf8_bytes() {
    let r = root(vec![
        node(SyntaxKind::NODE_STRING, vec![tok(SyntaxKind::TOKEN_STRING_CONTENT, "é€")]),
        tok(SyntaxKind::TOKEN_WHITESPACE, "\n"),
    ]);
    assert_eq!(r.text_range(), TextRange { start: 0, end: 6 });
    let all = r.children_with_tokens();
    assert_eq!(all[1].text_range(), TextRange { start: 5, end: 6 });
}

#[test]
fn tokens_skip_trivia_and_nodes() {
    let op = only_child(&one_plus_two());
    let ts = tokens(&op);
    assert_eq!(ts.len(), 1);
    assert_eq!(ts[0].kind(), SyntaxKind::TOKEN_ADD);
    assert_eq!(ts[0].text(), "+");
    assert_eq!(ts[0].text_range(), TextRange { start: 2, end: 3 });
}

#[test]
fn operation_accessors() {
    let op = Operation::cast(only_child(&one_plus_two())).unwrap();
    assert_eq!(op.operator(), OpKind::Add);
    let v1 = Value::cast(op.value1().unwrap()).unwrap();
    let v2 = Value::cast(op.value2().unwrap()).unwrap();
    assert_eq!(v1.as_str(), "1");
    assert_eq!(v2.as_str(), "2");
    assert_eq!(op.first_token().unwrap().text(), "+");
}

#[test]
fn unary_operator() {
    let r = root(vec![node(
        SyntaxKind::NODE_UNARY,
        vec![tok(SyntaxKind::TOKEN_SUB, "-"), value("3")],
    )]);
    let u = Unary::cast(only_child(&r)).unwrap();
    assert_eq!(u.operator(), UnaryOpKind::Negate);
    assert_eq!(u.value().unwrap().kind(), SyntaxKind::NODE_VALUE);
}

#[test]
fn cast_checks_the_kind() {
    let r = one_plus_two();
    let op = only_child(&r);
    assert!(Operation::cast(op.clone_node()).is_some());
    assert!(Apply::cast(op.clone_node()).is_none());
    assert!(Value::cast(op.clone_node()).is_none());
    let root = Root::cast(r).unwrap();
    assert_eq!(root.node().kind(), SyntaxKind::NODE_ROOT);
    assert_eq!(root.inner().unwrap().kind(), SyntaxKind::NODE_OPERATION);
}

#[test]
fn parsed_type_by_kind() {
    let op = only_child(&one_plus_two());
    match ParsedType::try_from(op) {
        Ok(ParsedType::Operation(o)) => assert_eq!(o.operator(), OpKind::Add),
        _ => panic!("expected an operation"),
    }
    let r = one_plus_two();
    assert!(matches!(ParsedType::try_from(r), Ok(ParsedType::Root(_))));
    let s = root(vec![node(SyntaxKind::NODE_SET, vec![])]);
    assert!(matches!(ParsedType::try_from(only_child(&s)), Ok(ParsedType::AttrSet(_))));
}

#[test]
fn parsed_type_error_carries_the_kind() {
    let r = root(vec![node(SyntaxKind::NODE_STRING_INTERPOL, vec![])]);
    match ParsedType::try_from(only_child(&r)) {
        Err(ParsedTypeError(k)) => assert_eq!(k, SyntaxKind::NODE_STRING_INTERPOL),
        _ => panic!("expected an error"),
    }
}

#[test]
fn errors_keep_nonempty_errors_in_preorder() {
    let r = root(vec![
        node(SyntaxKind::NODE_ERROR, vec![tok(SyntaxKind::TOKEN_ERROR, "@")]),
        node(SyntaxKind::NODE_ERROR, vec![]),
        tok(SyntaxKind::TOKEN_WHITESPACE, " "),
        tok(SyntaxKind::TOKEN_ERROR, "$"),
    ]);
    let root = Root::cast(r).unwrap();
    let errs = root.errors();
    let found: Vec<(SyntaxKind, usize, usize)> = errs
        .iter()
        .map(|e| {
            let r = e.text_range();
            (e.kind(), r.start, r.end)
        })
        .collect();
    assert_eq!(
        found,
        vec![
            (SyntaxKind::NODE_ERROR, 0, 1),
            (SyntaxKind::TOKEN_ERROR, 0, 1),
            (SyntaxKind::TOKEN_ERROR, 2, 3),
        ]
    );
}

#[test]
fn no_errors_in_a_clean_tree() {
    let root = Root::cast(one_plus_two()).unwrap();
    assert_eq!(root.errors().len(), 0);
}

#[test]
fn dump_is_stable() {
    let root = Root::cast(one_plus_two()).unwrap();
    let expected = "NODE_ROOT 0..5 {\n  NODE_OPERATION 0..5 {\n    NODE_VALUE 0..1 {\n      TOKEN_INTEGER(\"1\") 0..1\n    }\n    TOKEN_WHITESPACE(\" \") 1..2\n    TOKEN_ADD(\"+\") 2..3\n    TOKEN_WHITESPACE(\" \") 3..4\n    NODE_VALUE 4..5 {\n      TOKEN_INTEGER(\"2\") 4..5\n    }\n  }\n}";
    assert_eq!(root.dump().to_string(), expected);
}

#[test]
fn dump_escapes_token_text() {
    let r = root(vec![
        tok(SyntaxKind::TOKEN_WHITESPACE, "\n\t\r"),
        tok(SyntaxKind::TOKEN_STRING_CONTENT, "a\"'\\é"),
    ]);
    let expected = "NODE_ROOT 0..9 {\n  TOKEN_WHITESPACE(\"\\n\\t\\r\") 0..3\n  TOKEN_STRING_CONTENT(\"a\\\"\\'\\\\\\u{e9}\") 3..9\n}";
    assert_eq!(TextDump::new(r).to_string(), expected);
}

#[test]
fn dump_of_an_empty_node_and_a_nested_node() {
    let r = root(vec![]);
    assert_eq!(TextDump::new(r).to_string(), "NODE_ROOT 0..0 {\n}");
    let r = one_plus_two();
    let op = only_child(&r);
    let v = op.children().remove(1);
    assert_eq!(
        TextDump::new(v).to_string(),
        "NODE_VALUE 4..5 {\n  TOKEN_INTEGER(\"2\") 4..5\n}"
    );
}

#[test]
fn dump_writes_large_offsets_in_decimal() {
    let long = "x".repeat(1234);
    let r = root(vec![tok(SyntaxKind::TOKEN_COMMENT, &long), tok(SyntaxKind::TOKEN_ADD, "+")]);
    let text = TextDump::new(r).to_string();
    assert!(text.starts_with("NODE_ROOT 0..1235 {\n"));
    assert!(text.ends_with("  TOKEN_ADD(\"+\") 1234..1235\n}"));
}

#[test]
fn ident_as_str() {
    let r = root(vec![ident("foo")]);
    let i = Ident::cast(only_child(&r)).unwrap();
    assert_eq!(i.as_str(), "foo");
}

/// `{ a = 1; inherit (x) b c; }`
fn sample_set() -> SyntaxNode {
    root(vec![node(
        SyntaxKind::NODE_SET,
        vec![
            tok(SyntaxKind::TOKEN_CURLY_B_OPEN, "{"),
            node(
                SyntaxKind::NODE_SET_ENTRY,
                vec![
                    node(SyntaxKind::NODE_ATTRIBUTE, vec![ident("a")]),
                    tok(SyntaxKind::TOKEN_ASSIGN, "="),
                    value("1"),
                    tok(SyntaxKind::TOKEN_SEMICOLON, ";"),
                ],
            ),
            node(
                SyntaxKind::NODE_INHERIT,
                vec![
                    tok(SyntaxKind::TOKEN_INHERIT, "inherit"),
                    node(
                        SyntaxKind::NODE_INHERIT_FROM,
                        vec![
                            tok(SyntaxKind::TOKEN_PAREN_OPEN, "("),
                            ident("x"),
                            tok(SyntaxKind::TOKEN_PAREN_CLOSE, ")"),
                        ],
                    ),
                    ident("b"),
                    ident("c"),
                    tok(SyntaxKind::TOKEN_SEMICOLON, ";"),
                ],
            ),
            tok(SyntaxKind::TOKEN_CURLY_B_CLOSE, "}"),
        ],
    )])
}

#[test]
fn set_entries_and_inherits() {
    let set = AttrSet::cast(only_child(&sample_set())).unwrap();
    assert!(!set.recursive());
    let entries = set.entries();
    assert_eq!(entries.len(), 1);
    let key = entries[0].key().unwrap();
    let path = key.path();
    assert_eq!(path.len(), 1);
    assert_eq!(Ident::cast(path[0].clone_node()).unwrap().as_str(), "a");
    assert_eq!(Value::cast(entries[0].value().unwrap()).unwrap().as_str(), "1");

    let inherits = set.inherits();
    assert_eq!(inherits.len(), 1);
    let from = inherits[0].from().unwrap();
    assert_eq!(Ident::cast(from.inner().unwrap()).unwrap().as_str(), "x");
    let names: Vec<String> = inherits[0].idents().iter().map(|i| i.as_str().to_string()).collect();
    assert_eq!(names, vec!["b".to_string(), "c".to_string()]);
}

#[test]
fn recursive_set() {
    let r = root(vec![node(
        SyntaxKind::NODE_SET,
        vec![
            tok(SyntaxKind::TOKEN_REC, "rec"),
            tok(SyntaxKind::TOKEN_CURLY_B_OPEN, "{"),
            tok(SyntaxKind::TOKEN_CURLY_B_CLOSE, "}"),
        ],
    )]);
    let set = AttrSet::cast(only_child(&r)).unwrap();
    assert!(set.recursive());
    assert_eq!(set.entries().len(), 0);
}

#[test]
fn inherit_without_from() {
    let r = root(vec![node(
        SyntaxKind::NODE_INHERIT,
        vec![tok(SyntaxKind::TOKEN_INHERIT, "inherit"), ident("b")],
    )]);
    let i = Inherit::cast(only_child(&r)).unwrap();
    assert!(i.from().is_none());
    assert_eq!(i.idents().len(), 1);
}

#[test]
fn let_in_body_is_the_last_child() {
    let r = root(vec![node(
        SyntaxKind::NODE_LET_IN,
        vec![
            tok(SyntaxKind::TOKEN_LET, "let"),
            node(
                SyntaxKind::NODE_SET_ENTRY,
                vec![node(SyntaxKind::NODE_ATTRIBUTE, vec![ident("a")]), value("1")],
            ),
            tok(SyntaxKind::TOKEN_IN, "in"),
            ident("a"),
        ],
    )]);
    let l = LetIn::cast(only_child(&r)).unwrap();
    assert_eq!(l.entries().len(), 1);
    assert_eq!(l.inherits().len(), 0);
    let body = l.body().unwrap();
    assert_eq!(body.kind(), SyntaxKind::NODE_IDENT);
    assert_eq!(Ident::cast(body).unwrap().as_str(), "a");
}

#[test]
fn pattern_entries_and_ellipsis() {
    let r = root(vec![node(
        SyntaxKind::NODE_PATTERN,
        vec![
            tok(SyntaxKind::TOKEN_CURLY_B_OPEN, "{"),
            node(SyntaxKind::NODE_PAT_ENTRY, vec![ident("a")]),
            tok(SyntaxKind::TOKEN_COMMA, ","),
            node(
                SyntaxKind::NODE_PAT_ENTRY,
                vec![ident("b"), tok(SyntaxKind::TOKEN_QUESTION, "?"), value("2")],
            ),
            tok(SyntaxKind::TOKEN_COMMA, ","),
            tok(SyntaxKind::TOKEN_ELLIPSIS, "..."),
            tok(SyntaxKind::TOKEN_CURLY_B_CLOSE, "}"),
        ],
    )]);
    let p = Pattern::cast(only_child(&r)).unwrap();
    assert!(p.ellipsis());
    let es: Vec<PatEntry> = p.entries();
    assert_eq!(es.len(), 2);
    assert_eq!(es[0].name().unwrap().as_str(), "a");
    assert!(es[0].default().is_none());
    assert_eq!(es[1].name().unwrap().as_str(), "b");
    assert_eq!(Value::cast(es[1].default().unwrap()).unwrap().as_str(), "2");
}

#[test]
fn or_default_accessors() {
    let index = node(SyntaxKind::NODE_INDEX_SET, vec![ident("s"), tok(SyntaxKind::TOKEN_DOT, "."), ident("k")]);
    let r = root(vec![node(
        SyntaxKind::NODE_OR_DEFAULT,
        vec![index, tok(SyntaxKind::TOKEN_IDENT, "or"), value("0")],
    )]);
    let o = OrDefault::cast(only_child(&r)).unwrap();
    let i = o.index().unwrap();
    assert_eq!(Ident::cast(i.set().unwrap()).unwrap().as_str(), "s");
    assert_eq!(Ident::cast(i.index().unwrap()).unwrap().as_str(), "k");
    assert_eq!(Value::cast(o.default().unwrap()).unwrap().as_str(), "0");
}

#[test]
fn or_default_index_of_wrong_kind() {
    let r = root(vec![node(SyntaxKind::NODE_OR_DEFAULT, vec![ident("s"), value("0")])]);
    let o = OrDefault::cast(only_child(&r)).unwrap();
    assert!(o.index().is_none());
    assert!(o.default().is_some());
}

#[test]
fn paren_inner_and_list_items() {
    let r = root(vec![node(
        SyntaxKind::NODE_PAREN,
        vec![
            tok(SyntaxKind::TOKEN_PAREN_OPEN, "("),
            node(
                SyntaxKind::NODE_LIST,
                vec![tok(SyntaxKind::TOKEN_SQUARE_B_OPEN, "["), value("1"), value("2"), value("3"), tok(SyntaxKind::TOKEN_SQUARE_B_CLOSE, "]")],
            ),
            tok(SyntaxKind::TOKEN_PAREN_CLOSE, ")"),
        ],
    )]);
    let p = Paren::cast(only_child(&r)).unwrap();
    let l = List::cast(p.inner().unwrap()).unwrap();
    let items: Vec<String> =
        l.items().into_iter().map(|n| Value::cast(n).unwrap().as_str().to_string()).collect();
    assert_eq!(items, vec!["1", "2", "3"]);
}

#[test]
fn apply_lambda_and_missing_children() {
    let r = root(vec![node(SyntaxKind::NODE_APPLY, vec![ident("f"), tok(SyntaxKind::TOKEN_WHITESPACE, " "), value("1")])]);
    let a = Apply::cast(only_child(&r)).unwrap();
    assert_eq!(a.lambda().unwrap().kind(), SyntaxKind::NODE_IDENT);
    assert_eq!(a.value().unwrap().kind(), SyntaxKind::NODE_VALUE);
    let r = root(vec![node(SyntaxKind::NODE_APPLY, vec![ident("f")])]);
    let a = Apply::cast(only_child(&r)).unwrap();
    assert!(a.value().is_none());
}

#[test]
fn set_entry_key_requires_an_attribute() {
    let r = root(vec![node(SyntaxKind::NODE_SET_ENTRY, vec![ident("a"), value("1")])]);
    let e = SetEntry::cast(only_child(&r)).unwrap();
    assert!(e.key().is_none());
    assert!(e.value().is_some());
}

#[test]
fn first_token_of_a_node_without_tokens() {
    let r = root(vec![value("1")]);
    let root = Root::cast(r).unwrap();
    assert!(root.first_token().is_none());
}

#[test]
fn green_node_caches_its_length() {
    let g = GreenNode::new(SyntaxKind::NODE_LIST, vec![tok(SyntaxKind::TOKEN_SQUARE_B_OPEN, "["), value("42"), tok(SyntaxKind::TOKEN_SQUARE_B_CLOSE, "]")]).unwrap();
    assert_eq!(g.text_len(), 4);
    assert_eq!(g.children().len(), 3);
    assert_eq!(g.kind(), SyntaxKind::NODE_LIST);
}

#[test]
fn descendants_in_preorder() {
    let r = one_plus_two();
    let kinds: Vec<SyntaxKind> = r.descendants_with_tokens().iter().map(|e| e.kind()).collect();
    assert_eq!(
        kinds,
        vec![
            SyntaxKind::NODE_ROOT,
            SyntaxKind::NODE_OPERATION,
            SyntaxKind::NODE_VALUE,
            SyntaxKind::TOKEN_INTEGER,
            SyntaxKind::TOKEN_WHITESPACE,
            SyntaxKind::TOKEN_ADD,
            SyntaxKind::TOKEN_WHITESPACE,
            SyntaxKind::NODE_VALUE,
            SyntaxKind::TOKEN_INTEGER,
        ]
    );
    match &r.descendants_with_tokens()[8] {
        SyntaxElement::Token(t) => assert_eq!(t.text_range(), TextRange { start: 4, end: 5 }),
        SyntaxElement::Node(_) => panic!("expected a token"),
    }
}


fn parsed_node(p: &ParsedType) -> &SyntaxNode {
    match p {
        ParsedType::Apply(n) => n.node(),
        ParsedType::Assert(n) => n.node(),
        ParsedType::Attribute(n) => n.node(),
        ParsedType::Dynamic(n) => n.node(),
        ParsedType::Error(n) => n.node(),
        ParsedType::Ident(n) => n.node(),
        ParsedType::IfElse(n) => n.node(),
        ParsedType::IndexSet(n) => n.node(),
        ParsedType::Inherit(n) => n.node(),
        ParsedType::InheritFrom(n) => n.node(),
        ParsedType::Lambda(n) => n.node(),
        ParsedType::Let(n) => n.node(),
        ParsedType::LetIn(n) => n.node(),
        ParsedType::List(n) => n.node(),
        ParsedType::Operation(n) => n.node(),
        ParsedType::OrDefault(n) => n.node(),
        ParsedType::Paren(n) => n.node(),
        ParsedType::PatBind(n) => n.node(),
        ParsedType::PatEntry(n) => n.node(),
        ParsedType::Pattern(n) => n.node(),
        ParsedType::Root(n) => n.node(),
        ParsedType::AttrSet(n) => n.node(),
        ParsedType::SetEntry(n) => n.node(),
        ParsedType::Str(n) => n.node(),
        ParsedType::Unary(n) => n.node(),
        ParsedType::Value(n) => n.node(),
        ParsedType::With(n) => n.node(),
    }
}

#[test]
fn parsed_type_covers_every_typed_kind() {
    let kinds = [
        SyntaxKind::NODE_APPLY,
        SyntaxKind::NODE_ASSERT,
        SyntaxKind::NODE_ATTRIBUTE,
        SyntaxKind::NODE_DYNAMIC,
        SyntaxKind::NODE_ERROR,
        SyntaxKind::NODE_IDENT,
        SyntaxKind::NODE_IF_ELSE,
        SyntaxKind::NODE_INDEX_SET,
        SyntaxKind::NODE_INHERIT,
        SyntaxKind::NODE_INHERIT_FROM,
        SyntaxKind::NODE_STRING,
        SyntaxKind::NODE_LAMBDA,
        SyntaxKind::NODE_LET,
        SyntaxKind::NODE_LET_IN,
        SyntaxKind::NODE_LIST,
        SyntaxKind::NODE_OPERATION,
        SyntaxKind::NODE_OR_DEFAULT,
        SyntaxKind::NODE_PAREN,
        SyntaxKind::NODE_PATTERN,
        SyntaxKind::NODE_PAT_BIND,
        SyntaxKind::NODE_PAT_ENTRY,
        SyntaxKind::NODE_ROOT,
        SyntaxKind::NODE_SET,
        SyntaxKind::NODE_SET_ENTRY,
        SyntaxKind::NODE_UNARY,
        SyntaxKind::NODE_VALUE,
        SyntaxKind::NODE_WITH,
    ];
    for k in kinds {
        let r = root(vec![tok(SyntaxKind::TOKEN_WHITESPACE, "  "), node(k, vec![value("7")])]);
        let n = only_child(&r);
        let p = ParsedType::try_from(n).ok().expect("typed kind");
        let inner = parsed_node(&p);
        assert_eq!(inner.kind(), k);
        assert_eq!(inner.text_range(), TextRange { start: 2, end: 3 });
    }
}

#[test]
fn cast_then_node_gives_the_node_back() {
    let r = one_plus_two();
    let op = only_child(&r);
    let typed = Operation::cast(op.clone_node()).unwrap();
    assert_eq!(typed.node().kind(), op.kind());
    assert_eq!(typed.node().text_range(), op.text_range());
    assert_eq!(typed.node().children().len(), op.children().len());
}

#[test]
fn text_range_is_empty() {
    assert!(TextRange { start: 3, end: 3 }.is_empty());
    assert!(!TextRange { start: 3, end: 4 }.is_empty());
}

#[test]
fn kind_names() {
    assert_eq!(SyntaxKind::NODE_OR_DEFAULT.name(), "NODE_OR_DEFAULT");
    assert_eq!(SyntaxKind::TOKEN_LESS_OR_EQ.name(), "TOKEN_LESS_OR_EQ");
}

#[test]
fn a_descendant_dump_appears_indented_in_the_ancestor_dump() {
    let r = one_plus_two();
    let whole = TextDump::new(r.clone()).to_string();
    let op = only_child(&r);
    let v = op.children().remove(1);
    let part = TextDump::new(v).to_string();
    let indented: Vec<String> = part.lines().map(|l| format!("    {}", l)).collect();
    let lines: Vec<&str> = whole.lines().collect();
    let found = (0..lines.len()).any(|s| {
        s + indented.len() <= lines.len()
            && indented.iter().enumerate().all(|(k, l)| lines[s + k] == l.as_str())
    });
    assert!(found);
}

#[test]
fn two_dumps_of_the_same_node_agree() {
    let root = Root::cast(one_plus_two()).unwrap();
    assert_eq!(root.dump().to_string(), root.dump().to_string());
    assert_eq!(root.dump().to_string(), TextDump::new(root.node().clone()).to_string());
}

#[test]
fn equal_trees_built_apart_dump_alike() {
    let a = TextDump::new(one_plus_two()).to_string();
    let b = TextDump::new(one_plus_two()).to_string();
    assert_eq!(a, b);
}

#[test]
fn typed_nodes_clone() {
    let op = Operation::cast(only_child(&one_plus_two())).unwrap();
    let copy = op.clone();
    assert_eq!(copy.node().text_range(), op.node().text_range());
    assert_eq!(copy.operator(), OpKind::Add);
    let t = tokens(op.node()).remove(0);
    assert_eq!(t.clone().text(), "+");
    let e = op.node().children_with_tokens().remove(2);
    assert_eq!(e.clone().kind(), SyntaxKind::TOKEN_ADD);
}
