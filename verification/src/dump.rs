use vstd::prelude::*;
use vstd::string::StrSliceExecFns;
use vstd::string::StringExecFns;
use std::rc::Rc;

use crate::kinds::{SyntaxKind, lemma_name_has_no_line_feed, lemma_name_is_printable_ascii};
use crate::tree::{
    GreenElement, GreenNode, GreenToken, SyntaxNode, green_len, green_wf, is_descendant_at, len_from,
    only_node, place, place_from, placed_node, lemma_place_from_len, lemma_green_wf_child,
    lemma_child_decreases, lemma_green_node_children_decrease, lemma_green_node_fields,
    lemma_green_token_fields, lemma_node_element_children_decrease, lemma_syntax_node_fields,
};

verus! {

/// The digit for `d` in bases up to 16, lowercase.
pub open spec fn digit_char(d: nat) -> char {
    seq!['0', '1', '2', '3', '4', '5', '6', '7', '8', '9', 'a', 'b', 'c', 'd', 'e', 'f'][d as int]
}

/// `n` written in base `base` (2 to 16), most significant digit first, with no
/// leading zeros; zero is written as one digit.
pub open spec fn in_base(n: nat, base: nat) -> Seq<char>
    decreases n,
{
    if base < 2 {
        Seq::empty()
    } else if n < base {
        seq![digit_char(n)]
    } else {
        proof {
            vstd::arithmetic::div_mod::lemma_div_decreases(n as int, base as int);
        }
        in_base(n / base, base).push(digit_char(n % base))
    }
}

/// How `char::escape_default` writes one character: the usual backslash
/// escapes for tab, carriage return, line feed, backslash and quotes,
/// printable ASCII as it is, and anything else as `\u{...}` with the code
/// point in lowercase hexadecimal.
pub open spec fn escape_char(c: char) -> Seq<char> {
    if c == '\t' {
        seq!['\\', 't']
    } else if c == '\r' {
        seq!['\\', 'r']
    } else if c == '\n' {
        seq!['\\', 'n']
    } else if c == '\\' || c == '\'' || c == '"' {
        seq!['\\', c]
    } else if 0x20 <= (c as u32) <= 0x7e {
        seq![c]
    } else {
        seq!['\\', 'u', '{'] + in_base(c as u32 as nat, 16) + seq!['}']
    }
}

/// Each character of `s` escaped in turn, as `str::escape_default` does.
pub open spec fn escape_text(s: Seq<char>) -> Seq<char>
    decreases s.len(),
{
    if s.len() == 0 {
        Seq::empty()
    } else {
        escape_text(s.drop_last()) + escape_char(s.last())
    }
}

/// A range as the dump writes it: `start..end`.
pub open spec fn range_text(start: nat, end: nat) -> Seq<char> {
    in_base(start, 10) + seq!['.', '.'] + in_base(end, 10)
}

/// The dump line of a token placed at `pos`: `KIND("escaped text") start..end`,
/// prefixed by `indent` and ended by a line feed.
pub open spec fn token_line(t: GreenToken, pos: nat, indent: Seq<char>) -> Seq<char> {
    indent + t.spec_kind().spec_name() + seq!['(', '"'] + escape_text(t.spec_text()) + seq![
        '"',
        ')',
        ' ',
    ] + range_text(pos, pos + t.spec_text_len()) + seq!['\n']
}

/// The dump of a green element placed at `pos`, each line prefixed by `indent`.
pub open spec fn dump_green(g: GreenElement, pos: nat, indent: Seq<char>) -> Seq<char>
    decreases g,
{
    match g {
        GreenElement::Token(t) => token_line(*t, pos, indent),
        GreenElement::Node(n) => {
            proof {
                lemma_node_element_children_decrease(g, n);
            }
            dump_node(*n, pos, indent)
        },
    }
}

/// The dump of a green node placed at `pos`, each line prefixed by `indent` and
/// ended by a line feed: a line `KIND start..end {`, the lines of its children
/// indented two more spaces, and a line `}`.
pub open spec fn dump_node(n: GreenNode, pos: nat, indent: Seq<char>) -> Seq<char>
    decreases n,
{
    proof {
        lemma_green_node_children_decrease(n);
    }
    indent + n.spec_kind().spec_name() + seq![' '] + range_text(pos, pos + n.spec_text_len())
        + seq![' ', '{', '\n'] + dump_from(n.spec_children(), 0, pos, indent + seq![' ', ' '])
        + indent + seq!['}', '\n']
}

/// The dumps of `cs[i..]` one after another, where `cs[i]` starts at `pos`.
pub open spec fn dump_from(cs: Seq<GreenElement>, i: int, pos: nat, indent: Seq<char>) -> Seq<
    char,
>
    decreases cs, cs.len() - i,
{
    if 0 <= i < cs.len() {
        dump_green(cs[i], pos, indent) + dump_from(cs, i + 1, pos + green_len(cs[i]), indent)
    } else {
        Seq::empty()
    }
}

/// The dump of a node: the lines of `dump_node` for it at its own offset and
/// with no indentation, joined by line feeds (no line feed at the end).
pub open spec fn dump_text(node: SyntaxNode) -> Seq<char> {
    dump_node(node.spec_green(), node.spec_offset(), Seq::empty()).drop_last()
}

/// The green node that an `Rc` holds.
spec fn inner_node(n: Rc<GreenNode>) -> GreenNode {
    *n
}

/// The green token that an `Rc` holds.
spec fn inner_token(t: Rc<GreenToken>) -> GreenToken {
    *t
}

/// `k` spaces.
pub open spec fn spaces(k: nat) -> Seq<char> {
    Seq::new(k, |i: int| ' ')
}

/// There is no line feed in `s`.
pub open spec fn no_line_feed(s: Seq<char>) -> bool {
    forall|i: int| 0 <= i < s.len() ==> s[i] != '\n'
}

/// `s` is made of whole lines: it is empty or ends with a line feed.
pub open spec fn whole_lines(s: Seq<char>) -> bool {
    s.len() == 0 || s.last() == '\n'
}

/// `s` with `indent` put before each of its lines; `at_start` says whether
/// `s` begins a line.
pub open spec fn indent_from(s: Seq<char>, indent: Seq<char>, at_start: bool) -> Seq<char>
    decreases s.len(),
{
    if s.len() == 0 {
        Seq::empty()
    } else {
        (if at_start {
            indent
        } else {
            Seq::empty()
        }) + seq![s[0]] + indent_from(s.drop_first(), indent, s[0] == '\n')
    }
}

/// `s` with `indent` put before each of its lines.
pub open spec fn indent_lines(s: Seq<char>, indent: Seq<char>) -> Seq<char> {
    indent_from(s, indent, true)
}

/// Two dumps of the same node give the same text.
pub proof fn lemma_dump_depends_on_node(a: TextDump, b: TextDump)
    requires
        a.spec_node() == b.spec_node(),
    ensures
        a.spec_text() == b.spec_text(),
{
}

/// The dump depends only on the content of the tree: two nodes, possibly of
/// different trees, with equal green nodes (kinds, children, token texts) at
/// the same offset (so with the same ranges throughout) dump alike.
pub proof fn lemma_dump_depends_on_content(n1: SyntaxNode, n2: SyntaxNode)
    requires
        n1.spec_green() == n2.spec_green(),
        n1.spec_offset() == n2.spec_offset(),
    ensures
        dump_text(n1) == dump_text(n2),
{
}

proof fn lemma_no_line_feed_concat(a: Seq<char>, b: Seq<char>)
    requires
        no_line_feed(a),
        no_line_feed(b),
    ensures
        no_line_feed(a + b),
{
    assert forall|i: int| 0 <= i < (a + b).len() implies (a + b)[i] != '\n' by {
        if i < a.len() {
            assert((a + b)[i] == a[i]);
        } else {
            assert((a + b)[i] == b[i - a.len()]);
        }
    }
}

#[verifier::spinoff_prover]
#[verifier::rlimit(40)]
proof fn lemma_indent_concat(a: Seq<char>, b: Seq<char>, indent: Seq<char>, at_start: bool)
    ensures
        indent_from(a + b, indent, at_start) == indent_from(a, indent, at_start) + indent_from(
            b,
            indent,
            if a.len() == 0 {
                at_start
            } else {
                a.last() == '\n'
            },
        ),
    decreases a.len(),
{
    if a.len() == 0 {
        assert(a + b =~= b);
    } else {
        let rest = a.drop_first();
        lemma_indent_concat(rest, b, indent, a[0] == '\n');
        assert((a + b).drop_first() =~= rest + b);
        assert((a + b)[0] == a[0]);
        if rest.len() > 0 {
            assert(rest.last() == a.last());
        }
        let p = if at_start {
            indent
        } else {
            Seq::<char>::empty()
        };
        assert(indent_from(a + b, indent, at_start) == p + seq![a[0]] + indent_from(
            rest + b,
            indent,
            a[0] == '\n',
        ));
        assert(indent_from(a, indent, at_start) == p + seq![a[0]] + indent_from(
            rest,
            indent,
            a[0] == '\n',
        ));
        assert(indent_from(a + b, indent, at_start) =~= indent_from(a, indent, at_start)
            + indent_from(
            b,
            indent,
            if a.len() == 0 {
                at_start
            } else {
                a.last() == '\n'
            },
        ));
    }
}

proof fn lemma_indent_line(l: Seq<char>, indent: Seq<char>, at_start: bool)
    requires
        no_line_feed(l),
    ensures
        indent_from(l + seq!['\n'], indent, at_start) == (if at_start {
            indent
        } else {
            Seq::empty()
        }) + l + seq!['\n'],
    decreases l.len(),
{
    let s = l + seq!['\n'];
    let p = if at_start {
        indent
    } else {
        Seq::<char>::empty()
    };
    if l.len() == 0 {
        assert(s =~= seq!['\n']);
        assert(s.drop_first() =~= Seq::<char>::empty());
        assert(indent_from(s.drop_first(), indent, true) =~= Seq::<char>::empty());
        assert(indent_from(s, indent, at_start) == p + seq![s[0]] + indent_from(
            s.drop_first(),
            indent,
            true,
        ));
        assert(indent_from(s, indent, at_start) =~= p + l + seq!['\n']);
    } else {
        let rest = l.drop_first();
        assert(no_line_feed(rest)) by {
            assert forall|i: int| 0 <= i < rest.len() implies rest[i] != '\n' by {
                assert(rest[i] == l[i + 1]);
            }
        }
        lemma_indent_line(rest, indent, false);
        assert(s.drop_first() =~= rest + seq!['\n']);
        assert(s[0] == l[0]);
        assert(l[0] != '\n');
        assert(indent_from(s, indent, at_start) == p + seq![l[0]] + indent_from(
            rest + seq!['\n'],
            indent,
            false,
        ));
        assert(l =~= seq![l[0]] + rest);
        assert(indent_from(s, indent, at_start) =~= p + l + seq!['\n']);
    }
}

proof fn lemma_digit_char_is_not_line_feed(d: nat)
    requires
        d < 16,
    ensures
        digit_char(d) != '\n',
{
}

proof fn lemma_in_base_no_line_feed(n: nat, base: nat)
    requires
        2 <= base <= 16,
    ensures
        no_line_feed(in_base(n, base)),
    decreases n,
{
    if n < base {
        lemma_digit_char_is_not_line_feed(n);
    } else {
        vstd::arithmetic::div_mod::lemma_div_decreases(n as int, base as int);
        vstd::arithmetic::div_mod::lemma_mod_pos_bound(n as int, base as int);
        lemma_in_base_no_line_feed(n / base, base);
        lemma_digit_char_is_not_line_feed(n % base);
        lemma_no_line_feed_concat(in_base(n / base, base), seq![digit_char(n % base)]);
    }
}

proof fn lemma_escape_char_no_line_feed(c: char)
    ensures
        no_line_feed(escape_char(c)),
{
    if !(c == '\t' || c == '\r' || c == '\n' || c == '\\' || c == '\'' || c == '"' || 0x20 <= (
    c as u32) <= 0x7e) {
        lemma_in_base_no_line_feed(c as u32 as nat, 16);
        lemma_no_line_feed_concat(seq!['\\', 'u', '{'], in_base(c as u32 as nat, 16));
        lemma_no_line_feed_concat(seq!['\\', 'u', '{'] + in_base(c as u32 as nat, 16), seq!['}']);
    }
}

proof fn lemma_escape_text_no_line_feed(s: Seq<char>)
    ensures
        no_line_feed(escape_text(s)),
    decreases s.len(),
{
    if s.len() > 0 {
        lemma_escape_text_no_line_feed(s.drop_last());
        lemma_escape_char_no_line_feed(s.last());
        lemma_no_line_feed_concat(escape_text(s.drop_last()), escape_char(s.last()));
    }
}

proof fn lemma_range_text_no_line_feed(start: nat, end: nat)
    ensures
        no_line_feed(range_text(start, end)),
{
    lemma_in_base_no_line_feed(start, 10);
    lemma_in_base_no_line_feed(end, 10);
    lemma_no_line_feed_concat(in_base(start, 10), seq!['.', '.']);
    lemma_no_line_feed_concat(in_base(start, 10) + seq!['.', '.'], in_base(end, 10));
}

/// The dump of a node is whole lines, at least one.
proof fn lemma_dump_node_lines(n: GreenNode, pos: nat, indent: Seq<char>)
    ensures
        dump_node(n, pos, indent).len() > 0,
        dump_node(n, pos, indent).last() == '\n',
{
}

/// The dump of an element is whole lines, at least one.
proof fn lemma_dump_green_lines(g: GreenElement, pos: nat, indent: Seq<char>)
    ensures
        dump_green(g, pos, indent).len() > 0,
        dump_green(g, pos, indent).last() == '\n',
{
    match g {
        GreenElement::Token(t) => {},
        GreenElement::Node(n) => lemma_dump_node_lines(inner_node(n), pos, indent),
    }
}

proof fn lemma_dump_from_lines(cs: Seq<GreenElement>, i: int, pos: nat, indent: Seq<char>)
    ensures
        whole_lines(dump_from(cs, i, pos, indent)),
    decreases cs.len() - i,
{
    if 0 <= i < cs.len() {
        lemma_dump_green_lines(cs[i], pos, indent);
        lemma_dump_from_lines(cs, i + 1, pos + green_len(cs[i]), indent);
    }
}

/// Indenting a dump more is the same as indenting its lines.
#[verifier::spinoff_prover]
#[verifier::rlimit(40)]
proof fn lemma_indent_green(g: GreenElement, pos: nat, indent: Seq<char>, j: Seq<char>)
    requires
        no_line_feed(indent),
        no_line_feed(j),
    ensures
        dump_green(g, pos, indent + j) == indent_lines(dump_green(g, pos, j), indent),
    decreases g,
{
    match g {
        GreenElement::Token(t) => {
            let tk = inner_token(t);
            let body = j + tk.spec_kind().spec_name() + seq!['(', '"'] + escape_text(tk.spec_text())
                + seq!['"', ')', ' '] + range_text(pos, pos + tk.spec_text_len());
            lemma_name_has_no_line_feed(tk.spec_kind());
            lemma_escape_text_no_line_feed(tk.spec_text());
            lemma_range_text_no_line_feed(pos, pos + tk.spec_text_len());
            lemma_no_line_feed_concat(j, tk.spec_kind().spec_name());
            lemma_no_line_feed_concat(j + tk.spec_kind().spec_name(), seq!['(', '"']);
            lemma_no_line_feed_concat(
                j + tk.spec_kind().spec_name() + seq!['(', '"'],
                escape_text(tk.spec_text()),
            );
            lemma_no_line_feed_concat(
                j + tk.spec_kind().spec_name() + seq!['(', '"'] + escape_text(tk.spec_text()),
                seq!['"', ')', ' '],
            );
            lemma_no_line_feed_concat(
                j + tk.spec_kind().spec_name() + seq!['(', '"'] + escape_text(tk.spec_text())
                    + seq!['"', ')', ' '],
                range_text(pos, pos + tk.spec_text_len()),
            );
            lemma_indent_line(body, indent, true);
            assert(dump_green(g, pos, j) =~= body + seq!['\n']);
            assert(dump_green(g, pos, indent + j) =~= indent + body + seq!['\n']);
        },
        GreenElement::Node(n) => {
            lemma_node_element_children_decrease(g, n);
            lemma_indent_node(inner_node(n), pos, indent, j);
        },
    }
}

#[verifier::spinoff_prover]
#[verifier::rlimit(40)]
proof fn lemma_indent_node(n: GreenNode, pos: nat, indent: Seq<char>, j: Seq<char>)
    requires
        no_line_feed(indent),
        no_line_feed(j),
    ensures
        dump_node(n, pos, indent + j) == indent_lines(dump_node(n, pos, j), indent),
    decreases n,
{
    lemma_green_node_children_decrease(n);
    let cs = n.spec_children();
    let name = n.spec_kind().spec_name();
    let range = range_text(pos, pos + n.spec_text_len());
    let j2 = j + seq![' ', ' '];
    let first = j + name + seq![' '] + range + seq![' ', '{'];
    let mid = dump_from(cs, 0, pos, j2);
    let last = j + seq!['}'];
    lemma_name_has_no_line_feed(n.spec_kind());
    lemma_range_text_no_line_feed(pos, pos + n.spec_text_len());
    lemma_no_line_feed_concat(j, name);
    lemma_no_line_feed_concat(j + name, seq![' ']);
    lemma_no_line_feed_concat(j + name + seq![' '], range);
    lemma_no_line_feed_concat(j + name + seq![' '] + range, seq![' ', '{']);
    lemma_no_line_feed_concat(j, seq!['}']);
    lemma_no_line_feed_concat(j, seq![' ', ' ']);
    lemma_indent_line(first, indent, true);
    lemma_indent_line(last, indent, true);
    lemma_dump_from_lines(cs, 0, pos, j2);
    lemma_indent_from(cs, 0, pos, indent, j2);
    lemma_indent_concat(first + seq!['\n'], mid + (last + seq!['\n']), indent, true);
    lemma_indent_concat(mid, last + seq!['\n'], indent, true);
    assert(dump_node(n, pos, j) =~= (first + seq!['\n']) + (mid + (last + seq!['\n'])));
    assert(indent + j2 =~= (indent + j) + seq![' ', ' ']);
    assert(dump_node(n, pos, indent + j) =~= (indent + first + seq!['\n']) + (dump_from(
        cs,
        0,
        pos,
        indent + j2,
    ) + (indent + last + seq!['\n'])));
}

proof fn lemma_indent_from(
    cs: Seq<GreenElement>,
    i: int,
    pos: nat,
    indent: Seq<char>,
    j: Seq<char>,
)
    requires
        no_line_feed(indent),
        no_line_feed(j),
    ensures
        dump_from(cs, i, pos, indent + j) == indent_lines(dump_from(cs, i, pos, j), indent),
    decreases cs, cs.len() - i,
{
    if 0 <= i < cs.len() {
        let next = pos + green_len(cs[i]);
        lemma_indent_green(cs[i], pos, indent, j);
        lemma_indent_from(cs, i + 1, next, indent, j);
        lemma_dump_green_lines(cs[i], pos, j);
        lemma_indent_concat(dump_green(cs[i], pos, j), dump_from(cs, i + 1, next, j), indent, true);
    } else {
        assert(dump_from(cs, i, pos, j) =~= Seq::<char>::empty());
    }
}

/// Where child `j` of `cs[i..]` is placed, and where its dump stands in the dump of `cs[i..]`.
#[verifier::spinoff_prover]
#[verifier::rlimit(40)]
proof fn lemma_child_in_dump_from(
    cs: Seq<GreenElement>,
    i: int,
    pos: nat,
    indent: Seq<char>,
    j: int,
) -> (r: (nat, Seq<char>, Seq<char>))
    requires
        0 <= i <= j < cs.len(),
    ensures
        place_from(cs, i, pos as int)[j - i] == place(cs[j], r.0 as int),
        dump_from(cs, i, pos, indent) == r.1 + dump_green(cs[j], r.0, indent) + r.2,
        whole_lines(r.1),
        r.0 + green_len(cs[j]) <= pos + len_from(cs, i),
    decreases j - i,
{
    let next = pos + green_len(cs[i]);
    if i == j {
        let rest = dump_from(cs, i + 1, next, indent);
        assert(dump_from(cs, i, pos, indent) =~= Seq::<char>::empty() + dump_green(cs[j], pos, indent)
            + rest);
        (pos, Seq::empty(), rest)
    } else {
        let (p, a, b) = lemma_child_in_dump_from(cs, i + 1, next, indent, j);
        lemma_dump_green_lines(cs[i], pos, indent);
        let a2 = dump_green(cs[i], pos, indent) + a;
        lemma_place_from_len(cs, i + 1, next as int);
        assert(place_from(cs, i, pos as int) == seq![place(cs[i], pos as int)] + place_from(
            cs,
            i + 1,
            next as int,
        ));
        assert(place_from(cs, i, pos as int)[j - i] == place_from(cs, i + 1, next as int)[j - (i
            + 1)]);
        assert(dump_from(cs, i, pos, indent) =~= a2 + dump_green(cs[j], p, indent) + b);
        (p, a2, b)
    }
}

/// The dump of a node placed somewhere in a well-formed tree, with `indent`.
pub open spec fn dump_at(x: SyntaxNode, indent: Seq<char>) -> Seq<char> {
    dump_node(x.spec_green(), x.spec_offset(), indent)
}

/// The dump of a child node, indented two more spaces, is a run of whole lines
/// in the dump of its parent; the child of a well-formed node is well formed.
#[verifier::spinoff_prover]
#[verifier::rlimit(40)]
proof fn lemma_child_dump(n: SyntaxNode, k: int, indent: Seq<char>) -> (r: (Seq<char>, Seq<char>))
    requires
        n.spec_wf(),
        0 <= k < n.spec_children_with_tokens().len(),
        n.spec_children_with_tokens()[k] is Node,
    ensures
        only_node(n.spec_children_with_tokens()[k]).unwrap().spec_wf(),
        dump_at(n, indent) == r.0 + dump_at(
            only_node(n.spec_children_with_tokens()[k]).unwrap(),
            indent + seq![' ', ' '],
        ) + r.1,
        whole_lines(r.0),
{
    broadcast use crate::tree::group_tree_lemmas;

    let cwt = n.spec_children_with_tokens();
    let ch = only_node(cwt[k]).unwrap();
    let g = n.spec_green();
    let cs = g.spec_children();
    let off = n.spec_offset();
    let indent2 = indent + seq![' ', ' '];
    lemma_place_from_len(cs, 0, off as int);
    let (p, a, b) = lemma_child_in_dump_from(cs, 0, off, indent2, k);
    let first = indent + g.spec_kind().spec_name() + seq![' '] + range_text(
        off,
        off + g.spec_text_len(),
    ) + seq![' ', '{', '\n'];
    let last = indent + seq!['}', '\n'];
    assert(dump_at(n, indent) =~= first + dump_from(cs, 0, off, indent2) + last);
    match cs[k] {
        GreenElement::Node(rc) => {
            assert(ch == placed_node(rc, p as int));
            assert(p <= usize::MAX);
            assert(ch.spec_green() == *rc);
            assert(ch.spec_offset() == p);
            lemma_green_wf_child(g, k);
            assert(ch.spec_wf());
            assert(dump_green(cs[k], p, indent2) == dump_at(ch, indent2));
            assert(dump_at(n, indent) =~= (first + a) + dump_at(ch, indent2) + (b + last));
            assert(whole_lines(first + a)) by {
                if a.len() == 0 {
                    assert(first + a =~= first);
                }
            }
            (first + a, b + last)
        },
        GreenElement::Token(t) => {
            assert(cwt[k] == place(cs[k], p as int));
            assert(false);
            (Seq::empty(), Seq::empty())
        },
    }
}

#[verifier::spinoff_prover]
#[verifier::rlimit(40)]
proof fn lemma_descendant_in_dump(n: SyntaxNode, c: SyntaxNode, d: nat, indent: Seq<char>) -> (r: (
    Seq<char>,
    Seq<char>,
))
    requires
        n.spec_wf(),
        is_descendant_at(n, c, d),
    ensures
        dump_at(n, indent) == r.0 + dump_at(c, indent + spaces(2 * d)) + r.1,
        whole_lines(r.0),
    decreases d,
{
    if d == 0 {
        assert(indent + spaces(0) =~= indent);
        assert(dump_at(n, indent) =~= Seq::<char>::empty() + dump_at(c, indent + spaces(0))
            + Seq::<char>::empty());
        (Seq::empty(), Seq::empty())
    } else {
        let cwt = n.spec_children_with_tokens();
        let k = choose|k: int|
            0 <= k < cwt.len() && (#[trigger] cwt[k]) is Node && is_descendant_at(
                only_node(cwt[k]).unwrap(),
                c,
                (d - 1) as nat,
            );
        let ch = only_node(cwt[k]).unwrap();
        let indent2 = indent + seq![' ', ' '];
        let (pre1, suf1) = lemma_child_dump(n, k, indent);
        let (pre2, suf2) = lemma_descendant_in_dump(ch, c, (d - 1) as nat, indent2);
        assert(indent2 + spaces(2 * ((d - 1) as nat)) =~= indent + spaces(2 * d));
        let pre = pre1 + pre2;
        let suf = suf2 + suf1;
        assert(dump_at(n, indent) =~= pre + dump_at(c, indent + spaces(2 * d)) + suf);
        assert(whole_lines(pre)) by {
            if pre2.len() == 0 {
                assert(pre =~= pre1);
            }
        }
        (pre, suf)
    }
}

/// The dump of a descendant `c` found `d` levels below `n`, each of its lines
/// indented by `2 * d` spaces, appears as one contiguous run of whole lines in
/// the dump of `n`; both use the same absolute offsets.
pub proof fn lemma_dump_contains_descendant(n: SyntaxNode, c: SyntaxNode, d: nat) -> (r: (
    Seq<char>,
    Seq<char>,
))
    requires
        n.spec_wf(),
        is_descendant_at(n, c, d),
    ensures
        dump_text(n) + seq!['\n'] == r.0 + indent_lines(dump_text(c) + seq!['\n'], spaces(2 * d))
            + r.1,
        whole_lines(r.0),
{
    let e = Seq::<char>::empty();
    let (pre, suf) = lemma_descendant_in_dump(n, c, d, e);
    assert(e + spaces(2 * d) =~= spaces(2 * d) + e);
    lemma_indent_node(c.spec_green(), c.spec_offset(), spaces(2 * d), e);
    lemma_dump_node_lines(n.spec_green(), n.spec_offset(), e);
    lemma_dump_node_lines(c.spec_green(), c.spec_offset(), e);
    assert(dump_text(n) + seq!['\n'] =~= dump_at(n, e));
    assert(dump_text(c) + seq!['\n'] =~= dump_at(c, e));
    (pre, suf)
}

/// `c` is printable ASCII: from space to tilde.
pub open spec fn printable_ascii(c: char) -> bool {
    0x20 <= (c as u32) <= 0x7e
}

/// Every character of `s` is printable ASCII.
pub open spec fn all_printable_ascii(s: Seq<char>) -> bool {
    forall|i: int| 0 <= i < s.len() ==> printable_ascii(#[trigger] s[i])
}

/// Every character of `s` is printable ASCII or a line feed.
pub open spec fn ascii_lines(s: Seq<char>) -> bool {
    forall|i: int| 0 <= i < s.len() ==> #[trigger] s[i] == '\n' || printable_ascii(s[i])
}

proof fn lemma_printable_concat(a: Seq<char>, b: Seq<char>)
    requires
        all_printable_ascii(a),
        all_printable_ascii(b),
    ensures
        all_printable_ascii(a + b),
{
    assert forall|i: int| 0 <= i < (a + b).len() implies printable_ascii(#[trigger] (a + b)[i]) by {
        if i < a.len() {
            assert((a + b)[i] == a[i]);
        } else {
            assert((a + b)[i] == b[i - a.len()]);
        }
    }
}

proof fn lemma_ascii_lines_concat(a: Seq<char>, b: Seq<char>)
    requires
        ascii_lines(a),
        ascii_lines(b),
    ensures
        ascii_lines(a + b),
{
    assert forall|i: int| 0 <= i < (a + b).len() implies #[trigger] (a + b)[i] == '\n'
        || printable_ascii((a + b)[i]) by {
        if i < a.len() {
            assert((a + b)[i] == a[i]);
        } else {
            assert((a + b)[i] == b[i - a.len()]);
        }
    }
}

proof fn lemma_printable_is_ascii_lines(s: Seq<char>)
    requires
        all_printable_ascii(s),
    ensures
        ascii_lines(s),
{
    assert forall|i: int| 0 <= i < s.len() implies #[trigger] s[i] == '\n' || printable_ascii(
        s[i],
    ) by {
        assert(printable_ascii(s[i]));
    }
}

proof fn lemma_in_base_printable(n: nat, base: nat)
    requires
        2 <= base <= 16,
    ensures
        all_printable_ascii(in_base(n, base)),
    decreases n,
{
    if n < base {
        assert(printable_ascii(digit_char(n)));
        assert(in_base(n, base) =~= seq![digit_char(n)]);
    } else {
        vstd::arithmetic::div_mod::lemma_div_decreases(n as int, base as int);
        vstd::arithmetic::div_mod::lemma_mod_pos_bound(n as int, base as int);
        lemma_in_base_printable(n / base, base);
        assert(printable_ascii(digit_char(n % base)));
        lemma_printable_concat(in_base(n / base, base), seq![digit_char(n % base)]);
        assert(in_base(n, base) =~= in_base(n / base, base) + seq![digit_char(n % base)]);
    }
}

proof fn lemma_escape_char_printable(c: char)
    ensures
        all_printable_ascii(escape_char(c)),
{
    if !(c == '\t' || c == '\r' || c == '\n' || c == '\\' || c == '\'' || c == '"' || 0x20 <= (
    c as u32) <= 0x7e) {
        lemma_in_base_printable(c as u32 as nat, 16);
        lemma_printable_concat(seq!['\\', 'u', '{'], in_base(c as u32 as nat, 16));
        lemma_printable_concat(seq!['\\', 'u', '{'] + in_base(c as u32 as nat, 16), seq!['}']);
    } else if 0x20 <= (c as u32) <= 0x7e && !(c == '\\' || c == '\'' || c == '"') {
        assert(escape_char(c) =~= seq![c]);
    }
}

/// Escaped text is printable ASCII: every character outside printable ASCII,
/// and every control character, is written with an escape made of printable
/// ASCII characters.
pub proof fn lemma_escape_is_printable_ascii(s: Seq<char>)
    ensures
        forall|i: int|
            0 <= i < escape_text(s).len() ==> 0x20 <= (#[trigger] escape_text(s)[i] as u32) <= 0x7e,
    decreases s.len(),
{
    if s.len() > 0 {
        lemma_escape_is_printable_ascii(s.drop_last());
        lemma_escape_char_printable(s.last());
        assert(all_printable_ascii(escape_text(s.drop_last())));
        lemma_printable_concat(escape_text(s.drop_last()), escape_char(s.last()));
        assert(all_printable_ascii(escape_text(s)));
    }
}

/// Escaping keeps printable ASCII other than the backslash and the quotes as
/// it is, and never leaves any other character as it is.
pub proof fn lemma_escape_char_keeps_only_plain_ascii(c: char)
    ensures
        (escape_char(c) == seq![c]) <==> (0x20 <= (c as u32) <= 0x7e && c != '\\' && c != '\''
            && c != '"'),
{
    if !(0x20 <= (c as u32) <= 0x7e && c != '\\' && c != '\'' && c != '"') {
        lemma_escape_char_printable(c);
        if escape_char(c) == seq![c] {
            assert(printable_ascii(escape_char(c)[0]));
            if c == '\\' || c == '\'' || c == '"' {
                assert(escape_char(c).len() == 2);
            }
        }
    }
}

proof fn lemma_range_text_printable(start: nat, end: nat)
    ensures
        all_printable_ascii(range_text(start, end)),
{
    lemma_in_base_printable(start, 10);
    lemma_in_base_printable(end, 10);
    lemma_printable_concat(in_base(start, 10), seq!['.', '.']);
    lemma_printable_concat(in_base(start, 10) + seq!['.', '.'], in_base(end, 10));
}

proof fn lemma_name_printable(k: SyntaxKind)
    ensures
        all_printable_ascii(k.spec_name()),
{
    lemma_name_is_printable_ascii(k);
    assert forall|i: int| 0 <= i < k.spec_name().len() implies printable_ascii(
        #[trigger] k.spec_name()[i],
    ) by {}
}

#[verifier::spinoff_prover]
#[verifier::rlimit(40)]
proof fn lemma_ascii_green(g: GreenElement, pos: nat, indent: Seq<char>)
    requires
        all_printable_ascii(indent),
    ensures
        ascii_lines(dump_green(g, pos, indent)),
    decreases g,
{
    match g {
        GreenElement::Token(t) => {
            let tk = inner_token(t);
            let line = indent + tk.spec_kind().spec_name() + seq!['(', '"'] + escape_text(
                tk.spec_text(),
            ) + seq!['"', ')', ' '] + range_text(pos, pos + tk.spec_text_len());
            lemma_name_printable(tk.spec_kind());
            lemma_escape_is_printable_ascii(tk.spec_text());
            assert(all_printable_ascii(escape_text(tk.spec_text())));
            lemma_range_text_printable(pos, pos + tk.spec_text_len());
            lemma_printable_concat(indent, tk.spec_kind().spec_name());
            lemma_printable_concat(indent + tk.spec_kind().spec_name(), seq!['(', '"']);
            lemma_printable_concat(
                indent + tk.spec_kind().spec_name() + seq!['(', '"'],
                escape_text(tk.spec_text()),
            );
            lemma_printable_concat(
                indent + tk.spec_kind().spec_name() + seq!['(', '"'] + escape_text(tk.spec_text()),
                seq!['"', ')', ' '],
            );
            lemma_printable_concat(
                indent + tk.spec_kind().spec_name() + seq!['(', '"'] + escape_text(tk.spec_text())
                    + seq!['"', ')', ' '],
                range_text(pos, pos + tk.spec_text_len()),
            );
            lemma_printable_is_ascii_lines(line);
            lemma_ascii_lines_concat(line, seq!['\n']);
            assert(dump_green(g, pos, indent) =~= line + seq!['\n']);
        },
        GreenElement::Node(n) => {
            lemma_node_element_children_decrease(g, n);
            lemma_ascii_node(inner_node(n), pos, indent);
        },
    }
}

#[verifier::spinoff_prover]
proof fn lemma_ascii_node(n: GreenNode, pos: nat, indent: Seq<char>)
    requires
        all_printable_ascii(indent),
    ensures
        ascii_lines(dump_node(n, pos, indent)),
    decreases n,
{
    lemma_green_node_children_decrease(n);
    let name = n.spec_kind().spec_name();
    let range = range_text(pos, pos + n.spec_text_len());
    let indent2 = indent + seq![' ', ' '];
    let first = indent + name + seq![' '] + range + seq![' ', '{'];
    let last = indent + seq!['}'];
    lemma_name_printable(n.spec_kind());
    lemma_range_text_printable(pos, pos + n.spec_text_len());
    lemma_printable_concat(indent, name);
    lemma_printable_concat(indent + name, seq![' ']);
    lemma_printable_concat(indent + name + seq![' '], range);
    lemma_printable_concat(indent + name + seq![' '] + range, seq![' ', '{']);
    lemma_printable_concat(indent, seq!['}']);
    lemma_printable_concat(indent, seq![' ', ' ']);
    lemma_printable_is_ascii_lines(first);
    lemma_printable_is_ascii_lines(last);
    lemma_ascii_lines_concat(first, seq!['\n']);
    lemma_ascii_lines_concat(last, seq!['\n']);
    lemma_ascii_from(n.spec_children(), 0, pos, indent2);
    let mid = dump_from(n.spec_children(), 0, pos, indent2);
    lemma_ascii_lines_concat(first + seq!['\n'], mid);
    lemma_ascii_lines_concat(first + seq!['\n'] + mid, last + seq!['\n']);
    assert(dump_node(n, pos, indent) =~= first + seq!['\n'] + mid + (last + seq!['\n']));
}

proof fn lemma_ascii_from(cs: Seq<GreenElement>, i: int, pos: nat, indent: Seq<char>)
    requires
        all_printable_ascii(indent),
    ensures
        ascii_lines(dump_from(cs, i, pos, indent)),
    decreases cs, cs.len() - i,
{
    if 0 <= i < cs.len() {
        let next = pos + green_len(cs[i]);
        lemma_ascii_green(cs[i], pos, indent);
        lemma_ascii_from(cs, i + 1, next, indent);
        lemma_ascii_lines_concat(dump_green(cs[i], pos, indent), dump_from(cs, i + 1, next, indent));
    } else {
        assert(dump_from(cs, i, pos, indent) =~= Seq::<char>::empty());
    }
}

/// The dump is pure ASCII: printable characters and line feeds only, whatever
/// characters the tokens hold.
pub proof fn lemma_dump_is_ascii(n: SyntaxNode)
    ensures
        forall|i: int|
            0 <= i < dump_text(n).len() ==> #[trigger] dump_text(n)[i] == '\n' || 0x20 <= (
            dump_text(n)[i] as u32) <= 0x7e,
{
    let e = Seq::<char>::empty();
    lemma_ascii_node(n.spec_green(), n.spec_offset(), e);
    let full = dump_node(n.spec_green(), n.spec_offset(), e);
    assert forall|i: int| 0 <= i < dump_text(n).len() implies #[trigger] dump_text(n)[i] == '\n'
        || 0x20 <= (dump_text(n)[i] as u32) <= 0x7e by {
        assert(dump_text(n)[i] == full[i]);
    }
}

/// Calls `String::push`, which appends the character to the end of the string.
#[verifier::external_body]
fn push_char(s: &mut String, c: char)
    ensures
        final(s)@ == old(s)@.push(c),
{
    s.push(c);
}

/// Calls `String::pop`, which removes the last character of the string and
/// returns it, or returns `None` and leaves the string as it is when it is empty.
#[verifier::external_body]
fn pop_char(s: &mut String) -> (r: Option<char>)
    ensures
        old(s)@.len() == 0 ==> r is None && final(s)@ == old(s)@,
        old(s)@.len() > 0 ==> r == Some(old(s)@.last()) && final(s)@ == old(s)@.drop_last(),
{
    s.pop()
}

/// The digit for `d`, lowercase.
fn digit(d: usize) -> (r: char)
    requires
        d < 16,
    ensures
        r == digit_char(d as nat),
{
    match d {
        0 => '0',
        1 => '1',
        2 => '2',
        3 => '3',
        4 => '4',
        5 => '5',
        6 => '6',
        7 => '7',
        8 => '8',
        9 => '9',
        10 => 'a',
        11 => 'b',
        12 => 'c',
        13 => 'd',
        14 => 'e',
        _ => 'f',
    }
}

/// Appends `n` written in base `base`.
fn write_number(n: usize, base: usize, out: &mut String)
    requires
        2 <= base <= 16,
    ensures
        final(out)@ == old(out)@ + in_base(n as nat, base as nat),
    decreases n,
{
    if n >= base {
        proof {
            vstd::arithmetic::div_mod::lemma_div_decreases(n as int, base as int);
        }
        write_number(n / base, base, out);
    } else {
        proof {
            vstd::arithmetic::div_mod::lemma_small_mod(n as nat, base as nat);
        }
    }
    push_char(out, digit(n % base));
}

/// Appends a character escaped as `escape_char` says.
fn write_escaped_char(c: char, out: &mut String)
    ensures
        final(out)@ == old(out)@ + escape_char(c),
{
    if c == '\t' {
        push_char(out, '\\');
        push_char(out, 't');
    } else if c == '\r' {
        push_char(out, '\\');
        push_char(out, 'r');
    } else if c == '\n' {
        push_char(out, '\\');
        push_char(out, 'n');
    } else if c == '\\' || c == '\'' || c == '"' {
        push_char(out, '\\');
        push_char(out, c);
    } else if 0x20 <= (c as u32) && (c as u32) <= 0x7e {
        push_char(out, c);
    } else {
        push_char(out, '\\');
        push_char(out, 'u');
        push_char(out, '{');
        write_number(c as u32 as usize, 16, out);
        push_char(out, '}');
    }
}

/// Appends the escaped text.
fn write_escaped(text: &str, out: &mut String)
    ensures
        final(out)@ == old(out)@ + escape_text(text@),
{
    let ghost start = out@;
    let n = text.unicode_len();
    let mut i: usize = 0;
    while i < n
        invariant
            i <= n,
            n == text@.len(),
            out@ == start + escape_text(text@.take(i as int)),
        decreases n - i,
    {
        let c = text.get_char(i);
        proof {
            assert(text@.take(i + 1).drop_last() == text@.take(i as int));
        }
        write_escaped_char(c, out);
        i = i + 1;
    }
    proof {
        assert(text@.take(n as int) == text@);
    }
}

/// Appends `start..end`.
fn write_range(start: usize, end: usize, out: &mut String)
    ensures
        final(out)@ == old(out)@ + range_text(start as nat, end as nat),
{
    write_number(start, 10, out);
    push_char(out, '.');
    push_char(out, '.');
    write_number(end, 10, out);
}

/// Appends the dump line of a token placed at `pos`.
fn write_token(t: &GreenToken, pos: usize, indent: &String, out: &mut String)
    requires
        pos + t.spec_text_len() <= usize::MAX,
    ensures
        final(out)@ == old(out)@ + token_line(*t, pos as nat, indent@),
{
    proof {
        lemma_green_token_fields(t);
    }
    let len = t.text_len();
    out.append(indent.as_str());
    out.append(t.kind().name());
    push_char(out, '(');
    push_char(out, '"');
    write_escaped(t.text(), out);
    push_char(out, '"');
    push_char(out, ')');
    push_char(out, ' ');
    write_range(pos, pos + len, out);
    push_char(out, '\n');
    proof {
        assert(out@ =~= old(out)@ + token_line(*t, pos as nat, indent@));
    }
}

/// Appends the dump of the subtree `g` placed at `pos`.
fn write_green(g: &GreenElement, pos: usize, indent: &String, out: &mut String)
    requires
        pos + green_len(*g) <= usize::MAX,
    ensures
        final(out)@ == old(out)@ + dump_green(*g, pos as nat, indent@),
    decreases *g,
{
    match g {
        GreenElement::Token(t) => {
            write_token(&**t, pos, indent, out);
        },
        GreenElement::Node(n) => {
            proof {
                use_type_invariant(&**n);
                lemma_green_node_fields(&**n);
            }
            let ghost start = out@;
            let len = n.text_len();
            out.append(indent.as_str());
            out.append(n.kind().name());
            push_char(out, ' ');
            write_range(pos, pos + len, out);
            push_char(out, ' ');
            push_char(out, '{');
            push_char(out, '\n');
            let mut inner = indent.clone();
            push_char(&mut inner, ' ');
            push_char(&mut inner, ' ');
            let ghost head = out@;
            proof {
                assert(head =~= start + indent@ + n.spec_kind().spec_name() + seq![' '] + range_text(
                    pos as nat,
                    pos as nat + n.spec_text_len(),
                ) + seq![' ', '{', '\n']);
                assert(inner@ =~= indent@ + seq![' ', ' ']);
            }
            let cs = &n.children;
            let mut p: usize = pos;
            let mut i: usize = 0;
            while i < cs.len()
                invariant
                    i <= cs.len(),
                    cs@ == n.children@,
                    cs@ == n.spec_children(),
                    *g == GreenElement::Node(*n),
                    p + len_from(cs@, i as int) <= usize::MAX,
                    out@ + dump_from(cs@, i as int, p as nat, inner@) == head + dump_from(
                        cs@,
                        0,
                        pos as nat,
                        inner@,
                    ),
                decreases cs.len() - i,
            {
                let l = cs[i].text_len();
                let ghost before = out@;
                proof {
                    lemma_child_decreases(*g, *n, i as int);
                }
                write_green(&cs[i], p, &inner, out);
                proof {
                    assert(dump_from(cs@, i as int, p as nat, inner@) == dump_green(
                        cs@[i as int],
                        p as nat,
                        inner@,
                    ) + dump_from(cs@, i + 1, (p + l) as nat, inner@));
                    assert(out@ + dump_from(cs@, i + 1, (p + l) as nat, inner@) == before
                        + dump_from(cs@, i as int, p as nat, inner@));
                }
                p = p + l;
                i = i + 1;
            }
            proof {
                assert(out@ + dump_from(cs@, i as int, p as nat, inner@) == out@);
            }
            out.append(indent.as_str());
            push_char(out, '}');
            push_char(out, '\n');
            proof {
                assert(out@ =~= old(out)@ + dump_green(*g, pos as nat, indent@));
            }
        },
    }
}

/// A struct that prints out the textual representation of a node in a
/// stable format. See TypedNode::dump.
pub struct TextDump(SyntaxNode);

impl TextDump {
    pub closed spec fn spec_node(&self) -> SyntaxNode {
        self.0
    }

    /// The dump of the node this holds; it depends on nothing else.
    pub open spec fn spec_text(&self) -> Seq<char> {
        dump_text(self.spec_node())
    }

    /// A dump of the given node.
    pub fn new(node: SyntaxNode) -> (r: TextDump)
        ensures
            r.spec_node() == node,
    {
        TextDump(node)
    }

    /// The textual representation of the node.
    pub fn to_string(&self) -> (r: String)
        ensures
            r@ == self.spec_text(),
    {
        proof {
            use_type_invariant(&self.0);
            lemma_syntax_node_fields(&self.0);
        }
        let mut out = String::new();
        let indent = String::new();
        let g = GreenElement::Node(self.0.green.clone());
        write_green(&g, self.0.offset, &indent, &mut out);
        pop_char(&mut out);
        out
    }
}

} // verus!
