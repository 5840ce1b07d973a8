//! Provides a type system for the AST, in some sense
use vstd::prelude::*;

use crate::dump::{TextDump, dump_text};
use crate::kinds::SyntaxKind;
use crate::tree::{GreenElement, SyntaxElement, SyntaxNode, SyntaxToken, only_node};

verus! {

/// The kind of a binary operation.
#[derive(Clone, Copy, Debug, PartialEq, Eq, Structural, Hash)]
pub enum OpKind {
    Concat,
    IsSet,
    Update,

    Add,
    Sub,
    Mul,
    Div,

    And,
    Equal,
    Implication,
    Less,
    LessOrEq,
    More,
    MoreOrEq,
    NotEqual,
    Or,
}

impl OpKind {
    /// The token that writes this operation.
    pub open spec fn spec_token(self) -> SyntaxKind {
        match self {
            OpKind::Concat => SyntaxKind::TOKEN_CONCAT,
            OpKind::IsSet => SyntaxKind::TOKEN_QUESTION,
            OpKind::Update => SyntaxKind::TOKEN_UPDATE,
            OpKind::Add => SyntaxKind::TOKEN_ADD,
            OpKind::Sub => SyntaxKind::TOKEN_SUB,
            OpKind::Mul => SyntaxKind::TOKEN_MUL,
            OpKind::Div => SyntaxKind::TOKEN_DIV,
            OpKind::And => SyntaxKind::TOKEN_AND,
            OpKind::Equal => SyntaxKind::TOKEN_EQUAL,
            OpKind::Implication => SyntaxKind::TOKEN_IMPLICATION,
            OpKind::Less => SyntaxKind::TOKEN_LESS,
            OpKind::LessOrEq => SyntaxKind::TOKEN_LESS_OR_EQ,
            OpKind::More => SyntaxKind::TOKEN_MORE,
            OpKind::MoreOrEq => SyntaxKind::TOKEN_MORE_OR_EQ,
            OpKind::NotEqual => SyntaxKind::TOKEN_NOT_EQUAL,
            OpKind::Or => SyntaxKind::TOKEN_OR,
        }
    }

    /// Get the operation kind from a token in the AST
    pub fn from_token(token: SyntaxKind) -> (r: Option<Self>)
        ensures
            r matches Some(op) ==> op.spec_token() == token,
            r is None ==> forall|op: OpKind| #[trigger] op.spec_token() != token,
    {
        match token {
            SyntaxKind::TOKEN_CONCAT => Some(OpKind::Concat),
            SyntaxKind::TOKEN_QUESTION => Some(OpKind::IsSet),
            SyntaxKind::TOKEN_UPDATE => Some(OpKind::Update),

            SyntaxKind::TOKEN_ADD => Some(OpKind::Add),
            SyntaxKind::TOKEN_SUB => Some(OpKind::Sub),
            SyntaxKind::TOKEN_MUL => Some(OpKind::Mul),
            SyntaxKind::TOKEN_DIV => Some(OpKind::Div),

            SyntaxKind::TOKEN_AND => Some(OpKind::And),
            SyntaxKind::TOKEN_EQUAL => Some(OpKind::Equal),
            SyntaxKind::TOKEN_IMPLICATION => Some(OpKind::Implication),
            SyntaxKind::TOKEN_LESS => Some(OpKind::Less),
            SyntaxKind::TOKEN_LESS_OR_EQ => Some(OpKind::LessOrEq),
            SyntaxKind::TOKEN_MORE => Some(OpKind::More),
            SyntaxKind::TOKEN_MORE_OR_EQ => Some(OpKind::MoreOrEq),
            SyntaxKind::TOKEN_NOT_EQUAL => Some(OpKind::NotEqual),
            SyntaxKind::TOKEN_OR => Some(OpKind::Or),

            _ => None,
        }
    }
}

/// Distinct binary operations are written with distinct tokens, so the token
/// of an operation determines it.
pub proof fn lemma_op_token_injective(a: OpKind, b: OpKind)
    ensures
        a.spec_token() == b.spec_token() ==> a == b,
{
}

/// The kind of a unary operation.
#[derive(Clone, Copy, Debug, PartialEq, Eq, Structural, Hash)]
pub enum UnaryOpKind {
    Invert,
    Negate,
}

impl UnaryOpKind {
    /// The token that writes this operation.
    pub open spec fn spec_token(self) -> SyntaxKind {
        match self {
            UnaryOpKind::Invert => SyntaxKind::TOKEN_INVERT,
            UnaryOpKind::Negate => SyntaxKind::TOKEN_SUB,
        }
    }

    /// Get the operation kind from a token in the AST
    pub fn from_token(token: SyntaxKind) -> (r: Option<Self>)
        ensures
            r matches Some(op) ==> op.spec_token() == token,
            r is None ==> forall|op: UnaryOpKind| #[trigger] op.spec_token() != token,
    {
        match token {
            SyntaxKind::TOKEN_INVERT => Some(UnaryOpKind::Invert),
            SyntaxKind::TOKEN_SUB => Some(UnaryOpKind::Negate),
            _ => None,
        }
    }
}

/// Distinct unary operations are written with distinct tokens, so the token
/// of an operation determines it.
pub proof fn lemma_unary_op_token_injective(a: UnaryOpKind, b: UnaryOpKind)
    ensures
        a.spec_token() == b.spec_token() ==> a == b,
{
}

/// Keeps a child element when it is a token that is not trivia.
pub open spec fn non_trivia_token(e: SyntaxElement) -> Option<SyntaxToken> {
    match e {
        SyntaxElement::Token(t) => if t.spec_kind().spec_is_trivia() {
            None
        } else {
            Some(t)
        },
        SyntaxElement::Node(_) => None,
    }
}

/// The non-trivia tokens among the direct children of a node, in order.
pub open spec fn spec_tokens(node: SyntaxNode) -> Seq<SyntaxToken> {
    node.spec_children_with_tokens().filter_map(|e: SyntaxElement| non_trivia_token(e))
}

/// The first non-trivia token among the direct children of a node.
pub open spec fn spec_first_token(node: SyntaxNode) -> Option<SyntaxToken> {
    if spec_tokens(node).len() > 0 {
        Some(spec_tokens(node)[0])
    } else {
        None
    }
}

/// Keeps an element that is an error with some text in it.
pub open spec fn nonempty_error(e: SyntaxElement) -> Option<SyntaxElement> {
    if !e.spec_range().spec_is_empty() && (e.spec_kind() == SyntaxKind::NODE_ERROR
        || e.spec_kind() == SyntaxKind::TOKEN_ERROR) {
        Some(e)
    } else {
        None
    }
}

/// The errors in and below a node, in preorder.
pub open spec fn spec_errors(node: SyntaxNode) -> Seq<SyntaxElement> {
    node.spec_descendants_with_tokens().filter_map(|e: SyntaxElement| nonempty_error(e))
}

/// The `i`th child node, if there is one.
pub open spec fn spec_nth_child(node: SyntaxNode, i: int) -> Option<SyntaxNode> {
    if 0 <= i < node.spec_children().len() {
        Some(node.spec_children()[i])
    } else {
        None
    }
}

/// Keeps a node of the given kind.
pub open spec fn of_kind(n: SyntaxNode, k: SyntaxKind) -> Option<SyntaxNode> {
    if n.spec_kind() == k {
        Some(n)
    } else {
        None
    }
}

/// The child nodes of the given kind, in order.
pub open spec fn spec_children_of_kind(node: SyntaxNode, k: SyntaxKind) -> Seq<SyntaxNode> {
    node.spec_children().filter_map(|n: SyntaxNode| of_kind(n, k))
}

/// Does some child token or node have the given kind?
pub open spec fn spec_has_child_kind(node: SyntaxNode, k: SyntaxKind) -> bool {
    exists|i: int|
        0 <= i < node.spec_children_with_tokens().len()
            && #[trigger] node.spec_children_with_tokens()[i].spec_kind() == k
}

/// The non-trivia tokens among the direct children of a node, in order.
pub fn tokens(node: &SyntaxNode) -> (r: Vec<SyntaxToken>)
    ensures
        r@ == spec_tokens(*node),
{
    let all = node.children_with_tokens();
    let mut r: Vec<SyntaxToken> = Vec::new();
    let mut i: usize = 0;
    while i < all.len()
        invariant
            i <= all.len(),
            all@ == node.spec_children_with_tokens(),
            r@ == all@.take(i as int).filter_map(|e: SyntaxElement| non_trivia_token(e)),
        decreases all.len() - i,
    {
        proof {
            assert(all@.take(i + 1).drop_last() == all@.take(i as int));
        }
        match &all[i] {
            SyntaxElement::Token(t) => {
                if !t.kind().is_trivia() {
                    r.push(t.clone_token());
                }
            },
            SyntaxElement::Node(_) => {},
        }
        i = i + 1;
    }
    proof {
        assert(all@.take(all.len() as int) == all@);
    }
    r
}

/// The errors in and below a node that cover some text, in preorder.
fn errors_of(node: &SyntaxNode) -> (r: Vec<SyntaxElement>)
    ensures
        r@ == spec_errors(*node),
{
    let all = node.descendants_with_tokens();
    let mut r: Vec<SyntaxElement> = Vec::new();
    let mut i: usize = 0;
    while i < all.len()
        invariant
            i <= all.len(),
            all@ == node.spec_descendants_with_tokens(),
            r@ == all@.take(i as int).filter_map(|e: SyntaxElement| nonempty_error(e)),
        decreases all.len() - i,
    {
        proof {
            assert(all@.take(i + 1).drop_last() == all@.take(i as int));
        }
        let k = all[i].kind();
        if !all[i].text_range().is_empty() && (k == SyntaxKind::NODE_ERROR || k
            == SyntaxKind::TOKEN_ERROR) {
            r.push(all[i].clone_element());
        }
        i = i + 1;
    }
    proof {
        assert(all@.take(all.len() as int) == all@);
    }
    r
}

/// The `i`th child node of `node`, if there is one.
fn nth_child(node: &SyntaxNode, i: usize) -> (r: Option<SyntaxNode>)
    ensures
        r == spec_nth_child(*node, i as int),
{
    let mut cs = node.children();
    if i < cs.len() {
        Some(cs.remove(i))
    } else {
        None
    }
}

/// The `i`th child node of `node`, if there is one and it has type `T`.
fn nth_child_as<T: TypedNode>(node: &SyntaxNode, i: usize) -> (r: Option<T>)
    ensures
        r is Some <==> (spec_nth_child(*node, i as int) matches Some(c) && c.spec_kind()
            == T::spec_kind()),
        r matches Some(t) ==> spec_nth_child(*node, i as int) == Some(t.spec_node()),
{
    match nth_child(node, i) {
        Some(c) => T::cast(c),
        None => None,
    }
}

/// The child nodes of `node` that have type `T`, in order.
fn children_of<T: TypedNode>(node: &SyntaxNode) -> (r: Vec<T>)
    ensures
        r@.map_values(|t: T| t.spec_node()) == spec_children_of_kind(*node, T::spec_kind()),
{
    let cs = node.children();
    let mut r: Vec<T> = Vec::new();
    let mut i: usize = 0;
    while i < cs.len()
        invariant
            i <= cs.len(),
            cs@ == node.spec_children(),
            r@.map_values(|t: T| t.spec_node()) == cs@.take(i as int).filter_map(
                |n: SyntaxNode| of_kind(n, T::spec_kind()),
            ),
        decreases cs.len() - i,
    {
        proof {
            assert(cs@.take(i + 1).drop_last() == cs@.take(i as int));
        }
        let ghost before = r@;
        match T::cast(cs[i].clone_node()) {
            Some(t) => {
                r.push(t);
                proof {
                    assert(r@.map_values(|t: T| t.spec_node()) == before.map_values(
                        |t: T| t.spec_node(),
                    ).push(cs@[i as int]));
                }
            },
            None => {},
        }
        i = i + 1;
    }
    proof {
        assert(cs@.take(cs.len() as int) == cs@);
    }
    r
}

/// The first child node of `node` that has type `T`, if any.
fn first_child_of<T: TypedNode>(node: &SyntaxNode) -> (r: Option<T>)
    ensures
        r is Some <==> spec_children_of_kind(*node, T::spec_kind()).len() > 0,
        r matches Some(t) ==> t.spec_node() == spec_children_of_kind(*node, T::spec_kind())[0],
{
    let mut all = children_of::<T>(node);
    proof {
        assert(all@.map_values(|t: T| t.spec_node()).len() == all@.len());
    }
    if all.len() > 0 {
        proof {
            assert(all@.map_values(|t: T| t.spec_node())[0] == all@[0].spec_node());
        }
        Some(all.remove(0))
    } else {
        None
    }
}

/// Does some child token or node of `node` have kind `k`?
fn has_child_kind(node: &SyntaxNode, k: SyntaxKind) -> (r: bool)
    ensures
        r == spec_has_child_kind(*node, k),
{
    let all = node.children_with_tokens();
    let mut i: usize = 0;
    while i < all.len()
        invariant
            i <= all.len(),
            all@ == node.spec_children_with_tokens(),
            forall|j: int| 0 <= j < i ==> #[trigger] all@[j].spec_kind() != k,
        decreases all.len() - i,
    {
        if all[i].kind() == k {
            return true;
        }
        i = i + 1;
    }
    false
}

/// A filter that keeps or drops each element unchanged keeps exactly the
/// elements it keeps.
proof fn lemma_keep_contains<A>(s: Seq<A>, f: spec_fn(A) -> Option<A>, x: A)
    requires
        forall|y: A| #[trigger] f(y) is Some ==> f(y) == Some(y),
    ensures
        s.filter_map(f).contains(x) <==> s.contains(x) && f(x) == Some(x),
    decreases s.len(),
{
    if s.len() > 0 {
        let dl = s.drop_last();
        let last = s.last();
        lemma_keep_contains(dl, f, x);
        let fd = dl.filter_map(f);
        let fs = s.filter_map(f);
        if f(last) is Some {
            assert(fs == fd + seq![last]);
        } else {
            assert(fs == fd);
        }
        if fs.contains(x) {
            let k = choose|k: int| 0 <= k < fs.len() && fs[k] == x;
            if k < fd.len() {
                assert(fs[k] == fd[k]);
                assert(fd.contains(x));
                let m = choose|m: int| 0 <= m < dl.len() && dl[m] == x;
                assert(s[m] == x);
            } else {
                assert(x == last);
                assert(s[s.len() - 1] == x);
            }
        }
        if s.contains(x) && f(x) == Some(x) {
            let m = choose|m: int| 0 <= m < s.len() && s[m] == x;
            if m < s.len() - 1 {
                assert(dl[m] == x);
                assert(fd.contains(x));
                let k = choose|k: int| 0 <= k < fd.len() && fd[k] == x;
                assert(fs[k] == x);
            } else {
                assert(fs[fs.len() - 1] == x);
            }
        }
    }
}

/// The first output of a filter-map comes from the first input it keeps, and
/// there is no output exactly when no input is kept.
proof fn lemma_filter_map_first<A, B>(s: Seq<A>, f: spec_fn(A) -> Option<B>) -> (j: int)
    ensures
        s.filter_map(f).len() == 0 <==> forall|k: int| 0 <= k < s.len() ==> (#[trigger] f(s[k])) is None,
        s.filter_map(f).len() > 0 ==> 0 <= j < s.len() && f(s[j]) == Some(s.filter_map(f)[0])
            && forall|k: int| 0 <= k < j ==> (#[trigger] f(s[k])) is None,
    decreases s.len(),
{
    if s.len() == 0 {
        0
    } else {
        let dl = s.drop_last();
        let jd = lemma_filter_map_first(dl, f);
        let fd = dl.filter_map(f);
        let fs = s.filter_map(f);
        assert forall|k: int| 0 <= k < dl.len() implies dl[k] == s[k] by {}
        if f(s.last()) is Some {
            assert(fs == fd + seq![f(s.last())->0]);
        } else {
            assert(fs == fd);
        }
        if fd.len() > 0 {
            assert(fs[0] == fd[0]);
            assert(forall|k: int| 0 <= k < jd ==> dl[k] == s[k]);
            jd
        } else {
            assert(forall|k: int| 0 <= k < dl.len() ==> (#[trigger] f(dl[k])) is None);
            assert(forall|k: int| 0 <= k < s.len() - 1 ==> f(s[k]) == f(dl[k]));
            if fs.len() == 0 {
                assert(f(s[s.len() - 1]) is None);
            }
            s.len() - 1
        }
    }
}

/// `errors` keeps exactly the error nodes and error tokens in and below the
/// node that cover some text, whatever their length.
pub proof fn lemma_errors_are_the_nonempty_errors(node: SyntaxNode, e: SyntaxElement)
    ensures
        spec_errors(node).contains(e) <==> (node.spec_descendants_with_tokens().contains(e)
            && e.spec_range().start != e.spec_range().end && (e.spec_kind()
            == SyntaxKind::NODE_ERROR || e.spec_kind() == SyntaxKind::TOKEN_ERROR)),
{
    let f = |x: SyntaxElement| nonempty_error(x);
    assert forall|y: SyntaxElement| #[trigger] f(y) is Some implies f(y) == Some(y) by {}
    lemma_keep_contains(node.spec_descendants_with_tokens(), f, e);
}

/// The first token is the first non-trivia token among the node's children:
/// it is a child, it is not trivia, and every child before it is a node or a
/// trivia token. There is none exactly when every child token is trivia.
pub proof fn lemma_first_token_is_first(node: SyntaxNode)
    ensures
        spec_first_token(node) is None <==> forall|k: int|
            0 <= k < node.spec_children_with_tokens().len() && (
            #[trigger] node.spec_children_with_tokens()[k]) is Token
                ==> node.spec_children_with_tokens()[k].spec_kind().spec_is_trivia(),
        spec_first_token(node) matches Some(t) ==> exists|j: int|
            0 <= j < node.spec_children_with_tokens().len()
                && node.spec_children_with_tokens()[j] == SyntaxElement::Token(t)
                && !t.spec_kind().spec_is_trivia() && forall|k: int|
                0 <= k < j && (#[trigger] node.spec_children_with_tokens()[k]) is Token
                    ==> node.spec_children_with_tokens()[k].spec_kind().spec_is_trivia(),
{
    let cwt = node.spec_children_with_tokens();
    let f = |x: SyntaxElement| non_trivia_token(x);
    let j = lemma_filter_map_first(cwt, f);
    assert forall|k: int| 0 <= k < cwt.len() && (#[trigger] cwt[k]) is Token && f(cwt[k]) is None
        implies cwt[k].spec_kind().spec_is_trivia() by {}
    assert forall|k: int| 0 <= k < cwt.len() && (#[trigger] cwt[k]) is Token
        && cwt[k].spec_kind().spec_is_trivia() implies f(cwt[k]) is None by {}
    assert forall|k: int| 0 <= k < cwt.len() && (#[trigger] cwt[k]) is Node implies f(cwt[k]) is None by {}
    if spec_tokens(node).len() > 0 {
        let t = spec_tokens(node)[0];
        assert(f(cwt[j]) == Some(t));
        assert(cwt[j] == SyntaxElement::Token(t));
    }
}

/// A node has a child of kind `k` exactly when one of its children, token or
/// node, wherever it stands, has kind `k`.
pub proof fn lemma_has_child_kind_iff(node: SyntaxNode, k: SyntaxKind)
    ensures
        spec_has_child_kind(node, k) <==> exists|e: SyntaxElement|
            #[trigger] node.spec_children_with_tokens().contains(e) && e.spec_kind() == k,
{
    let cwt = node.spec_children_with_tokens();
    if spec_has_child_kind(node, k) {
        let i = choose|i: int| 0 <= i < cwt.len() && #[trigger] cwt[i].spec_kind() == k;
        assert(cwt.contains(cwt[i]));
    }
    if exists|e: SyntaxElement| #[trigger] cwt.contains(e) && e.spec_kind() == k {
        let e = choose|e: SyntaxElement| #[trigger] cwt.contains(e) && e.spec_kind() == k;
        let i = choose|i: int| 0 <= i < cwt.len() && cwt[i] == e;
        assert(cwt[i].spec_kind() == k);
    }
}

/// The `i`th child accessor gives the `i`th child node whenever there is one,
/// for any `i`, and nothing otherwise.
pub proof fn lemma_nth_child_is_the_ith_child(node: SyntaxNode, i: int)
    ensures
        0 <= i < node.spec_children().len() ==> spec_nth_child(node, i) == Some(
            node.spec_children()[i],
        ),
        !(0 <= i < node.spec_children().len()) ==> spec_nth_child(node, i) is None,
{
}

/// An output of a filter-map is exactly the image of some input.
proof fn lemma_filter_map_contains_iff<A, B>(s: Seq<A>, f: spec_fn(A) -> Option<B>, b: B)
    ensures
        s.filter_map(f).contains(b) <==> exists|k: int| 0 <= k < s.len() && #[trigger] f(s[k]) == Some(b),
    decreases s.len(),
{
    if s.len() > 0 {
        let dl = s.drop_last();
        lemma_filter_map_contains_iff(dl, f, b);
        let fd = dl.filter_map(f);
        let fs = s.filter_map(f);
        assert forall|k: int| 0 <= k < dl.len() implies dl[k] == s[k] by {}
        if f(s.last()) is Some {
            assert(fs == fd + seq![f(s.last())->0]);
        } else {
            assert(fs == fd);
        }
        if fs.contains(b) {
            let m = choose|m: int| 0 <= m < fs.len() && fs[m] == b;
            if m < fd.len() {
                assert(fs[m] == fd[m]);
                assert(fd.contains(b));
                let k = choose|k: int| 0 <= k < dl.len() && #[trigger] f(dl[k]) == Some(b);
                assert(f(s[k]) == Some(b));
            } else {
                assert(f(s[s.len() - 1]) == Some(b));
            }
        }
        if exists|k: int| 0 <= k < s.len() && #[trigger] f(s[k]) == Some(b) {
            let k = choose|k: int| 0 <= k < s.len() && #[trigger] f(s[k]) == Some(b);
            if k < s.len() - 1 {
                assert(f(dl[k]) == Some(b));
                assert(fd.contains(b));
                let m = choose|m: int| 0 <= m < fd.len() && fd[m] == b;
                assert(fs[m] == b);
            } else {
                assert(fs[fs.len() - 1] == b);
            }
        }
    }
}

/// `tokens` gives exactly the child tokens that are not trivia.
pub proof fn lemma_tokens_are_the_nontrivia_child_tokens(node: SyntaxNode, t: SyntaxToken)
    ensures
        spec_tokens(node).contains(t) <==> (node.spec_children_with_tokens().contains(
            SyntaxElement::Token(t),
        ) && !t.spec_kind().spec_is_trivia()),
{
    let cwt = node.spec_children_with_tokens();
    let f = |x: SyntaxElement| non_trivia_token(x);
    lemma_filter_map_contains_iff(cwt, f, t);
    if spec_tokens(node).contains(t) {
        let k = choose|k: int| 0 <= k < cwt.len() && #[trigger] f(cwt[k]) == Some(t);
        assert(cwt[k] == SyntaxElement::Token(t));
    }
    if cwt.contains(SyntaxElement::Token(t)) && !t.spec_kind().spec_is_trivia() {
        let k = choose|k: int| 0 <= k < cwt.len() && cwt[k] == SyntaxElement::Token(t);
        assert(f(cwt[k]) == Some(t));
    }
}

/// The child nodes are exactly the children that are nodes.
pub proof fn lemma_children_are_the_child_nodes(node: SyntaxNode, c: SyntaxNode)
    ensures
        node.spec_children().contains(c) <==> node.spec_children_with_tokens().contains(
            SyntaxElement::Node(c),
        ),
{
    let cwt = node.spec_children_with_tokens();
    let f = |x: SyntaxElement| only_node(x);
    lemma_filter_map_contains_iff(cwt, f, c);
    if node.spec_children().contains(c) {
        let k = choose|k: int| 0 <= k < cwt.len() && #[trigger] f(cwt[k]) == Some(c);
        assert(cwt[k] == SyntaxElement::Node(c));
    }
    if cwt.contains(SyntaxElement::Node(c)) {
        let k = choose|k: int| 0 <= k < cwt.len() && cwt[k] == SyntaxElement::Node(c);
        assert(f(cwt[k]) == Some(c));
    }
}

/// The children of a given kind are exactly the child nodes of that kind.
pub proof fn lemma_children_of_kind(node: SyntaxNode, k: SyntaxKind, c: SyntaxNode)
    ensures
        spec_children_of_kind(node, k).contains(c) <==> (node.spec_children().contains(c)
            && c.spec_kind() == k),
{
    let f = |n: SyntaxNode| of_kind(n, k);
    assert forall|y: SyntaxNode| #[trigger] f(y) is Some implies f(y) == Some(y) by {}
    lemma_keep_contains(node.spec_children(), f, c);
}

/// A TypedNode is simply a wrapper around an untyped node to provide a type
/// system in some sense.
pub trait TypedNode: Clone + Sized {
    /// The kind of the nodes that this type wraps.
    spec fn spec_kind() -> SyntaxKind;

    /// The untyped node inside.
    spec fn spec_node(&self) -> SyntaxNode;

    /// Cast an untyped node into this strongly-typed node. This will return
    /// None if the type was not correct.
    fn cast(from: SyntaxNode) -> (r: Option<Self>)
        ensures
            r is Some <==> from.spec_kind() == Self::spec_kind(),
            r matches Some(t) ==> t.spec_node() == from,
    ;

    /// Return a reference to the inner untyped node
    fn node(&self) -> (r: &SyntaxNode)
        ensures
            *r == self.spec_node(),
            r.spec_kind() == Self::spec_kind(),
    ;

    /// Return all errors of all children, recursively
    fn errors(&self) -> (r: Vec<SyntaxElement>)
        ensures
            r@ == spec_errors(self.spec_node()),
    {
        errors_of(self.node())
    }

    /// Return the first non-trivia token
    fn first_token(&self) -> (r: Option<SyntaxToken>)
        ensures
            r == spec_first_token(self.spec_node()),
    {
        let mut ts = tokens(self.node());
        if ts.len() > 0 {
            Some(ts.remove(0))
        } else {
            None
        }
    }

    /// Return a dump of the AST. One of the goals is to be a stable
    /// format that can be used in tests.
    fn dump(&self) -> (r: TextDump)
        ensures
            r.spec_node() == self.spec_node(),
            r.spec_text() == dump_text(self.spec_node()),
    {
        TextDump::new(self.node().clone_node())
    }
}

/// The text of the token that a node starts with, if its first child is a token.
pub open spec fn spec_leading_token_text(node: SyntaxNode) -> Option<Seq<char>> {
    let cs = node.spec_green().spec_children();
    if cs.len() > 0 {
        match cs[0] {
            GreenElement::Token(t) => Some(t.spec_text()),
            GreenElement::Node(_) => None,
        }
    } else {
        None
    }
}

/// A node that wraps a single token, such as an identifier or a literal.
pub trait TokenWrapper: TypedNode {
    /// The text of the token that this node wraps: its first child.
    fn as_str(&self) -> (r: &str)
        requires
            spec_leading_token_text(self.spec_node()) is Some,
        ensures
            Some(r@) == spec_leading_token_text(self.spec_node()),
    {
        let cs = self.node().green().children();
        match &cs[0] {
            GreenElement::Token(t) => t.text(),
            GreenElement::Node(_) => {
                proof {
                    assert(false);
                }
                ""
            },
        }
    }
}

/// Provides the function `.entries()`
pub trait EntryHolder: TypedNode {
    /// Return all key=value entries
    fn entries(&self) -> (r: Vec<SetEntry>)
        ensures
            r@.map_values(|e: SetEntry| e.spec_node()) == spec_children_of_kind(
                self.spec_node(),
                SyntaxKind::NODE_SET_ENTRY,
            ),
    {
        children_of::<SetEntry>(self.node())
    }

    /// Return all inherit entries
    fn inherits(&self) -> (r: Vec<Inherit>)
        ensures
            r@.map_values(|e: Inherit| e.spec_node()) == spec_children_of_kind(
                self.spec_node(),
                SyntaxKind::NODE_INHERIT,
            ),
    {
        children_of::<Inherit>(self.node())
    }
}

/// Provides the function `.inner()` for wrapping types like parenthensis
pub trait Wrapper: TypedNode {
    /// Return the inner value
    fn inner(&self) -> (r: Option<SyntaxNode>)
        ensures
            r == spec_nth_child(self.spec_node(), 0),
    {
        nth_child(self.node(), 0)
    }
}

/// The kind of a node that has no typed wrapper.
pub struct ParsedTypeError(pub SyntaxKind);

/// An identifier.
pub struct Ident(SyntaxNode);

impl Ident {
    #[verifier::type_invariant]
    spec fn inv(self) -> bool {
        self.0.spec_kind() == SyntaxKind::NODE_IDENT
    }
}

impl Clone for Ident {
    fn clone(&self) -> (r: Self)
        ensures
            r == *self,
    {
        proof {
            use_type_invariant(self);
        }
        Ident(self.0.clone_node())
    }
}

impl TypedNode for Ident {
    open spec fn spec_kind() -> SyntaxKind {
        SyntaxKind::NODE_IDENT
    }

    closed spec fn spec_node(&self) -> SyntaxNode {
        self.0
    }

    fn cast(from: SyntaxNode) -> (r: Option<Self>) {
        if from.kind() == SyntaxKind::NODE_IDENT {
            Some(Ident(from))
        } else {
            None
        }
    }

    fn node(&self) -> (r: &SyntaxNode) {
        proof {
            use_type_invariant(self);
            assert(self.0.spec_kind() == Self::spec_kind());
        }
        &self.0
    }
}

impl TokenWrapper for Ident {

}

/// A literal value, such as a number, a path or a URI.
pub struct Value(SyntaxNode);

impl Value {
    #[verifier::type_invariant]
    spec fn inv(self) -> bool {
        self.0.spec_kind() == SyntaxKind::NODE_VALUE
    }
}

impl Clone for Value {
    fn clone(&self) -> (r: Self)
        ensures
            r == *self,
    {
        proof {
            use_type_invariant(self);
        }
        Value(self.0.clone_node())
    }
}

impl TypedNode for Value {
    open spec fn spec_kind() -> SyntaxKind {
        SyntaxKind::NODE_VALUE
    }

    closed spec fn spec_node(&self) -> SyntaxNode {
        self.0
    }

    fn cast(from: SyntaxNode) -> (r: Option<Self>) {
        if from.kind() == SyntaxKind::NODE_VALUE {
            Some(Value(from))
        } else {
            None
        }
    }

    fn node(&self) -> (r: &SyntaxNode) {
        proof {
            use_type_invariant(self);
            assert(self.0.spec_kind() == Self::spec_kind());
        }
        &self.0
    }
}

impl TokenWrapper for Value {

}

/// A function application.
pub struct Apply(SyntaxNode);

impl Apply {
    #[verifier::type_invariant]
    spec fn inv(self) -> bool {
        self.0.spec_kind() == SyntaxKind::NODE_APPLY
    }
}

impl Clone for Apply {
    fn clone(&self) -> (r: Self)
        ensures
            r == *self,
    {
        proof {
            use_type_invariant(self);
        }
        Apply(self.0.clone_node())
    }
}

impl TypedNode for Apply {
    open spec fn spec_kind() -> SyntaxKind {
        SyntaxKind::NODE_APPLY
    }

    closed spec fn spec_node(&self) -> SyntaxNode {
        self.0
    }

    fn cast(from: SyntaxNode) -> (r: Option<Self>) {
        if from.kind() == SyntaxKind::NODE_APPLY {
            Some(Apply(from))
        } else {
            None
        }
    }

    fn node(&self) -> (r: &SyntaxNode) {
        proof {
            use_type_invariant(self);
            assert(self.0.spec_kind() == Self::spec_kind());
        }
        &self.0
    }
}

impl Apply {
    /// Return the lambda being applied
    pub fn lambda(&self) -> (r: Option<SyntaxNode>)
        ensures
            r == spec_nth_child(self.spec_node(), 0),
    {
        nth_child(self.node(), 0)
    }

    /// Return the value which the lambda is being applied with
    pub fn value(&self) -> (r: Option<SyntaxNode>)
        ensures
            r == spec_nth_child(self.spec_node(), 1),
    {
        nth_child(self.node(), 1)
    }
}

/// An assertion followed by a body.
pub struct Assert(SyntaxNode);

impl Assert {
    #[verifier::type_invariant]
    spec fn inv(self) -> bool {
        self.0.spec_kind() == SyntaxKind::NODE_ASSERT
    }
}

impl Clone for Assert {
    fn clone(&self) -> (r: Self)
        ensures
            r == *self,
    {
        proof {
            use_type_invariant(self);
        }
        Assert(self.0.clone_node())
    }
}

impl TypedNode for Assert {
    open spec fn spec_kind() -> SyntaxKind {
        SyntaxKind::NODE_ASSERT
    }

    closed spec fn spec_node(&self) -> SyntaxNode {
        self.0
    }

    fn cast(from: SyntaxNode) -> (r: Option<Self>) {
        if from.kind() == SyntaxKind::NODE_ASSERT {
            Some(Assert(from))
        } else {
            None
        }
    }

    fn node(&self) -> (r: &SyntaxNode) {
        proof {
            use_type_invariant(self);
            assert(self.0.spec_kind() == Self::spec_kind());
        }
        &self.0
    }
}

impl Assert {
    /// Return the assert condition
    pub fn condition(&self) -> (r: Option<SyntaxNode>)
        ensures
            r == spec_nth_child(self.spec_node(), 0),
    {
        nth_child(self.node(), 0)
    }

    /// Return the success body
    pub fn body(&self) -> (r: Option<SyntaxNode>)
        ensures
            r == spec_nth_child(self.spec_node(), 1),
    {
        nth_child(self.node(), 1)
    }
}

/// An attribute path.
pub struct Attribute(SyntaxNode);

impl Attribute {
    #[verifier::type_invariant]
    spec fn inv(self) -> bool {
        self.0.spec_kind() == SyntaxKind::NODE_ATTRIBUTE
    }
}

impl Clone for Attribute {
    fn clone(&self) -> (r: Self)
        ensures
            r == *self,
    {
        proof {
            use_type_invariant(self);
        }
        Attribute(self.0.clone_node())
    }
}

impl TypedNode for Attribute {
    open spec fn spec_kind() -> SyntaxKind {
        SyntaxKind::NODE_ATTRIBUTE
    }

    closed spec fn spec_node(&self) -> SyntaxNode {
        self.0
    }

    fn cast(from: SyntaxNode) -> (r: Option<Self>) {
        if from.kind() == SyntaxKind::NODE_ATTRIBUTE {
            Some(Attribute(from))
        } else {
            None
        }
    }

    fn node(&self) -> (r: &SyntaxNode) {
        proof {
            use_type_invariant(self);
            assert(self.0.spec_kind() == Self::spec_kind());
        }
        &self.0
    }
}

impl Attribute {
    /// Return the path as a list of identifiers
    pub fn path(&self) -> (r: Vec<SyntaxNode>)
        ensures
            r@ == self.spec_node().spec_children(),
    {
        self.node().children()
    }
}

/// A dynamic attribute, `${...}`.
pub struct Dynamic(SyntaxNode);

impl Dynamic {
    #[verifier::type_invariant]
    spec fn inv(self) -> bool {
        self.0.spec_kind() == SyntaxKind::NODE_DYNAMIC
    }
}

impl Clone for Dynamic {
    fn clone(&self) -> (r: Self)
        ensures
            r == *self,
    {
        proof {
            use_type_invariant(self);
        }
        Dynamic(self.0.clone_node())
    }
}

impl TypedNode for Dynamic {
    open spec fn spec_kind() -> SyntaxKind {
        SyntaxKind::NODE_DYNAMIC
    }

    closed spec fn spec_node(&self) -> SyntaxNode {
        self.0
    }

    fn cast(from: SyntaxNode) -> (r: Option<Self>) {
        if from.kind() == SyntaxKind::NODE_DYNAMIC {
            Some(Dynamic(from))
        } else {
            None
        }
    }

    fn node(&self) -> (r: &SyntaxNode) {
        proof {
            use_type_invariant(self);
            assert(self.0.spec_kind() == Self::spec_kind());
        }
        &self.0
    }
}

impl Wrapper for Dynamic {

}

/// A piece of source that could not be parsed.
pub struct Error(SyntaxNode);

impl Error {
    #[verifier::type_invariant]
    spec fn inv(self) -> bool {
        self.0.spec_kind() == SyntaxKind::NODE_ERROR
    }
}

impl Clone for Error {
    fn clone(&self) -> (r: Self)
        ensures
            r == *self,
    {
        proof {
            use_type_invariant(self);
        }
        Error(self.0.clone_node())
    }
}

impl TypedNode for Error {
    open spec fn spec_kind() -> SyntaxKind {
        SyntaxKind::NODE_ERROR
    }

    closed spec fn spec_node(&self) -> SyntaxNode {
        self.0
    }

    fn cast(from: SyntaxNode) -> (r: Option<Self>) {
        if from.kind() == SyntaxKind::NODE_ERROR {
            Some(Error(from))
        } else {
            None
        }
    }

    fn node(&self) -> (r: &SyntaxNode) {
        proof {
            use_type_invariant(self);
            assert(self.0.spec_kind() == Self::spec_kind());
        }
        &self.0
    }
}

/// A conditional.
pub struct IfElse(SyntaxNode);

impl IfElse {
    #[verifier::type_invariant]
    spec fn inv(self) -> bool {
        self.0.spec_kind() == SyntaxKind::NODE_IF_ELSE
    }
}

impl Clone for IfElse {
    fn clone(&self) -> (r: Self)
        ensures
            r == *self,
    {
        proof {
            use_type_invariant(self);
        }
        IfElse(self.0.clone_node())
    }
}

impl TypedNode for IfElse {
    open spec fn spec_kind() -> SyntaxKind {
        SyntaxKind::NODE_IF_ELSE
    }

    closed spec fn spec_node(&self) -> SyntaxNode {
        self.0
    }

    fn cast(from: SyntaxNode) -> (r: Option<Self>) {
        if from.kind() == SyntaxKind::NODE_IF_ELSE {
            Some(IfElse(from))
        } else {
            None
        }
    }

    fn node(&self) -> (r: &SyntaxNode) {
        proof {
            use_type_invariant(self);
            assert(self.0.spec_kind() == Self::spec_kind());
        }
        &self.0
    }
}

impl IfElse {
    /// Return the condition
    pub fn condition(&self) -> (r: Option<SyntaxNode>)
        ensures
            r == spec_nth_child(self.spec_node(), 0),
    {
        nth_child(self.node(), 0)
    }

    /// Return the success body
    pub fn body(&self) -> (r: Option<SyntaxNode>)
        ensures
            r == spec_nth_child(self.spec_node(), 1),
    {
        nth_child(self.node(), 1)
    }

    /// Return the else body
    pub fn else_body(&self) -> (r: Option<SyntaxNode>)
        ensures
            r == spec_nth_child(self.spec_node(), 2),
    {
        nth_child(self.node(), 2)
    }
}

/// An attribute selection, `set.index`.
pub struct IndexSet(SyntaxNode);

impl IndexSet {
    #[verifier::type_invariant]
    spec fn inv(self) -> bool {
        self.0.spec_kind() == SyntaxKind::NODE_INDEX_SET
    }
}

impl Clone for IndexSet {
    fn clone(&self) -> (r: Self)
        ensures
            r == *self,
    {
        proof {
            use_type_invariant(self);
        }
        IndexSet(self.0.clone_node())
    }
}

impl TypedNode for IndexSet {
    open spec fn spec_kind() -> SyntaxKind {
        SyntaxKind::NODE_INDEX_SET
    }

    closed spec fn spec_node(&self) -> SyntaxNode {
        self.0
    }

    fn cast(from: SyntaxNode) -> (r: Option<Self>) {
        if from.kind() == SyntaxKind::NODE_INDEX_SET {
            Some(IndexSet(from))
        } else {
            None
        }
    }

    fn node(&self) -> (r: &SyntaxNode) {
        proof {
            use_type_invariant(self);
            assert(self.0.spec_kind() == Self::spec_kind());
        }
        &self.0
    }
}

impl IndexSet {
    /// Return the set being indexed
    pub fn set(&self) -> (r: Option<SyntaxNode>)
        ensures
            r == spec_nth_child(self.spec_node(), 0),
    {
        nth_child(self.node(), 0)
    }

    /// Return the index
    pub fn index(&self) -> (r: Option<SyntaxNode>)
        ensures
            r == spec_nth_child(self.spec_node(), 1),
    {
        nth_child(self.node(), 1)
    }
}

/// An `inherit` entry.
pub struct Inherit(SyntaxNode);

impl Inherit {
    #[verifier::type_invariant]
    spec fn inv(self) -> bool {
        self.0.spec_kind() == SyntaxKind::NODE_INHERIT
    }
}

impl Clone for Inherit {
    fn clone(&self) -> (r: Self)
        ensures
            r == *self,
    {
        proof {
            use_type_invariant(self);
        }
        Inherit(self.0.clone_node())
    }
}

impl TypedNode for Inherit {
    open spec fn spec_kind() -> SyntaxKind {
        SyntaxKind::NODE_INHERIT
    }

    closed spec fn spec_node(&self) -> SyntaxNode {
        self.0
    }

    fn cast(from: SyntaxNode) -> (r: Option<Self>) {
        if from.kind() == SyntaxKind::NODE_INHERIT {
            Some(Inherit(from))
        } else {
            None
        }
    }

    fn node(&self) -> (r: &SyntaxNode) {
        proof {
            use_type_invariant(self);
            assert(self.0.spec_kind() == Self::spec_kind());
        }
        &self.0
    }
}

impl Inherit {
    /// Return the set where keys are being inherited from, if any
    pub fn from(&self) -> (r: Option<InheritFrom>)
        ensures
            r is Some <==> spec_children_of_kind(self.spec_node(), SyntaxKind::NODE_INHERIT_FROM).len() > 0,
            r matches Some(t) ==> t.spec_node() == spec_children_of_kind(
                self.spec_node(),
                SyntaxKind::NODE_INHERIT_FROM,
            )[0],
    {
        first_child_of::<InheritFrom>(self.node())
    }

    /// Return all the identifiers being inherited
    pub fn idents(&self) -> (r: Vec<Ident>)
        ensures
            r@.map_values(|t: Ident| t.spec_node()) == spec_children_of_kind(
                self.spec_node(),
                SyntaxKind::NODE_IDENT,
            ),
    {
        children_of::<Ident>(self.node())
    }
}

/// The set an `inherit` entry takes its keys from.
pub struct InheritFrom(SyntaxNode);

impl InheritFrom {
    #[verifier::type_invariant]
    spec fn inv(self) -> bool {
        self.0.spec_kind() == SyntaxKind::NODE_INHERIT_FROM
    }
}

impl Clone for InheritFrom {
    fn clone(&self) -> (r: Self)
        ensures
            r == *self,
    {
        proof {
            use_type_invariant(self);
        }
        InheritFrom(self.0.clone_node())
    }
}

impl TypedNode for InheritFrom {
    open spec fn spec_kind() -> SyntaxKind {
        SyntaxKind::NODE_INHERIT_FROM
    }

    closed spec fn spec_node(&self) -> SyntaxNode {
        self.0
    }

    fn cast(from: SyntaxNode) -> (r: Option<Self>) {
        if from.kind() == SyntaxKind::NODE_INHERIT_FROM {
            Some(InheritFrom(from))
        } else {
            None
        }
    }

    fn node(&self) -> (r: &SyntaxNode) {
        proof {
            use_type_invariant(self);
            assert(self.0.spec_kind() == Self::spec_kind());
        }
        &self.0
    }
}

impl Wrapper for InheritFrom {

}

/// A string, possibly with interpolations.
pub struct Str(SyntaxNode);

impl Str {
    #[verifier::type_invariant]
    spec fn inv(self) -> bool {
        self.0.spec_kind() == SyntaxKind::NODE_STRING
    }
}

impl Clone for Str {
    fn clone(&self) -> (r: Self)
        ensures
            r == *self,
    {
        proof {
            use_type_invariant(self);
        }
        Str(self.0.clone_node())
    }
}

impl TypedNode for Str {
    open spec fn spec_kind() -> SyntaxKind {
        SyntaxKind::NODE_STRING
    }

    closed spec fn spec_node(&self) -> SyntaxNode {
        self.0
    }

    fn cast(from: SyntaxNode) -> (r: Option<Self>) {
        if from.kind() == SyntaxKind::NODE_STRING {
            Some(Str(from))
        } else {
            None
        }
    }

    fn node(&self) -> (r: &SyntaxNode) {
        proof {
            use_type_invariant(self);
            assert(self.0.spec_kind() == Self::spec_kind());
        }
        &self.0
    }
}

/// A function.
pub struct Lambda(SyntaxNode);

impl Lambda {
    #[verifier::type_invariant]
    spec fn inv(self) -> bool {
        self.0.spec_kind() == SyntaxKind::NODE_LAMBDA
    }
}

impl Clone for Lambda {
    fn clone(&self) -> (r: Self)
        ensures
            r == *self,
    {
        proof {
            use_type_invariant(self);
        }
        Lambda(self.0.clone_node())
    }
}

impl TypedNode for Lambda {
    open spec fn spec_kind() -> SyntaxKind {
        SyntaxKind::NODE_LAMBDA
    }

    closed spec fn spec_node(&self) -> SyntaxNode {
        self.0
    }

    fn cast(from: SyntaxNode) -> (r: Option<Self>) {
        if from.kind() == SyntaxKind::NODE_LAMBDA {
            Some(Lambda(from))
        } else {
            None
        }
    }

    fn node(&self) -> (r: &SyntaxNode) {
        proof {
            use_type_invariant(self);
            assert(self.0.spec_kind() == Self::spec_kind());
        }
        &self.0
    }
}

impl Lambda {
    /// Return the argument of the lambda
    pub fn arg(&self) -> (r: Option<SyntaxNode>)
        ensures
            r == spec_nth_child(self.spec_node(), 0),
    {
        nth_child(self.node(), 0)
    }

    /// Return the body of the lambda
    pub fn body(&self) -> (r: Option<SyntaxNode>)
        ensures
            r == spec_nth_child(self.spec_node(), 1),
    {
        nth_child(self.node(), 1)
    }
}

/// A legacy `let { ... }` set.
pub struct Let(SyntaxNode);

impl Let {
    #[verifier::type_invariant]
    spec fn inv(self) -> bool {
        self.0.spec_kind() == SyntaxKind::NODE_LET
    }
}

impl Clone for Let {
    fn clone(&self) -> (r: Self)
        ensures
            r == *self,
    {
        proof {
            use_type_invariant(self);
        }
        Let(self.0.clone_node())
    }
}

impl TypedNode for Let {
    open spec fn spec_kind() -> SyntaxKind {
        SyntaxKind::NODE_LET
    }

    closed spec fn spec_node(&self) -> SyntaxNode {
        self.0
    }

    fn cast(from: SyntaxNode) -> (r: Option<Self>) {
        if from.kind() == SyntaxKind::NODE_LET {
            Some(Let(from))
        } else {
            None
        }
    }

    fn node(&self) -> (r: &SyntaxNode) {
        proof {
            use_type_invariant(self);
            assert(self.0.spec_kind() == Self::spec_kind());
        }
        &self.0
    }
}

impl EntryHolder for Let {

}

/// A `let ... in ...` expression.
pub struct LetIn(SyntaxNode);

impl LetIn {
    #[verifier::type_invariant]
    spec fn inv(self) -> bool {
        self.0.spec_kind() == SyntaxKind::NODE_LET_IN
    }
}

impl Clone for LetIn {
    fn clone(&self) -> (r: Self)
        ensures
            r == *self,
    {
        proof {
            use_type_invariant(self);
        }
        LetIn(self.0.clone_node())
    }
}

impl TypedNode for LetIn {
    open spec fn spec_kind() -> SyntaxKind {
        SyntaxKind::NODE_LET_IN
    }

    closed spec fn spec_node(&self) -> SyntaxNode {
        self.0
    }

    fn cast(from: SyntaxNode) -> (r: Option<Self>) {
        if from.kind() == SyntaxKind::NODE_LET_IN {
            Some(LetIn(from))
        } else {
            None
        }
    }

    fn node(&self) -> (r: &SyntaxNode) {
        proof {
            use_type_invariant(self);
            assert(self.0.spec_kind() == Self::spec_kind());
        }
        &self.0
    }
}

impl EntryHolder for LetIn {

}

impl LetIn {
    /// Return the body
    pub fn body(&self) -> (r: Option<SyntaxNode>)
        ensures
            r == (if self.spec_node().spec_children().len() > 0 {
                Some(self.spec_node().spec_children().last())
            } else {
                None
            }),
    {
        self.node().last_child()
    }
}

/// A list.
pub struct List(SyntaxNode);

impl List {
    #[verifier::type_invariant]
    spec fn inv(self) -> bool {
        self.0.spec_kind() == SyntaxKind::NODE_LIST
    }
}

impl Clone for List {
    fn clone(&self) -> (r: Self)
        ensures
            r == *self,
    {
        proof {
            use_type_invariant(self);
        }
        List(self.0.clone_node())
    }
}

impl TypedNode for List {
    open spec fn spec_kind() -> SyntaxKind {
        SyntaxKind::NODE_LIST
    }

    closed spec fn spec_node(&self) -> SyntaxNode {
        self.0
    }

    fn cast(from: SyntaxNode) -> (r: Option<Self>) {
        if from.kind() == SyntaxKind::NODE_LIST {
            Some(List(from))
        } else {
            None
        }
    }

    fn node(&self) -> (r: &SyntaxNode) {
        proof {
            use_type_invariant(self);
            assert(self.0.spec_kind() == Self::spec_kind());
        }
        &self.0
    }
}

impl List {
    /// Return the items in the list
    pub fn items(&self) -> (r: Vec<SyntaxNode>)
        ensures
            r@ == self.spec_node().spec_children(),
    {
        self.node().children()
    }
}

/// A binary operation.
pub struct Operation(SyntaxNode);

impl Operation {
    #[verifier::type_invariant]
    spec fn inv(self) -> bool {
        self.0.spec_kind() == SyntaxKind::NODE_OPERATION
    }
}

impl Clone for Operation {
    fn clone(&self) -> (r: Self)
        ensures
            r == *self,
    {
        proof {
            use_type_invariant(self);
        }
        Operation(self.0.clone_node())
    }
}

impl TypedNode for Operation {
    open spec fn spec_kind() -> SyntaxKind {
        SyntaxKind::NODE_OPERATION
    }

    closed spec fn spec_node(&self) -> SyntaxNode {
        self.0
    }

    fn cast(from: SyntaxNode) -> (r: Option<Self>) {
        if from.kind() == SyntaxKind::NODE_OPERATION {
            Some(Operation(from))
        } else {
            None
        }
    }

    fn node(&self) -> (r: &SyntaxNode) {
        proof {
            use_type_invariant(self);
            assert(self.0.spec_kind() == Self::spec_kind());
        }
        &self.0
    }
}

impl Operation {
    /// Return the first value in the operation
    pub fn value1(&self) -> (r: Option<SyntaxNode>)
        ensures
            r == spec_nth_child(self.spec_node(), 0),
    {
        nth_child(self.node(), 0)
    }

    /// Return the operator
    pub fn operator(&self) -> (r: OpKind)
        requires
            spec_first_token(self.spec_node()) matches Some(t) && exists|op: OpKind|
                #[trigger] op.spec_token() == t.spec_kind(),
        ensures
            r.spec_token() == spec_first_token(self.spec_node())->0.spec_kind(),
    {
        match self.first_token() {
            Some(t) => match OpKind::from_token(t.kind()) {
                Some(op) => op,
                None => {
                    proof {
                        assert(false);
                    }
                    OpKind::Concat
                },
            },
            None => {
                proof {
                    assert(false);
                }
                OpKind::Concat
            },
        }
    }

    /// Return the second value in the operation
    pub fn value2(&self) -> (r: Option<SyntaxNode>)
        ensures
            r == spec_nth_child(self.spec_node(), 1),
    {
        nth_child(self.node(), 1)
    }
}

/// An attribute selection with a fallback, `set.index or default`.
pub struct OrDefault(SyntaxNode);

impl OrDefault {
    #[verifier::type_invariant]
    spec fn inv(self) -> bool {
        self.0.spec_kind() == SyntaxKind::NODE_OR_DEFAULT
    }
}

impl Clone for OrDefault {
    fn clone(&self) -> (r: Self)
        ensures
            r == *self,
    {
        proof {
            use_type_invariant(self);
        }
        OrDefault(self.0.clone_node())
    }
}

impl TypedNode for OrDefault {
    open spec fn spec_kind() -> SyntaxKind {
        SyntaxKind::NODE_OR_DEFAULT
    }

    closed spec fn spec_node(&self) -> SyntaxNode {
        self.0
    }

    fn cast(from: SyntaxNode) -> (r: Option<Self>) {
        if from.kind() == SyntaxKind::NODE_OR_DEFAULT {
            Some(OrDefault(from))
        } else {
            None
        }
    }

    fn node(&self) -> (r: &SyntaxNode) {
        proof {
            use_type_invariant(self);
            assert(self.0.spec_kind() == Self::spec_kind());
        }
        &self.0
    }
}

impl OrDefault {
    /// Return the indexing operation
    pub fn index(&self) -> (r: Option<IndexSet>)
        ensures
            r is Some <==> (spec_nth_child(self.spec_node(), 0) matches Some(c) && c.spec_kind()
                == SyntaxKind::NODE_INDEX_SET),
            r matches Some(t) ==> spec_nth_child(self.spec_node(), 0) == Some(t.spec_node()),
    {
        nth_child_as::<IndexSet>(self.node(), 0)
    }

    /// Return the default value
    pub fn default(&self) -> (r: Option<SyntaxNode>)
        ensures
            r == spec_nth_child(self.spec_node(), 1),
    {
        nth_child(self.node(), 1)
    }
}

/// A parenthesized expression.
pub struct Paren(SyntaxNode);

impl Paren {
    #[verifier::type_invariant]
    spec fn inv(self) -> bool {
        self.0.spec_kind() == SyntaxKind::NODE_PAREN
    }
}

impl Clone for Paren {
    fn clone(&self) -> (r: Self)
        ensures
            r == *self,
    {
        proof {
            use_type_invariant(self);
        }
        Paren(self.0.clone_node())
    }
}

impl TypedNode for Paren {
    open spec fn spec_kind() -> SyntaxKind {
        SyntaxKind::NODE_PAREN
    }

    closed spec fn spec_node(&self) -> SyntaxNode {
        self.0
    }

    fn cast(from: SyntaxNode) -> (r: Option<Self>) {
        if from.kind() == SyntaxKind::NODE_PAREN {
            Some(Paren(from))
        } else {
            None
        }
    }

    fn node(&self) -> (r: &SyntaxNode) {
        proof {
            use_type_invariant(self);
            assert(self.0.spec_kind() == Self::spec_kind());
        }
        &self.0
    }
}

impl Wrapper for Paren {

}

/// The name a whole argument set is bound to, `args @`.
pub struct PatBind(SyntaxNode);

impl PatBind {
    #[verifier::type_invariant]
    spec fn inv(self) -> bool {
        self.0.spec_kind() == SyntaxKind::NODE_PAT_BIND
    }
}

impl Clone for PatBind {
    fn clone(&self) -> (r: Self)
        ensures
            r == *self,
    {
        proof {
            use_type_invariant(self);
        }
        PatBind(self.0.clone_node())
    }
}

impl TypedNode for PatBind {
    open spec fn spec_kind() -> SyntaxKind {
        SyntaxKind::NODE_PAT_BIND
    }

    closed spec fn spec_node(&self) -> SyntaxNode {
        self.0
    }

    fn cast(from: SyntaxNode) -> (r: Option<Self>) {
        if from.kind() == SyntaxKind::NODE_PAT_BIND {
            Some(PatBind(from))
        } else {
            None
        }
    }

    fn node(&self) -> (r: &SyntaxNode) {
        proof {
            use_type_invariant(self);
            assert(self.0.spec_kind() == Self::spec_kind());
        }
        &self.0
    }
}

impl PatBind {
    /// Return the identifier the set is being bound as
    pub fn name(&self) -> (r: Option<Ident>)
        ensures
            r is Some <==> (spec_nth_child(self.spec_node(), 0) matches Some(c) && c.spec_kind()
                == SyntaxKind::NODE_IDENT),
            r matches Some(t) ==> spec_nth_child(self.spec_node(), 0) == Some(t.spec_node()),
    {
        nth_child_as::<Ident>(self.node(), 0)
    }
}

/// An entry of an argument pattern.
pub struct PatEntry(SyntaxNode);

impl PatEntry {
    #[verifier::type_invariant]
    spec fn inv(self) -> bool {
        self.0.spec_kind() == SyntaxKind::NODE_PAT_ENTRY
    }
}

impl Clone for PatEntry {
    fn clone(&self) -> (r: Self)
        ensures
            r == *self,
    {
        proof {
            use_type_invariant(self);
        }
        PatEntry(self.0.clone_node())
    }
}

impl TypedNode for PatEntry {
    open spec fn spec_kind() -> SyntaxKind {
        SyntaxKind::NODE_PAT_ENTRY
    }

    closed spec fn spec_node(&self) -> SyntaxNode {
        self.0
    }

    fn cast(from: SyntaxNode) -> (r: Option<Self>) {
        if from.kind() == SyntaxKind::NODE_PAT_ENTRY {
            Some(PatEntry(from))
        } else {
            None
        }
    }

    fn node(&self) -> (r: &SyntaxNode) {
        proof {
            use_type_invariant(self);
            assert(self.0.spec_kind() == Self::spec_kind());
        }
        &self.0
    }
}

impl PatEntry {
    /// Return the identifier the argument is being bound as
    pub fn name(&self) -> (r: Option<Ident>)
        ensures
            r is Some <==> (spec_nth_child(self.spec_node(), 0) matches Some(c) && c.spec_kind()
                == SyntaxKind::NODE_IDENT),
            r matches Some(t) ==> spec_nth_child(self.spec_node(), 0) == Some(t.spec_node()),
    {
        nth_child_as::<Ident>(self.node(), 0)
    }

    /// Return the default value, if any
    pub fn default(&self) -> (r: Option<SyntaxNode>)
        ensures
            r == spec_nth_child(self.spec_node(), 1),
    {
        nth_child(self.node(), 1)
    }
}

/// An argument pattern, `{ a, b ? 1, ... }`.
pub struct Pattern(SyntaxNode);

impl Pattern {
    #[verifier::type_invariant]
    spec fn inv(self) -> bool {
        self.0.spec_kind() == SyntaxKind::NODE_PATTERN
    }
}

impl Clone for Pattern {
    fn clone(&self) -> (r: Self)
        ensures
            r == *self,
    {
        proof {
            use_type_invariant(self);
        }
        Pattern(self.0.clone_node())
    }
}

impl TypedNode for Pattern {
    open spec fn spec_kind() -> SyntaxKind {
        SyntaxKind::NODE_PATTERN
    }

    closed spec fn spec_node(&self) -> SyntaxNode {
        self.0
    }

    fn cast(from: SyntaxNode) -> (r: Option<Self>) {
        if from.kind() == SyntaxKind::NODE_PATTERN {
            Some(Pattern(from))
        } else {
            None
        }
    }

    fn node(&self) -> (r: &SyntaxNode) {
        proof {
            use_type_invariant(self);
            assert(self.0.spec_kind() == Self::spec_kind());
        }
        &self.0
    }
}

impl Pattern {
    /// Return all pattern entries
    pub fn entries(&self) -> (r: Vec<PatEntry>)
        ensures
            r@.map_values(|t: PatEntry| t.spec_node()) == spec_children_of_kind(
                self.spec_node(),
                SyntaxKind::NODE_PAT_ENTRY,
            ),
    {
        children_of::<PatEntry>(self.node())
    }

    /// Returns true if this pattern is inexact (has an ellipsis, ...)
    pub fn ellipsis(&self) -> (r: bool)
        ensures
            r == spec_has_child_kind(self.spec_node(), SyntaxKind::TOKEN_ELLIPSIS),
    {
        has_child_kind(self.node(), SyntaxKind::TOKEN_ELLIPSIS)
    }
}

/// The root of a parsed file.
pub struct Root(SyntaxNode);

impl Root {
    #[verifier::type_invariant]
    spec fn inv(self) -> bool {
        self.0.spec_kind() == SyntaxKind::NODE_ROOT
    }
}

impl Clone for Root {
    fn clone(&self) -> (r: Self)
        ensures
            r == *self,
    {
        proof {
            use_type_invariant(self);
        }
        Root(self.0.clone_node())
    }
}

impl TypedNode for Root {
    open spec fn spec_kind() -> SyntaxKind {
        SyntaxKind::NODE_ROOT
    }

    closed spec fn spec_node(&self) -> SyntaxNode {
        self.0
    }

    fn cast(from: SyntaxNode) -> (r: Option<Self>) {
        if from.kind() == SyntaxKind::NODE_ROOT {
            Some(Root(from))
        } else {
            None
        }
    }

    fn node(&self) -> (r: &SyntaxNode) {
        proof {
            use_type_invariant(self);
            assert(self.0.spec_kind() == Self::spec_kind());
        }
        &self.0
    }
}

impl Wrapper for Root {

}

/// An attribute set.
pub struct AttrSet(SyntaxNode);

impl AttrSet {
    #[verifier::type_invariant]
    spec fn inv(self) -> bool {
        self.0.spec_kind() == SyntaxKind::NODE_SET
    }
}

impl Clone for AttrSet {
    fn clone(&self) -> (r: Self)
        ensures
            r == *self,
    {
        proof {
            use_type_invariant(self);
        }
        AttrSet(self.0.clone_node())
    }
}

impl TypedNode for AttrSet {
    open spec fn spec_kind() -> SyntaxKind {
        SyntaxKind::NODE_SET
    }

    closed spec fn spec_node(&self) -> SyntaxNode {
        self.0
    }

    fn cast(from: SyntaxNode) -> (r: Option<Self>) {
        if from.kind() == SyntaxKind::NODE_SET {
            Some(AttrSet(from))
        } else {
            None
        }
    }

    fn node(&self) -> (r: &SyntaxNode) {
        proof {
            use_type_invariant(self);
            assert(self.0.spec_kind() == Self::spec_kind());
        }
        &self.0
    }
}

impl EntryHolder for AttrSet {

}

impl AttrSet {
    /// Returns true if this set is recursive
    pub fn recursive(&self) -> (r: bool)
        ensures
            r == spec_has_child_kind(self.spec_node(), SyntaxKind::TOKEN_REC),
    {
        has_child_kind(self.node(), SyntaxKind::TOKEN_REC)
    }
}

/// A `key = value;` entry of a set.
pub struct SetEntry(SyntaxNode);

impl SetEntry {
    #[verifier::type_invariant]
    spec fn inv(self) -> bool {
        self.0.spec_kind() == SyntaxKind::NODE_SET_ENTRY
    }
}

impl Clone for SetEntry {
    fn clone(&self) -> (r: Self)
        ensures
            r == *self,
    {
        proof {
            use_type_invariant(self);
        }
        SetEntry(self.0.clone_node())
    }
}

impl TypedNode for SetEntry {
    open spec fn spec_kind() -> SyntaxKind {
        SyntaxKind::NODE_SET_ENTRY
    }

    closed spec fn spec_node(&self) -> SyntaxNode {
        self.0
    }

    fn cast(from: SyntaxNode) -> (r: Option<Self>) {
        if from.kind() == SyntaxKind::NODE_SET_ENTRY {
            Some(SetEntry(from))
        } else {
            None
        }
    }

    fn node(&self) -> (r: &SyntaxNode) {
        proof {
            use_type_invariant(self);
            assert(self.0.spec_kind() == Self::spec_kind());
        }
        &self.0
    }
}

impl SetEntry {
    /// Return this entry's key
    pub fn key(&self) -> (r: Option<Attribute>)
        ensures
            r is Some <==> (spec_nth_child(self.spec_node(), 0) matches Some(c) && c.spec_kind()
                == SyntaxKind::NODE_ATTRIBUTE),
            r matches Some(t) ==> spec_nth_child(self.spec_node(), 0) == Some(t.spec_node()),
    {
        nth_child_as::<Attribute>(self.node(), 0)
    }

    /// Return this entry's value
    pub fn value(&self) -> (r: Option<SyntaxNode>)
        ensures
            r == spec_nth_child(self.spec_node(), 1),
    {
        nth_child(self.node(), 1)
    }
}

/// A unary operation.
pub struct Unary(SyntaxNode);

impl Unary {
    #[verifier::type_invariant]
    spec fn inv(self) -> bool {
        self.0.spec_kind() == SyntaxKind::NODE_UNARY
    }
}

impl Clone for Unary {
    fn clone(&self) -> (r: Self)
        ensures
            r == *self,
    {
        proof {
            use_type_invariant(self);
        }
        Unary(self.0.clone_node())
    }
}

impl TypedNode for Unary {
    open spec fn spec_kind() -> SyntaxKind {
        SyntaxKind::NODE_UNARY
    }

    closed spec fn spec_node(&self) -> SyntaxNode {
        self.0
    }

    fn cast(from: SyntaxNode) -> (r: Option<Self>) {
        if from.kind() == SyntaxKind::NODE_UNARY {
            Some(Unary(from))
        } else {
            None
        }
    }

    fn node(&self) -> (r: &SyntaxNode) {
        proof {
            use_type_invariant(self);
            assert(self.0.spec_kind() == Self::spec_kind());
        }
        &self.0
    }
}

impl Unary {
    /// Return the operator
    pub fn operator(&self) -> (r: UnaryOpKind)
        requires
            spec_first_token(self.spec_node()) matches Some(t) && exists|op: UnaryOpKind|
                #[trigger] op.spec_token() == t.spec_kind(),
        ensures
            r.spec_token() == spec_first_token(self.spec_node())->0.spec_kind(),
    {
        match self.first_token() {
            Some(t) => match UnaryOpKind::from_token(t.kind()) {
                Some(op) => op,
                None => {
                    proof {
                        assert(false);
                    }
                    UnaryOpKind::Invert
                },
            },
            None => {
                proof {
                    assert(false);
                }
                UnaryOpKind::Invert
            },
        }
    }

    /// Return the value in the operation
    pub fn value(&self) -> (r: Option<SyntaxNode>)
        ensures
            r == spec_nth_child(self.spec_node(), 0),
    {
        nth_child(self.node(), 0)
    }
}

/// A `with` expression.
pub struct With(SyntaxNode);

impl With {
    #[verifier::type_invariant]
    spec fn inv(self) -> bool {
        self.0.spec_kind() == SyntaxKind::NODE_WITH
    }
}

impl Clone for With {
    fn clone(&self) -> (r: Self)
        ensures
            r == *self,
    {
        proof {
            use_type_invariant(self);
        }
        With(self.0.clone_node())
    }
}

impl TypedNode for With {
    open spec fn spec_kind() -> SyntaxKind {
        SyntaxKind::NODE_WITH
    }

    closed spec fn spec_node(&self) -> SyntaxNode {
        self.0
    }

    fn cast(from: SyntaxNode) -> (r: Option<Self>) {
        if from.kind() == SyntaxKind::NODE_WITH {
            Some(With(from))
        } else {
            None
        }
    }

    fn node(&self) -> (r: &SyntaxNode) {
        proof {
            use_type_invariant(self);
            assert(self.0.spec_kind() == Self::spec_kind());
        }
        &self.0
    }
}

impl With {
    /// Return the namespace
    pub fn namespace(&self) -> (r: Option<SyntaxNode>)
        ensures
            r == spec_nth_child(self.spec_node(), 0),
    {
        nth_child(self.node(), 0)
    }

    /// Return the body
    pub fn body(&self) -> (r: Option<SyntaxNode>)
        ensures
            r == spec_nth_child(self.spec_node(), 1),
    {
        nth_child(self.node(), 1)
    }
}

/// A node of any of the typed kinds, by its kind.
pub enum ParsedType {
    Apply(Apply),
    Assert(Assert),
    Attribute(Attribute),
    Dynamic(Dynamic),
    Error(Error),
    Ident(Ident),
    IfElse(IfElse),
    IndexSet(IndexSet),
    Inherit(Inherit),
    InheritFrom(InheritFrom),
    Lambda(Lambda),
    Let(Let),
    LetIn(LetIn),
    List(List),
    Operation(Operation),
    OrDefault(OrDefault),
    Paren(Paren),
    PatBind(PatBind),
    PatEntry(PatEntry),
    Pattern(Pattern),
    Root(Root),
    AttrSet(AttrSet),
    SetEntry(SetEntry),
    Str(Str),
    Unary(Unary),
    Value(Value),
    With(With),
}

/// The node kinds that have a typed wrapper.
pub open spec fn is_typed_kind(k: SyntaxKind) -> bool {
    match k {
        SyntaxKind::NODE_APPLY => true,
        SyntaxKind::NODE_ASSERT => true,
        SyntaxKind::NODE_ATTRIBUTE => true,
        SyntaxKind::NODE_DYNAMIC => true,
        SyntaxKind::NODE_ERROR => true,
        SyntaxKind::NODE_IDENT => true,
        SyntaxKind::NODE_IF_ELSE => true,
        SyntaxKind::NODE_INDEX_SET => true,
        SyntaxKind::NODE_INHERIT => true,
        SyntaxKind::NODE_INHERIT_FROM => true,
        SyntaxKind::NODE_LAMBDA => true,
        SyntaxKind::NODE_LET => true,
        SyntaxKind::NODE_LET_IN => true,
        SyntaxKind::NODE_LIST => true,
        SyntaxKind::NODE_OPERATION => true,
        SyntaxKind::NODE_OR_DEFAULT => true,
        SyntaxKind::NODE_PAREN => true,
        SyntaxKind::NODE_PAT_BIND => true,
        SyntaxKind::NODE_PAT_ENTRY => true,
        SyntaxKind::NODE_PATTERN => true,
        SyntaxKind::NODE_ROOT => true,
        SyntaxKind::NODE_SET => true,
        SyntaxKind::NODE_SET_ENTRY => true,
        SyntaxKind::NODE_STRING => true,
        SyntaxKind::NODE_UNARY => true,
        SyntaxKind::NODE_VALUE => true,
        SyntaxKind::NODE_WITH => true,
        _ => false,
    }
}

impl ParsedType {
    /// The kind of the nodes that this variant holds.
    pub open spec fn spec_kind(self) -> SyntaxKind {
        match self {
            ParsedType::Apply(_) => SyntaxKind::NODE_APPLY,
            ParsedType::Assert(_) => SyntaxKind::NODE_ASSERT,
            ParsedType::Attribute(_) => SyntaxKind::NODE_ATTRIBUTE,
            ParsedType::Dynamic(_) => SyntaxKind::NODE_DYNAMIC,
            ParsedType::Error(_) => SyntaxKind::NODE_ERROR,
            ParsedType::Ident(_) => SyntaxKind::NODE_IDENT,
            ParsedType::IfElse(_) => SyntaxKind::NODE_IF_ELSE,
            ParsedType::IndexSet(_) => SyntaxKind::NODE_INDEX_SET,
            ParsedType::Inherit(_) => SyntaxKind::NODE_INHERIT,
            ParsedType::InheritFrom(_) => SyntaxKind::NODE_INHERIT_FROM,
            ParsedType::Lambda(_) => SyntaxKind::NODE_LAMBDA,
            ParsedType::Let(_) => SyntaxKind::NODE_LET,
            ParsedType::LetIn(_) => SyntaxKind::NODE_LET_IN,
            ParsedType::List(_) => SyntaxKind::NODE_LIST,
            ParsedType::Operation(_) => SyntaxKind::NODE_OPERATION,
            ParsedType::OrDefault(_) => SyntaxKind::NODE_OR_DEFAULT,
            ParsedType::Paren(_) => SyntaxKind::NODE_PAREN,
            ParsedType::PatBind(_) => SyntaxKind::NODE_PAT_BIND,
            ParsedType::PatEntry(_) => SyntaxKind::NODE_PAT_ENTRY,
            ParsedType::Pattern(_) => SyntaxKind::NODE_PATTERN,
            ParsedType::Root(_) => SyntaxKind::NODE_ROOT,
            ParsedType::AttrSet(_) => SyntaxKind::NODE_SET,
            ParsedType::SetEntry(_) => SyntaxKind::NODE_SET_ENTRY,
            ParsedType::Str(_) => SyntaxKind::NODE_STRING,
            ParsedType::Unary(_) => SyntaxKind::NODE_UNARY,
            ParsedType::Value(_) => SyntaxKind::NODE_VALUE,
            ParsedType::With(_) => SyntaxKind::NODE_WITH,
        }
    }

    /// The untyped node inside.
    pub open spec fn spec_node(self) -> SyntaxNode {
        match self {
            ParsedType::Apply(n) => n.spec_node(),
            ParsedType::Assert(n) => n.spec_node(),
            ParsedType::Attribute(n) => n.spec_node(),
            ParsedType::Dynamic(n) => n.spec_node(),
            ParsedType::Error(n) => n.spec_node(),
            ParsedType::Ident(n) => n.spec_node(),
            ParsedType::IfElse(n) => n.spec_node(),
            ParsedType::IndexSet(n) => n.spec_node(),
            ParsedType::Inherit(n) => n.spec_node(),
            ParsedType::InheritFrom(n) => n.spec_node(),
            ParsedType::Lambda(n) => n.spec_node(),
            ParsedType::Let(n) => n.spec_node(),
            ParsedType::LetIn(n) => n.spec_node(),
            ParsedType::List(n) => n.spec_node(),
            ParsedType::Operation(n) => n.spec_node(),
            ParsedType::OrDefault(n) => n.spec_node(),
            ParsedType::Paren(n) => n.spec_node(),
            ParsedType::PatBind(n) => n.spec_node(),
            ParsedType::PatEntry(n) => n.spec_node(),
            ParsedType::Pattern(n) => n.spec_node(),
            ParsedType::Root(n) => n.spec_node(),
            ParsedType::AttrSet(n) => n.spec_node(),
            ParsedType::SetEntry(n) => n.spec_node(),
            ParsedType::Str(n) => n.spec_node(),
            ParsedType::Unary(n) => n.spec_node(),
            ParsedType::Value(n) => n.spec_node(),
            ParsedType::With(n) => n.spec_node(),
        }
    }

    /// Wraps a node in the variant for its kind; fails with the kind when
    /// no typed wrapper exists for it.
    pub fn try_from(node: SyntaxNode) -> (r: Result<ParsedType, ParsedTypeError>)
        ensures
            r is Ok <==> is_typed_kind(node.spec_kind()),
            r matches Ok(p) ==> p.spec_kind() == node.spec_kind() && p.spec_node() == node,
            r matches Err(e) ==> e.0 == node.spec_kind(),
    {
        match node.kind() {
            SyntaxKind::NODE_APPLY => Ok(ParsedType::Apply(Apply::cast(node).unwrap())),
            SyntaxKind::NODE_ASSERT => Ok(ParsedType::Assert(Assert::cast(node).unwrap())),
            SyntaxKind::NODE_ATTRIBUTE => Ok(ParsedType::Attribute(Attribute::cast(node).unwrap())),
            SyntaxKind::NODE_DYNAMIC => Ok(ParsedType::Dynamic(Dynamic::cast(node).unwrap())),
            SyntaxKind::NODE_ERROR => Ok(ParsedType::Error(Error::cast(node).unwrap())),
            SyntaxKind::NODE_IDENT => Ok(ParsedType::Ident(Ident::cast(node).unwrap())),
            SyntaxKind::NODE_IF_ELSE => Ok(ParsedType::IfElse(IfElse::cast(node).unwrap())),
            SyntaxKind::NODE_INDEX_SET => Ok(ParsedType::IndexSet(IndexSet::cast(node).unwrap())),
            SyntaxKind::NODE_INHERIT => Ok(ParsedType::Inherit(Inherit::cast(node).unwrap())),
            SyntaxKind::NODE_INHERIT_FROM => Ok(ParsedType::InheritFrom(InheritFrom::cast(node).unwrap())),
            SyntaxKind::NODE_STRING => Ok(ParsedType::Str(Str::cast(node).unwrap())),
            SyntaxKind::NODE_LAMBDA => Ok(ParsedType::Lambda(Lambda::cast(node).unwrap())),
            SyntaxKind::NODE_LET => Ok(ParsedType::Let(Let::cast(node).unwrap())),
            SyntaxKind::NODE_LET_IN => Ok(ParsedType::LetIn(LetIn::cast(node).unwrap())),
            SyntaxKind::NODE_LIST => Ok(ParsedType::List(List::cast(node).unwrap())),
            SyntaxKind::NODE_OPERATION => Ok(ParsedType::Operation(Operation::cast(node).unwrap())),
            SyntaxKind::NODE_OR_DEFAULT => Ok(ParsedType::OrDefault(OrDefault::cast(node).unwrap())),
            SyntaxKind::NODE_PAREN => Ok(ParsedType::Paren(Paren::cast(node).unwrap())),
            SyntaxKind::NODE_PATTERN => Ok(ParsedType::Pattern(Pattern::cast(node).unwrap())),
            SyntaxKind::NODE_PAT_BIND => Ok(ParsedType::PatBind(PatBind::cast(node).unwrap())),
            SyntaxKind::NODE_PAT_ENTRY => Ok(ParsedType::PatEntry(PatEntry::cast(node).unwrap())),
            SyntaxKind::NODE_ROOT => Ok(ParsedType::Root(Root::cast(node).unwrap())),
            SyntaxKind::NODE_SET => Ok(ParsedType::AttrSet(AttrSet::cast(node).unwrap())),
            SyntaxKind::NODE_SET_ENTRY => Ok(ParsedType::SetEntry(SetEntry::cast(node).unwrap())),
            SyntaxKind::NODE_UNARY => Ok(ParsedType::Unary(Unary::cast(node).unwrap())),
            SyntaxKind::NODE_VALUE => Ok(ParsedType::Value(Value::cast(node).unwrap())),
            SyntaxKind::NODE_WITH => Ok(ParsedType::With(With::cast(node).unwrap())),
            other => Err(ParsedTypeError(other)),
        }
    }
}

} // verus!
