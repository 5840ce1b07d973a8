use vstd::prelude::*;
use vstd::utf8::encode_utf8;
use std::rc::Rc;

use crate::kinds::SyntaxKind;

verus! {

/// A leaf of the syntax tree, independent of its position in the source.
pub struct GreenToken {
    pub(crate) kind: SyntaxKind,
    pub(crate) text: String,
}

/// A child of a green node: either a node or a token.
pub enum GreenElement {
    Node(Rc<GreenNode>),
    Token(Rc<GreenToken>),
}

/// An inner node of the syntax tree, independent of its position in the source.
/// It caches the length of the text it covers.
pub struct GreenNode {
    pub(crate) kind: SyntaxKind,
    pub(crate) text_len: usize,
    pub(crate) children: Vec<GreenElement>,
}

/// The length (in bytes of UTF-8) of the text that a green element covers.
pub open spec fn green_len(e: GreenElement) -> nat {
    match e {
        GreenElement::Node(n) => n.spec_text_len(),
        GreenElement::Token(t) => t.spec_text_len(),
    }
}

/// The total length of the elements of `cs` from index `i` on.
pub open spec fn len_from(cs: Seq<GreenElement>, i: int) -> nat
    decreases cs.len() - i,
{
    if 0 <= i < cs.len() {
        green_len(cs[i]) + len_from(cs, i + 1)
    } else {
        0
    }
}

impl GreenToken {
    pub closed spec fn spec_kind(&self) -> SyntaxKind {
        self.kind
    }

    pub closed spec fn spec_text(&self) -> Seq<char> {
        self.text@
    }

    /// The number of UTF-8 bytes of the token's text.
    pub open spec fn spec_text_len(&self) -> nat {
        (encode_utf8(self.spec_text()).len() as usize) as nat
    }

    /// Creates a token of the given kind holding the given text.
    pub fn new(kind: SyntaxKind, text: String) -> (r: GreenToken)
        ensures
            r.spec_kind() == kind,
            r.spec_text() == text@,
    {
        GreenToken { kind, text }
    }

    pub fn kind(&self) -> (r: SyntaxKind)
        ensures
            r == self.spec_kind(),
    {
        self.kind
    }

    pub fn text(&self) -> (r: &str)
        ensures
            r@ == self.spec_text(),
    {
        self.text.as_str()
    }

    pub fn text_len(&self) -> (r: usize)
        ensures
            r == self.spec_text_len(),
    {
        self.text.as_str().len()
    }
}

/// A green node is well formed when its cached length is the total length of
/// its children and each child node is itself well formed.
pub open spec fn green_wf(n: GreenNode) -> bool
    decreases n,
{
    &&& n.spec_text_len() == len_from(n.spec_children(), 0)
    &&& forall|i: int|
        #![trigger n.spec_children()[i]]
        0 <= i < n.spec_children().len() ==> match n.spec_children()[i] {
            GreenElement::Node(c) => green_wf(*c),
            GreenElement::Token(_) => true,
        }
}

impl GreenNode {
    #[verifier::type_invariant]
    pub(crate) open spec fn inv(self) -> bool {
        green_wf(self)
    }

    pub closed spec fn spec_kind(&self) -> SyntaxKind {
        self.kind
    }

    pub closed spec fn spec_children(&self) -> Seq<GreenElement> {
        self.children@
    }

    pub closed spec fn spec_text_len(&self) -> nat {
        self.text_len as nat
    }

    /// Creates a node of the given kind over the given children. There is no
    /// such node when the children's text is longer than `usize::MAX` bytes.
    pub fn new(kind: SyntaxKind, children: Vec<GreenElement>) -> (r: Option<GreenNode>)
        ensures
            r is Some <==> len_from(children@, 0) <= usize::MAX,
            r matches Some(n) ==> n.spec_kind() == kind && n.spec_children() == children@
                && n.spec_text_len() == len_from(children@, 0) && green_wf(n),
    {
        let mut acc: usize = 0;
        let mut i: usize = 0;
        while i < children.len()
            invariant
                i <= children.len(),
                acc + len_from(children@, i as int) == len_from(children@, 0),
                forall|j: int|
                    #![trigger children@[j]]
                    0 <= j < i ==> match children@[j] {
                        GreenElement::Node(c) => green_wf(*c),
                        GreenElement::Token(_) => true,
                    },
            decreases children.len() - i,
        {
            match &children[i] {
                GreenElement::Node(c) => {
                    proof {
                        use_type_invariant(&**c);
                    }
                },
                GreenElement::Token(_) => {},
            }
            let l = children[i].text_len();
            if acc > usize::MAX - l {
                return None;
            }
            acc = acc + l;
            i = i + 1;
        }
        let r = GreenNode { kind, text_len: acc, children };
        proof {
            assert(green_wf(r));
        }
        Some(r)
    }

    pub fn kind(&self) -> (r: SyntaxKind)
        ensures
            r == self.spec_kind(),
    {
        self.kind
    }

    pub fn text_len(&self) -> (r: usize)
        ensures
            r == self.spec_text_len(),
    {
        self.text_len
    }

    pub fn children(&self) -> (r: &Vec<GreenElement>)
        ensures
            r@ == self.spec_children(),
    {
        &self.children
    }
}

impl GreenElement {
    /// The length of the text this element covers.
    pub fn text_len(&self) -> (r: usize)
        ensures
            r == green_len(*self),
    {
        match self {
            GreenElement::Node(n) => n.text_len(),
            GreenElement::Token(t) => t.text_len(),
        }
    }
}

/// A span of source text, by byte offsets; `end` is exclusive.
#[derive(Clone, Copy, Debug, PartialEq, Eq, Structural)]
pub struct TextRange {
    pub start: usize,
    pub end: usize,
}

impl TextRange {
    pub open spec fn spec_is_empty(self) -> bool {
        self.start == self.end
    }

    /// Returns true if the range covers no text.
    #[verifier::when_used_as_spec(spec_is_empty)]
    pub fn is_empty(self) -> (r: bool)
        ensures
            r == self.spec_is_empty(),
    {
        self.start == self.end
    }
}

/// A token placed in the source: a green token together with its start offset.
pub struct SyntaxToken {
    pub(crate) green: Rc<GreenToken>,
    pub(crate) offset: usize,
}

/// A node placed in the source: a green node together with its start offset.
pub struct SyntaxNode {
    pub(crate) green: Rc<GreenNode>,
    pub(crate) offset: usize,
}

/// A node or a token placed in the source.
pub enum SyntaxElement {
    Node(SyntaxNode),
    Token(SyntaxToken),
}

impl SyntaxToken {
    #[verifier::type_invariant]
    pub(crate) open spec fn inv(self) -> bool {
        self.offset + self.green.spec_text_len() <= usize::MAX
    }

    pub closed spec fn spec_green(&self) -> GreenToken {
        *self.green
    }

    pub closed spec fn spec_offset(&self) -> nat {
        self.offset as nat
    }

    pub open spec fn spec_kind(&self) -> SyntaxKind {
        self.spec_green().spec_kind()
    }

    pub open spec fn spec_text(&self) -> Seq<char> {
        self.spec_green().spec_text()
    }

    pub open spec fn spec_range(&self) -> TextRange {
        TextRange {
            start: self.spec_offset() as usize,
            end: (self.spec_offset() + self.spec_green().spec_text_len()) as usize,
        }
    }

    pub fn kind(&self) -> (r: SyntaxKind)
        ensures
            r == self.spec_kind(),
    {
        self.green.kind()
    }

    pub fn text(&self) -> (r: &str)
        ensures
            r@ == self.spec_text(),
    {
        self.green.text()
    }

    pub fn text_range(&self) -> (r: TextRange)
        ensures
            r == self.spec_range(),
            r.start <= r.end,
    {
        proof {
            use_type_invariant(self);
        }
        let len = self.green.text_len();
        TextRange { start: self.offset, end: self.offset + len }
    }
}

/// The green node `green` placed at `pos`.
pub closed spec fn placed_node(green: Rc<GreenNode>, pos: int) -> SyntaxNode {
    SyntaxNode { green, offset: pos as usize }
}

/// The green token `green` placed at `pos`.
pub closed spec fn placed_token(green: Rc<GreenToken>, pos: int) -> SyntaxToken {
    SyntaxToken { green, offset: pos as usize }
}

/// A placed node holds the green node and starts at the position it was placed at.
pub broadcast proof fn lemma_placed_node(green: Rc<GreenNode>, pos: int)
    ensures
        (#[trigger] placed_node(green, pos)).spec_green() == *green,
        0 <= pos <= usize::MAX ==> placed_node(green, pos).spec_offset() == pos,
{
}

/// A placed token holds the green token and starts at the position it was placed at.
pub broadcast proof fn lemma_placed_token(green: Rc<GreenToken>, pos: int)
    ensures
        (#[trigger] placed_token(green, pos)).spec_green() == *green,
        0 <= pos <= usize::MAX ==> placed_token(green, pos).spec_offset() == pos,
{
}

pub broadcast group group_tree_lemmas {
    lemma_placed_node,
    lemma_placed_token,
}

/// A node is determined by its green node and its offset.
pub proof fn lemma_node_ext(a: SyntaxNode, b: SyntaxNode)
    requires
        a.spec_green() == b.spec_green(),
        a.spec_offset() == b.spec_offset(),
    ensures
        a == b,
{
}

/// A token is determined by its green token and its offset.
pub proof fn lemma_token_ext(a: SyntaxToken, b: SyntaxToken)
    requires
        a.spec_green() == b.spec_green(),
        a.spec_offset() == b.spec_offset(),
    ensures
        a == b,
{
}

/// The placed element for a green element starting at `pos`.
pub open spec fn place(g: GreenElement, pos: int) -> SyntaxElement {
    match g {
        GreenElement::Node(n) => SyntaxElement::Node(placed_node(n, pos)),
        GreenElement::Token(t) => SyntaxElement::Token(placed_token(t, pos)),
    }
}

/// The placed elements for `cs[i..]`, where `cs[i]` starts at `pos`.
pub open spec fn place_from(cs: Seq<GreenElement>, i: int, pos: int) -> Seq<SyntaxElement>
    decreases cs.len() - i,
{
    if 0 <= i < cs.len() {
        seq![place(cs[i], pos)] + place_from(cs, i + 1, pos + green_len(cs[i]))
    } else {
        Seq::empty()
    }
}

/// All elements of the subtree of `g` (starting at `pos`) in preorder, `g` first.
pub open spec fn preorder(g: GreenElement, pos: int) -> Seq<SyntaxElement>
    decreases g,
{
    match g {
        GreenElement::Token(_) => seq![place(g, pos)],
        GreenElement::Node(n) => {
            proof {
                lemma_node_element_children_decrease(g, n);
            }
            seq![place(g, pos)] + preorder_from(n.spec_children(), 0, pos)
        },
    }
}

/// The preorder sequences of `cs[i..]` one after another, where `cs[i]` starts at `pos`.
pub open spec fn preorder_from(cs: Seq<GreenElement>, i: int, pos: int) -> Seq<SyntaxElement>
    decreases cs, cs.len() - i,
{
    if 0 <= i < cs.len() {
        preorder(cs[i], pos) + preorder_from(cs, i + 1, pos + green_len(cs[i]))
    } else {
        Seq::empty()
    }
}

/// Keeps the nodes of a sequence of elements.
pub open spec fn only_node(e: SyntaxElement) -> Option<SyntaxNode> {
    match e {
        SyntaxElement::Node(n) => Some(n),
        SyntaxElement::Token(_) => None,
    }
}

/// `c` is found `d` levels below `n`: `n` itself at depth 0, otherwise below
/// one of the child nodes of `n` at depth `d - 1`.
pub open spec fn is_descendant_at(n: SyntaxNode, c: SyntaxNode, d: nat) -> bool
    decreases d,
{
    if d == 0 {
        c == n
    } else {
        exists|k: int|
            0 <= k < n.spec_children_with_tokens().len() && (#[trigger] n.spec_children_with_tokens()[k]) is Node
                && is_descendant_at(
                only_node(n.spec_children_with_tokens()[k]).unwrap(),
                c,
                (d - 1) as nat,
            )
    }
}

impl SyntaxNode {
    #[verifier::type_invariant]
    pub(crate) open spec fn inv(self) -> bool {
        self.offset + self.green.spec_text_len() <= usize::MAX
    }

    pub closed spec fn spec_green(&self) -> GreenNode {
        *self.green
    }

    pub closed spec fn spec_offset(&self) -> nat {
        self.offset as nat
    }

    pub open spec fn spec_kind(&self) -> SyntaxKind {
        self.spec_green().spec_kind()
    }

    pub open spec fn spec_range(&self) -> TextRange {
        TextRange {
            start: self.spec_offset() as usize,
            end: (self.spec_offset() + self.spec_green().spec_text_len()) as usize,
        }
    }

    /// The children of this node, tokens included, each placed at its offset.
    pub open spec fn spec_children_with_tokens(&self) -> Seq<SyntaxElement> {
        place_from(self.spec_green().spec_children(), 0, self.spec_offset() as int)
    }

    /// The child nodes of this node, tokens left out.
    pub open spec fn spec_children(&self) -> Seq<SyntaxNode> {
        self.spec_children_with_tokens().filter_map(|e: SyntaxElement| only_node(e))
    }

    /// This node and everything below it, in preorder.
    pub open spec fn spec_descendants_with_tokens(&self) -> Seq<SyntaxElement> {
        seq![SyntaxElement::Node(*self)] + preorder_from(
            self.spec_green().spec_children(),
            0,
            self.spec_offset() as int,
        )
    }

    /// The node is well formed: its green node is, and its end offset fits in `usize`.
    /// Every node that this library builds is.
    pub open spec fn spec_wf(&self) -> bool {
        &&& self.spec_offset() + self.spec_green().spec_text_len() <= usize::MAX
        &&& green_wf(self.spec_green())
    }

    /// Places a green node as the root of a tree, at offset 0.
    pub fn new_root(green: GreenNode) -> (r: SyntaxNode)
        ensures
            r.spec_green() == green,
            r.spec_offset() == 0,
            r.spec_wf(),
    {
        proof {
            use_type_invariant(&green);
        }
        SyntaxNode { green: Rc::new(green), offset: 0 }
    }

    pub fn kind(&self) -> (r: SyntaxKind)
        ensures
            r == self.spec_kind(),
    {
        self.green.kind()
    }

    pub fn text_range(&self) -> (r: TextRange)
        ensures
            r == self.spec_range(),
            r.start <= r.end,
    {
        proof {
            use_type_invariant(self);
        }
        TextRange { start: self.offset, end: self.offset + self.green.text_len() }
    }

    /// The green node under this node.
    pub fn green(&self) -> (r: &GreenNode)
        ensures
            *r == self.spec_green(),
    {
        &*self.green
    }

    /// The children of this node, tokens included, in order. Their ranges
    /// tile the node's range: the first starts where the node starts, each
    /// next one starts where the one before ends, and the last ends where the
    /// node ends.
    pub fn children_with_tokens(&self) -> (r: Vec<SyntaxElement>)
        ensures
            r@ == self.spec_children_with_tokens(),
            r@.len() == 0 ==> self.spec_range().start == self.spec_range().end,
            r@.len() > 0 ==> r@[0].spec_range().start == self.spec_range().start,
            r@.len() > 0 ==> r@.last().spec_range().end == self.spec_range().end,
            forall|i: int|
                0 <= i < r@.len() - 1 ==> #[trigger] r@[i].spec_range().end == r@[i
                    + 1].spec_range().start,
    {
        proof {
            use_type_invariant(self);
            use_type_invariant(&*self.green);
        }
        let cs = &self.green.children;
        let mut r: Vec<SyntaxElement> = Vec::new();
        let mut pos: usize = self.offset;
        let mut i: usize = 0;
        while i < cs.len()
            invariant
                i <= cs.len(),
                cs@ == self.green.children@,
                pos + len_from(cs@, i as int) == self.offset + self.green.text_len,
                self.offset + self.green.text_len <= usize::MAX,
                r@ + place_from(cs@, i as int, pos as int) == place_from(cs@, 0, self.offset as int),
                r@.len() == 0 ==> pos == self.offset,
                r@.len() > 0 ==> r@[0].spec_range().start == self.offset,
                r@.len() > 0 ==> r@.last().spec_range().end == pos,
                forall|j: int|
                    0 <= j < r@.len() - 1 ==> #[trigger] r@[j].spec_range().end == r@[j
                        + 1].spec_range().start,
            decreases cs.len() - i,
        {
            let l = cs[i].text_len();
            let e = match &cs[i] {
                GreenElement::Node(n) => SyntaxElement::Node(SyntaxNode { green: n.clone(), offset: pos }),
                GreenElement::Token(t) => SyntaxElement::Token(SyntaxToken { green: t.clone(), offset: pos }),
            };
            proof {
                assert(place_from(cs@, i as int, pos as int) == seq![place(cs@[i as int], pos as int)]
                    + place_from(cs@, i + 1, pos + l));
                assert(r@.push(e) + place_from(cs@, i + 1, pos + l) == r@ + place_from(cs@, i as int, pos as int));
                assert(e.spec_range().start == pos);
                assert(e.spec_range().end == pos + l);
            }
            r.push(e);
            pos = pos + l;
            i = i + 1;
        }
        proof {
            assert(r@ + place_from(cs@, i as int, pos as int) == r@);
        }
        r
    }

    /// The child nodes of this node, in order.
    pub fn children(&self) -> (r: Vec<SyntaxNode>)
        ensures
            r@ == self.spec_children(),
    {
        let all = self.children_with_tokens();
        let mut r: Vec<SyntaxNode> = Vec::new();
        let mut i: usize = 0;
        while i < all.len()
            invariant
                i <= all.len(),
                all@ == self.spec_children_with_tokens(),
                r@ == all@.take(i as int).filter_map(|e: SyntaxElement| only_node(e)),
            decreases all.len() - i,
        {
            proof {
                assert(all@.take(i + 1).drop_last() == all@.take(i as int));
            }
            match &all[i] {
                SyntaxElement::Node(n) => r.push(n.clone_node()),
                SyntaxElement::Token(_) => {},
            }
            i = i + 1;
        }
        proof {
            assert(all@.take(all.len() as int) == all@);
        }
        r
    }

    /// The last child node, if any.
    pub fn last_child(&self) -> (r: Option<SyntaxNode>)
        ensures
            r == (if self.spec_children().len() > 0 {
                Some(self.spec_children().last())
            } else {
                None
            }),
    {
        let mut cs = self.children();
        cs.pop()
    }

    /// This node and everything below it, tokens included, in preorder.
    pub fn descendants_with_tokens(&self) -> (r: Vec<SyntaxElement>)
        ensures
            r@ == self.spec_descendants_with_tokens(),
    {
        proof {
            use_type_invariant(self);
        }
        let mut r: Vec<SyntaxElement> = Vec::new();
        let g = GreenElement::Node(self.green.clone());
        push_preorder(&g, self.offset, &mut r);
        proof {
            assert(placed_node(self.green, self.offset as int) == *self);
        }
        r
    }

    /// A copy of this handle; the green tree is shared.
    pub fn clone_node(&self) -> (r: SyntaxNode)
        ensures
            r == *self,
    {
        proof {
            use_type_invariant(self);
        }
        SyntaxNode { green: self.green.clone(), offset: self.offset }
    }
}

impl SyntaxToken {
    /// A copy of this handle; the green token is shared.
    pub fn clone_token(&self) -> (r: SyntaxToken)
        ensures
            r == *self,
    {
        proof {
            use_type_invariant(self);
        }
        SyntaxToken { green: self.green.clone(), offset: self.offset }
    }
}


impl SyntaxElement {
    pub open spec fn spec_kind(&self) -> SyntaxKind {
        match self {
            SyntaxElement::Node(n) => n.spec_kind(),
            SyntaxElement::Token(t) => t.spec_kind(),
        }
    }

    pub open spec fn spec_range(&self) -> TextRange {
        match self {
            SyntaxElement::Node(n) => n.spec_range(),
            SyntaxElement::Token(t) => t.spec_range(),
        }
    }

    pub fn kind(&self) -> (r: SyntaxKind)
        ensures
            r == self.spec_kind(),
    {
        match self {
            SyntaxElement::Node(n) => n.kind(),
            SyntaxElement::Token(t) => t.kind(),
        }
    }

    pub fn text_range(&self) -> (r: TextRange)
        ensures
            r == self.spec_range(),
            r.start <= r.end,
    {
        match self {
            SyntaxElement::Node(n) => n.text_range(),
            SyntaxElement::Token(t) => t.text_range(),
        }
    }

    /// A copy of this handle.
    pub fn clone_element(&self) -> (r: SyntaxElement)
        ensures
            r == *self,
    {
        match self {
            SyntaxElement::Node(n) => SyntaxElement::Node(n.clone_node()),
            SyntaxElement::Token(t) => SyntaxElement::Token(t.clone_token()),
        }
    }
}

impl Clone for SyntaxNode {
    /// A copy of this handle; the green tree is shared.
    fn clone(&self) -> (r: SyntaxNode)
        ensures
            r == *self,
    {
        self.clone_node()
    }
}

impl Clone for SyntaxToken {
    /// A copy of this handle; the green token is shared.
    fn clone(&self) -> (r: SyntaxToken)
        ensures
            r == *self,
    {
        self.clone_token()
    }
}

impl Clone for SyntaxElement {
    /// A copy of this handle.
    fn clone(&self) -> (r: SyntaxElement)
        ensures
            r == *self,
    {
        self.clone_element()
    }
}

/// The accessors of a green node read its fields.
pub(crate) proof fn lemma_green_node_fields(n: &GreenNode)
    ensures
        n.spec_kind() == n.kind,
        n.spec_children() == n.children@,
        n.spec_text_len() == n.text_len as nat,
{
}

/// There is one placed element per green element.
pub proof fn lemma_place_from_len(cs: Seq<GreenElement>, i: int, pos: int)
    requires
        0 <= i <= cs.len(),
    ensures
        place_from(cs, i, pos).len() == cs.len() - i,
    decreases cs.len() - i,
{
    if i < cs.len() {
        lemma_place_from_len(cs, i + 1, pos + green_len(cs[i]));
    }
}

/// The child nodes of a well-formed green node are well formed.
pub proof fn lemma_green_wf_child(n: GreenNode, k: int)
    requires
        green_wf(n),
        0 <= k < n.spec_children().len(),
        n.spec_children()[k] is Node,
    ensures
        match n.spec_children()[k] {
            GreenElement::Node(c) => green_wf(*c),
            GreenElement::Token(_) => true,
        },
{
}

/// The accessors of a placed node read its fields.
pub(crate) proof fn lemma_syntax_node_fields(n: &SyntaxNode)
    ensures
        n.spec_green() == *n.green,
        n.spec_offset() == n.offset as nat,
{
}

/// The accessors of a green token read its fields.
pub(crate) proof fn lemma_green_token_fields(t: &GreenToken)
    ensures
        t.spec_kind() == t.kind,
        t.spec_text() == t.text@,
{
}

/// The children of a green node are smaller than the node, for termination.
pub proof fn lemma_node_element_children_decrease(g: GreenElement, n: Rc<GreenNode>)
    requires
        g == GreenElement::Node(n),
    ensures
        decreases_to!(g => *n),
        decreases_to!(g => n.spec_children()),
        decreases_to!(*n => n.spec_children()),
{
    match g {
        GreenElement::Node(m) => {
            assert(decreases_to!(g => m.children@));
            assert(decreases_to!(*m => m.children@));
        },
        GreenElement::Token(_) => {},
    }
}

/// The children of a green node are smaller than the node, for termination.
pub proof fn lemma_green_node_children_decrease(n: GreenNode)
    ensures
        decreases_to!(n => n.spec_children()),
{
    assert(decreases_to!(n => n.children@));
}

/// A child of a green node is smaller than the node, for termination.
pub proof fn lemma_child_decreases(g: GreenElement, n: Rc<GreenNode>, i: int)
    requires
        g == GreenElement::Node(n),
        0 <= i < n.spec_children().len(),
    ensures
        decreases_to!(g => n.spec_children()[i]),
{
    lemma_node_element_children_decrease(g, n);
    assert(decreases_to!(n.spec_children() => n.spec_children()[i]));
}

/// Appends the preorder of the subtree `g`, placed at `pos`, to `out`.
fn push_preorder(g: &GreenElement, pos: usize, out: &mut Vec<SyntaxElement>)
    requires
        pos + green_len(*g) <= usize::MAX,
    ensures
        final(out)@ == old(out)@ + preorder(*g, pos as int),
    decreases *g,
{
    match g {
        GreenElement::Token(t) => {
            out.push(SyntaxElement::Token(SyntaxToken { green: t.clone(), offset: pos }));
        },
        GreenElement::Node(n) => {
            proof {
                use_type_invariant(&**n);
            }
            let ghost start = old(out)@;
            out.push(SyntaxElement::Node(SyntaxNode { green: n.clone(), offset: pos }));
            let cs = &n.children;
            let mut p: usize = pos;
            let mut i: usize = 0;
            while i < cs.len()
                invariant
                    i <= cs.len(),
                    cs@ == n.children@,
                    *g == GreenElement::Node(*n),
                    p + len_from(cs@, i as int) <= usize::MAX,
                    out@ + preorder_from(cs@, i as int, p as int) == start + preorder(*g, pos as int),
                decreases cs.len() - i,
            {
                let l = cs[i].text_len();
                let ghost before = out@;
                proof {
                    lemma_child_decreases(*g, *n, i as int);
                }
                push_preorder(&cs[i], p, out);
                proof {
                    assert(preorder_from(cs@, i as int, p as int) == preorder(cs@[i as int], p as int)
                        + preorder_from(cs@, i + 1, p + l));
                    assert(out@ + preorder_from(cs@, i + 1, p + l) == before + preorder_from(cs@, i as int, p as int));
                }
                p = p + l;
                i = i + 1;
            }
            proof {
                assert(out@ + preorder_from(cs@, i as int, p as int) == out@);
            }
        },
    }
}

} // verus!
