# rnix (typed syntax tree), verified with Verus

A typed layer over a Nix syntax tree, with contracts proved by Verus.

- `src/kinds.rs`: every token and node kind (`SyntaxKind`), which kinds are trivia, and
  the name under which each kind is dumped.
- `src/tree.rs`: the syntax tree. Green nodes and tokens hold kinds, text and cached
  lengths; `SyntaxNode` and `SyntaxToken` place them at a byte offset. Children,
  descendants (preorder) and ranges are specified exactly; the ranges of a node's
  children tile the node's range. The placing functions are open; callers that reason
  about placed children add `broadcast use rnix::tree::group_tree_lemmas;`.
- `src/types.rs`: `OpKind`/`UnaryOpKind` from tokens, the `TypedNode` family of traits
  (`cast`, `node`, `errors`, `first_token`, `dump`, `as_str`, `entries`, `inherits`,
  `inner`), one typed wrapper per node kind, and `ParsedType::try_from`.
- `src/dump.rs`: `TextDump`, the stable indented text form of a subtree, with token text
  escaped as `str::escape_default` does, and its laws: the text depends only on the node
  and its content, and a descendant's dump, indented two spaces per level, is a run of
  whole lines of its ancestor's dump.
- `tests/`: tests on hand-built trees.
