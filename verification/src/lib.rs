//! A typed view over the Nix syntax tree: token and node kinds, a position-aware
//! syntax tree, strongly typed wrappers for each kind of node, and a stable text dump.
pub mod kinds;
pub mod tree;
pub mod dump;
pub mod types;
