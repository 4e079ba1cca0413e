//! What the nodes of a Babel syntax tree have in common.

pub mod location;
pub mod node;
pub mod raw_node;
