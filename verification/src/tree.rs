//! The file tree, as far as the run gesture reads it: the node under the cursor.

use crate::paths::path_buf_bytes;
use std::path::PathBuf;
use vstd::prelude::*;

verus! {

/// What a node of the tree is.
#[derive(Clone, Copy, Debug, PartialEq, Eq, Structural)]
pub enum NodeKind {
    Dir,
    File,
}

/// One node of the tree: a path, and whether it is a directory or a file.
#[derive(Debug)]
pub struct Node {
    pub path: PathBuf,
    pub kind: NodeKind,
}

/// The mathematical reading of a [`Node`]: its path as bytes.
pub struct NodeView {
    pub path: Seq<u8>,
    pub kind: NodeKind,
}

impl View for Node {
    type V = NodeView;

    open spec fn view(&self) -> NodeView {
        NodeView { path: path_buf_bytes(&self.path), kind: self.kind }
    }
}

} // verus!
