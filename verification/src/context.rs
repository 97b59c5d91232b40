use vstd::prelude::*;

use crate::ast::NodeKind;

verus! {

/// The ambient state threaded through rendering: the current indentation
/// depth (in units of two spaces) and the kind of the immediately enclosing
/// node. A context is a plain value: every derived context is a fresh copy,
/// so no state is shared between recursive rendering calls.
#[derive(Clone, Copy, PartialEq, Eq, Structural)]
pub struct CodeWriterContext {
    pub parent_node_type: NodeKind,
    pub indent: u32,
}

impl CodeWriterContext {
    /// The context of the tree root: no enclosing node, no indentation.
    pub fn new() -> (c: Self)
        ensures
            c == (CodeWriterContext { parent_node_type: NodeKind::Root, indent: 0 }),
    {
        CodeWriterContext { parent_node_type: NodeKind::Root, indent: 0 }
    }

    /// The context a node passes to its children: same depth, with the
    /// parent tag replaced by the node's own kind.
    pub open spec fn spec_make_child(self, node_type: NodeKind) -> Self {
        CodeWriterContext { parent_node_type: node_type, indent: self.indent }
    }

    pub fn make_child(&self, node_type: NodeKind) -> (c: Self)
        ensures
            c == self.spec_make_child(node_type),
    {
        CodeWriterContext { parent_node_type: node_type, indent: self.indent }
    }

    /// One level deeper. The depth saturates instead of overflowing; the
    /// saturation point is unreachable for any tree that fits in memory.
    pub open spec fn spec_indent(self) -> Self {
        if self.indent < u32::MAX {
            CodeWriterContext { parent_node_type: self.parent_node_type, indent: (self.indent + 1) as u32 }
        } else {
            self
        }
    }

    pub fn indent(&self) -> (c: Self)
        ensures
            c == self.spec_indent(),
    {
        if self.indent < u32::MAX {
            CodeWriterContext { parent_node_type: self.parent_node_type, indent: self.indent + 1 }
        } else {
            *self
        }
    }

    /// One level shallower; a depth of zero stays at zero. Rescue and ensure
    /// clauses render through this, since they align with the construct that
    /// encloses their body rather than with the body itself.
    pub open spec fn spec_outdent(self) -> Self {
        if self.indent > 0 {
            CodeWriterContext { parent_node_type: self.parent_node_type, indent: (self.indent - 1) as u32 }
        } else {
            self
        }
    }

    pub fn outdent(&self) -> (c: Self)
        ensures
            c == self.spec_outdent(),
    {
        if self.indent > 0 {
            CodeWriterContext { parent_node_type: self.parent_node_type, indent: self.indent - 1 }
        } else {
            *self
        }
    }
}

} // verus!
