//! Plain-value models of the structural collaborators: view trees, realized
//! render targets (bundles), pre-rendered hydration fragments, and position
//! markers.
//!
//! The tree-diffing collaborator and the in-memory document representation
//! are outside this engine; what the lifecycle logic reads of them is held
//! here as plain values.  A container is named by a `u32` handle, a position
//! by a [`Slot`].

use vstd::prelude::*;

verus! {

/// A logical anchor indicating where an instance's output sits relative to
/// its siblings inside a container.
#[derive(Clone, Copy, Debug, PartialEq, Eq, Structural)]
pub enum Slot {
    /// At the end of the container.
    AtEnd,
    /// Directly in front of the first node owned by the named component.
    Node(usize),
}

/// One node of a view tree, as produced by a component's view hook.
///
/// `P` is the properties type of the component capability in use; a `Child`
/// node asks for a nested component instance carrying those properties.
pub enum VNode<P> {
    /// A text node; the bytes are its content.
    Text(Vec<u8>),
    /// A nested child component with its properties.
    Child(P),
}

/// One node of a realized render target.
pub enum BNode {
    /// A committed text node.
    Text(Vec<u8>),
    /// A mounted child component instance, by its component id.
    Child(usize),
}

/// A realized render target: the committed structural representation of the
/// instance's most recent view tree.
pub struct Bundle {
    /// The committed nodes, in sibling order.
    pub nodes: Vec<BNode>,
}

/// One node of a pre-rendered hydration fragment.
#[derive(Debug, PartialEq, Eq)]
pub enum FNode {
    /// A text node with its content.
    Text(Vec<u8>),
    /// An element node.
    Element,
}

/// Pre-existing markup consumed during hydration.
pub struct Fragment {
    /// The not-yet-claimed nodes, in document order.
    pub nodes: Vec<FNode>,
}

impl FNode {
    /// Whether this is a text node.
    pub fn is_text(&self) -> (r: bool)
        ensures
            r == (*self is Text),
    {
        match self {
            FNode::Text(_) => true,
            FNode::Element => false,
        }
    }

    /// Whether this is an element node.
    pub fn is_element(&self) -> (r: bool)
        ensures
            r == (*self is Element),
    {
        match self {
            FNode::Text(_) => false,
            FNode::Element => true,
        }
    }
}

/// Whether a byte is an ASCII whitespace character.
pub open spec fn spec_is_whitespace_byte(b: u8) -> bool {
    b == 32 || b == 9 || b == 10 || b == 12 || b == 13
}

/// Whether a fragment node is a text node holding only whitespace.
pub open spec fn spec_is_whitespace_text(n: FNode) -> bool {
    match n {
        FNode::Text(bytes) => forall|i: int|
            0 <= i < bytes@.len() ==> spec_is_whitespace_byte(bytes@[i]),
        FNode::Element => false,
    }
}

/// The fragment contents after dropping every leading whitespace-only text
/// node.
pub open spec fn spec_trimmed(nodes: Seq<FNode>) -> Seq<FNode>
    decreases nodes.len(),
{
    if nodes.len() == 0 {
        nodes
    } else if spec_is_whitespace_text(nodes[0]) {
        spec_trimmed(nodes.drop_first())
    } else {
        nodes
    }
}

impl Bundle {
    /// An empty render target, holding no committed nodes yet.
    pub fn new() -> (r: Bundle)
        ensures
            r.nodes@.len() == 0,
    {
        Bundle { nodes: Vec::new() }
    }
}

fn is_whitespace_byte(b: u8) -> (r: bool)
    ensures
        r == spec_is_whitespace_byte(b),
{
    b == 32 || b == 9 || b == 10 || b == 12 || b == 13
}

#[verifier::loop_isolation(false)]
fn is_whitespace_text(n: &FNode) -> (r: bool)
    ensures
        r == spec_is_whitespace_text(*n),
{
    match n {
        FNode::Text(bytes) => {
            let mut i: usize = 0;
            while i < bytes.len()
                invariant
                    i <= bytes@.len(),
                    forall|j: int| 0 <= j < i ==> spec_is_whitespace_byte(bytes@[j]),
                decreases bytes@.len() - i,
            {
                if !is_whitespace_byte(bytes[i]) {
                    assert(!spec_is_whitespace_byte(bytes@[i as int]));
                    return false;
                }
                i = i + 1;
            }
            true
        },
        FNode::Element => false,
    }
}

impl Fragment {
    /// A fragment holding the given pre-rendered nodes.
    pub fn new(nodes: Vec<FNode>) -> (r: Fragment)
        ensures
            r.nodes@ == nodes@,
    {
        Fragment { nodes }
    }

    /// Drops every leading whitespace-only text node, as done right before
    /// the fragment is checked for full consumption.
    pub fn trim_start_text_nodes(&mut self)
        ensures
            final(self).nodes@ == spec_trimmed(old(self).nodes@),
    {
        let ghost orig = self.nodes@;
        loop
            invariant
                spec_trimmed(self.nodes@) == spec_trimmed(orig),
            ensures
                self.nodes@.len() == 0 || !spec_is_whitespace_text(self.nodes@[0]),
            decreases self.nodes@.len(),
        {
            if self.nodes.len() == 0 {
                break;
            }
            if !is_whitespace_text(&self.nodes[0]) {
                break;
            }
            let ghost before = self.nodes@;
            let _ = self.nodes.remove(0);
            proof {
                assert(self.nodes@ =~= before.drop_first());
            }
        }
        assert(self.nodes@ == spec_trimmed(self.nodes@)) by {
            if self.nodes@.len() > 0 {
                assert(!spec_is_whitespace_text(self.nodes@[0]));
            }
        }
    }

    /// Whether every pre-rendered node has been claimed.
    pub fn is_empty(&self) -> (r: bool)
        ensures
            r == (self.nodes@.len() == 0),
    {
        self.nodes.len() == 0
    }
}

} // verus!
