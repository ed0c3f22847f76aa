use vstd::prelude::*;

use crate::attribute::Attribute;
use crate::component::VComponent;
use crate::key::NodeKey;
use crate::listener::Listener;

verus! {

/// The base unit of the virtual dom: a tagged, lightweight node value.
///
/// A `VNode` is a cheap, shallow handle: each payload-carrying variant
/// holds the index of its payload record in the `Arena` of the current
/// render pass. Copying a `VNode` copies the handle, never the subtree —
/// two equal handles designate the same record, including its mutable
/// physical-node handle cell.
#[derive(Clone, Copy, PartialEq, Eq, Structural, Debug)]
pub enum VNode {
    /// An element node.
    Element(usize),
    /// A text node.
    Text(usize),
    /// A fragment: a "virtual position" in the tree, with children and a
    /// key but no physical node of its own.
    Fragment(usize),
    /// A suspended component: a placeholder meaning this position's real
    /// subtree is not yet available. Carries no payload and no key; the
    /// external scheduler replaces it once the pending work resolves.
    Suspended,
    /// A user-defined component node.
    Component(usize),
}

/// A text node's payload: an immutable string plus the mutable
/// physical-node handle cell.
pub struct VText {
    pub text: String,
    /// Physical-node handle. Starts empty; written by the external mount
    /// process through `Arena::write_dom_handle`.
    pub dom_id: Option<u64>,
}

/// An element's payload. Children order is render order; attribute and
/// listener order is insertion order and carries no semantic weight beyond
/// name lookup.
pub struct VElement {
    pub key: NodeKey,
    pub tag_name: String,
    pub listeners: Vec<Listener>,
    pub attributes: Vec<Attribute>,
    pub children: Vec<VNode>,
    pub namespace: Option<String>,
    /// Physical-node handle. Starts empty; written exactly once when the
    /// external mounting process binds this element to a physical surface
    /// node.
    pub dom_id: Option<u64>,
}

/// A fragment: a key plus a child sequence, representing a grouping point
/// with no physical node — and no physical-node handle cell — of its own.
/// It lets keyed sibling groups be diffed as a unit without introducing a
/// wrapper element in the physical surface.
pub struct VFragment {
    pub key: NodeKey,
    pub children: Vec<VNode>,
}

impl VFragment {
    /// Pure value construction: wrap an optional key (mapped to the
    /// sentinel when absent) and a child sequence.
    pub fn new(key: Option<String>, children: Vec<VNode>) -> (f: VFragment)
        ensures
            f.key@ == (match key {
                Option::Some(s) => Option::Some(s@),
                Option::None => Option::None::<Seq<char>>,
            }),
            f.children@ == children@,
    {
        VFragment { key: NodeKey::from_option(key), children }
    }
}

/// The arena owning every payload record for one render pass.
///
/// All records are dropped as a unit with the arena; a `VNode` handle is
/// only meaningful together with the arena it was allocated from.
/// Construction only ever appends records, so a handle once valid stays
/// valid for the arena's whole life. The mutable cells (`dom_id`,
/// `mounted_root`, `ass_scope`) start empty and are written only through
/// `write_dom_handle` and `associate_scope`, the entry points meant for
/// the external mount/diff process — construction never touches them.
pub struct Arena {
    pub texts: Vec<VText>,
    pub elements: Vec<VElement>,
    pub fragments: Vec<VFragment>,
    pub components: Vec<VComponent>,
}

/// The arena `post` is `pre` with the physical-node handle cell of `n`
/// holding `v` and every other record — and every other field of `n`'s own
/// record — unchanged.
pub open spec fn handle_written(pre: Arena, post: Arena, n: VNode, v: u64) -> bool {
    match n {
        VNode::Element(i) => {
            &&& post.elements@ == pre.elements@.update(
                i as int,
                (VElement { dom_id: Option::Some(v), ..pre.elements@[i as int] }),
            )
            &&& post.texts@ == pre.texts@
            &&& post.fragments@ == pre.fragments@
            &&& post.components@ == pre.components@
        },
        VNode::Text(i) => {
            &&& post.texts@ == pre.texts@.update(
                i as int,
                (VText { dom_id: Option::Some(v), ..pre.texts@[i as int] }),
            )
            &&& post.elements@ == pre.elements@
            &&& post.fragments@ == pre.fragments@
            &&& post.components@ == pre.components@
        },
        VNode::Component(i) => {
            &&& post.components@ == pre.components@.update(
                i as int,
                (VComponent { mounted_root: Option::Some(v), ..pre.components@[i as int] }),
            )
            &&& post.texts@ == pre.texts@
            &&& post.elements@ == pre.elements@
            &&& post.fragments@ == pre.fragments@
        },
        VNode::Fragment(_) => false,
        VNode::Suspended => false,
    }
}

impl Arena {
    /// A fresh, empty arena for one render pass.
    pub fn new() -> (a: Arena)
        ensures
            a.texts@ == Seq::<VText>::empty(),
            a.elements@ == Seq::<VElement>::empty(),
            a.fragments@ == Seq::<VFragment>::empty(),
            a.components@ == Seq::<VComponent>::empty(),
    {
        Arena { texts: Vec::new(), elements: Vec::new(), fragments: Vec::new(), components: Vec::new() }
    }

    /// Whether `n` is a handle into this arena.
    pub open spec fn contains(self, n: VNode) -> bool {
        match n {
            VNode::Element(i) => i < self.elements@.len(),
            VNode::Text(i) => i < self.texts@.len(),
            VNode::Fragment(i) => i < self.fragments@.len(),
            VNode::Component(i) => i < self.components@.len(),
            VNode::Suspended => true,
        }
    }

    /// The key recorded for `n`; `None` stands for the sentinel. Text and
    /// suspended nodes are never individually keyed.
    pub open spec fn spec_key(self, n: VNode) -> Option<Seq<char>>
        recommends
            self.contains(n),
    {
        match n {
            VNode::Element(i) => self.elements@[i as int].key@,
            VNode::Fragment(i) => self.fragments@[i as int].key@,
            VNode::Component(i) => self.components@[i as int].key@,
            VNode::Text(_) => Option::None,
            VNode::Suspended => Option::None,
        }
    }

    /// The current content of `n`'s physical-node handle cell; `None` both
    /// for a still-empty cell and for the variants that have no cell.
    pub open spec fn spec_dom_handle(self, n: VNode) -> Option<u64>
        recommends
            self.contains(n),
    {
        match n {
            VNode::Element(i) => self.elements@[i as int].dom_id,
            VNode::Text(i) => self.texts@[i as int].dom_id,
            VNode::Component(i) => self.components@[i as int].mounted_root,
            VNode::Fragment(_) => Option::None,
            VNode::Suspended => Option::None,
        }
    }

    /// Store a fragment record and hand back its node.
    pub fn alloc_fragment(&mut self, frag: VFragment) -> (n: VNode)
        ensures
            final(self).fragments@ == old(self).fragments@.push(frag),
            final(self).texts@ == old(self).texts@,
            final(self).elements@ == old(self).elements@,
            final(self).components@ == old(self).components@,
            n == VNode::Fragment(old(self).fragments@.len() as usize),
            final(self).contains(n),
    {
        let i = self.fragments.len();
        self.fragments.push(frag);
        VNode::Fragment(i)
    }

    /// Store a component record and hand back its node.
    pub fn alloc_component(&mut self, comp: VComponent) -> (n: VNode)
        ensures
            final(self).components@ == old(self).components@.push(comp),
            final(self).texts@ == old(self).texts@,
            final(self).elements@ == old(self).elements@,
            final(self).fragments@ == old(self).fragments@,
            n == VNode::Component(old(self).components@.len() as usize),
            final(self).contains(n),
    {
        let i = self.components.len();
        self.components.push(comp);
        VNode::Component(i)
    }

    /// Read `n`'s physical-node handle cell.
    pub fn read_dom_handle(&self, n: VNode) -> (r: Option<u64>)
        requires
            self.contains(n),
        ensures
            r == self.spec_dom_handle(n),
    {
        match n {
            VNode::Element(i) => self.elements[i].dom_id,
            VNode::Text(i) => self.texts[i].dom_id,
            VNode::Component(i) => self.components[i].mounted_root,
            VNode::Fragment(_) => Option::None,
            VNode::Suspended => Option::None,
        }
    }

    /// Write `v` into `n`'s physical-node handle cell. This layer never
    /// calls this itself: it is the entry point through which the external
    /// mounting process binds a node to a physical surface node after
    /// construction.
    pub fn write_dom_handle(&mut self, n: VNode, v: u64)
        requires
            old(self).contains(n),
            n.has_dom_handle_cell(),
        ensures
            handle_written(*old(self), *final(self), n, v),
            final(self).contains(n),
            final(self).spec_dom_handle(n) == Option::Some(v),
    {
        match n {
            VNode::Element(i) => {
                self.elements[i].dom_id = Option::Some(v);
            },
            VNode::Text(i) => {
                self.texts[i].dom_id = Option::Some(v);
            },
            VNode::Component(i) => {
                self.components[i].mounted_root = Option::Some(v);
            },
            VNode::Fragment(_) => {
            },
            VNode::Suspended => {
            },
        }
    }

    /// Read a component node's scope association.
    pub fn read_scope(&self, n: VNode) -> (r: Option<usize>)
        requires
            self.contains(n),
            n is Component,
        ensures
            (n matches VNode::Component(i) ==> r == self.components@[i as int].ass_scope),
    {
        match n {
            VNode::Component(i) => self.components[i].ass_scope,
            _ => Option::None,
        }
    }

    /// Associate a component node with the runtime scope that owns its
    /// state. Entry point for the external mount process; this layer never
    /// calls it itself.
    pub fn associate_scope(&mut self, n: VNode, scope: usize)
        requires
            old(self).contains(n),
            n is Component,
        ensures
            (n matches VNode::Component(i) ==> final(self).components@ == old(
                self,
            ).components@.update(
                i as int,
                (VComponent {
                    ass_scope: Option::Some(scope),
                    ..old(self).components@[i as int]
                }),
            )),
            final(self).texts@ == old(self).texts@,
            final(self).elements@ == old(self).elements@,
            final(self).fragments@ == old(self).fragments@,
    {
        match n {
            VNode::Component(i) => {
                self.components[i].ass_scope = Option::Some(scope);
            },
            _ => {
            },
        }
    }
}

impl VNode {
    /// Whether this node's variant carries a physical-node handle cell of
    /// its own: elements, text nodes and components do; fragments and
    /// suspended placeholders have no physical representation.
    pub open spec fn has_dom_handle_cell(self) -> bool {
        match self {
            VNode::Element(_) => true,
            VNode::Text(_) => true,
            VNode::Component(_) => true,
            VNode::Fragment(_) => false,
            VNode::Suspended => false,
        }
    }

    /// Exec mirror of `has_dom_handle_cell`.
    pub fn has_dom_handle(&self) -> (r: bool)
        ensures
            r == self.has_dom_handle_cell(),
    {
        match *self {
            VNode::Element(_) => true,
            VNode::Text(_) => true,
            VNode::Component(_) => true,
            VNode::Fragment(_) => false,
            VNode::Suspended => false,
        }
    }

    /// Low-level constructor for making a new node of type element with
    /// the given parts. Performs exactly one arena allocation; the handle
    /// cell starts empty; children, attributes and listeners are stored in
    /// the order given.
    pub fn element(
        arena: &mut Arena,
        key: NodeKey,
        tag_name: String,
        listeners: Vec<Listener>,
        attributes: Vec<Attribute>,
        children: Vec<VNode>,
        namespace: Option<String>,
    ) -> (n: VNode)
        ensures
            final(arena).elements@ == old(arena).elements@.push(
                (VElement {
                    key: key,
                    tag_name: tag_name,
                    listeners: listeners,
                    attributes: attributes,
                    children: children,
                    namespace: namespace,
                    dom_id: Option::None,
                }),
            ),
            final(arena).texts@ == old(arena).texts@,
            final(arena).fragments@ == old(arena).fragments@,
            final(arena).components@ == old(arena).components@,
            n == VNode::Element(old(arena).elements@.len() as usize),
            final(arena).contains(n),
            final(arena).spec_key(n) == key@,
            final(arena).spec_dom_handle(n) is None,
    {
        let i = arena.elements.len();
        arena.elements.push(
            VElement {
                key,
                tag_name,
                listeners,
                attributes,
                children,
                namespace,
                dom_id: Option::None,
            },
        );
        VNode::Element(i)
    }

    /// Construct a new text node with the given text. The handle cell
    /// starts empty and is shared by every copy of the returned node.
    pub fn text(arena: &mut Arena, text: String) -> (n: VNode)
        ensures
            final(arena).texts@ == old(arena).texts@.push(
                (VText { text: text, dom_id: Option::None }),
            ),
            final(arena).elements@ == old(arena).elements@,
            final(arena).fragments@ == old(arena).fragments@,
            final(arena).components@ == old(arena).components@,
            n == VNode::Text(old(arena).texts@.len() as usize),
            final(arena).contains(n),
            final(arena).spec_dom_handle(n) is None,
    {
        let i = arena.texts.len();
        arena.texts.push(VText { text, dom_id: Option::None });
        VNode::Text(i)
    }

    /// The node's key, or the "no key" sentinel for text and suspended
    /// nodes (those variants are never individually keyed).
    pub fn key(&self, arena: &Arena) -> (k: NodeKey)
        requires
            arena.contains(*self),
        ensures
            k@ == arena.spec_key(*self),
    {
        match *self {
            VNode::Text(_) => NodeKey::none(),
            VNode::Suspended => NodeKey::none(),
            VNode::Element(i) => arena.elements[i].key.clone(),
            VNode::Fragment(i) => arena.fragments[i].key.clone(),
            VNode::Component(i) => arena.components[i].key.clone(),
        }
    }
}

/// Two equal node handles designate the same payload record. Cloning a
/// node copies the handle (handles are `Copy`), so the clone reads the
/// same key and the same physical-node handle cell as the original.
pub proof fn lemma_equal_nodes_share_payload(a: Arena, n: VNode, m: VNode)
    requires
        m == n,
    ensures
        a.spec_key(m) == a.spec_key(n),
        a.spec_dom_handle(m) == a.spec_dom_handle(n),
{
}

/// A physical-node handle written through one handle is read through any
/// equal handle — in particular through a clone of the node it was
/// written through.
pub proof fn lemma_write_observed_through_clone(
    pre: Arena,
    post: Arena,
    n: VNode,
    m: VNode,
    v: u64,
)
    requires
        m == n,
        pre.contains(n),
        n.has_dom_handle_cell(),
        handle_written(pre, post, n, v),
    ensures
        post.spec_dom_handle(m) == Option::Some(v),
{
}

} // verus!
