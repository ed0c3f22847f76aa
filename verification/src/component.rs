use vstd::prelude::*;

use crate::key::NodeKey;
use crate::node::VNode;

verus! {

/// The type-erased storage of a component's props value.
///
/// A concrete props value is laid down word by word at construction time;
/// the words are the value's only storage for the render pass, and their
/// layout is fixed by the concrete props type. Two components built from
/// the same render function have the same concrete props type, hence the
/// same layout, so comparing the words of two such components compares the
/// props by value. Comparing words across different render functions is
/// meaningless, which is why the comparator checks the type-identity tag
/// first and never looks at the words when the tags differ.
pub struct ErasedProps {
    pub words: Vec<u64>,
}

impl View for ErasedProps {
    type V = Seq<u64>;

    open spec fn view(&self) -> Seq<u64> {
        self.words@
    }
}

impl ErasedProps {
    /// Erase a props value already laid down as words.
    pub fn new(words: Vec<u64>) -> (p: ErasedProps)
        ensures
            p@ == words@,
    {
        ErasedProps { words }
    }

    /// Value equality of two erased props values: the same words in the
    /// same order.
    pub fn eq_value(&self, other: &ErasedProps) -> (r: bool)
        ensures
            r == (self@ == other@),
    {
        if self.words.len() != other.words.len() {
            return false;
        }
        let mut i: usize = 0;
        while i < self.words.len()
            invariant
                i <= self.words.len(),
                self.words.len() == other.words.len(),
                forall|j: int| 0 <= j < i ==> self.words@[j] == other.words@[j],
            decreases self.words.len() - i,
        {
            if self.words[i] != other.words[i] {
                return false;
            }
            i += 1;
        }
        proof {
            assert(self@ =~= other@);
        }
        true
    }
}

/// A type-erased user component instance.
///
/// Constructed once per render pass when a parent evaluates a child
/// component invocation; the record lives in the arena for that pass. The
/// scope association and the mounted-root handle are written by the
/// external mount/diff process after construction — this layer initializes
/// both empty and never mutates them itself.
pub struct VComponent {
    pub key: NodeKey,
    /// Physical-node handle of the component's mounted root. Starts empty;
    /// written by the external mount process through
    /// `Arena::write_dom_handle`.
    pub mounted_root: Option<u64>,
    /// Association to the runtime scope that owns this component's state
    /// once mounted. Starts empty; written by the external mount process
    /// through `Arena::associate_scope`.
    pub ass_scope: Option<usize>,
    /// Type-identity tag: stands for the address of the concrete render
    /// function this instance was built from. Two instances share this tag
    /// if and only if they were built from the same render function, and
    /// therefore share the same concrete props type. It is an identity, a
    /// value never interpreted.
    pub user_fc: u64,
    /// The erased, arena-resident props value.
    pub raw_props: ErasedProps,
    /// Whether the props type opted into memoization. The memoization
    /// comparator exists only when this holds; `compare` answers `None`
    /// otherwise.
    pub memoized: bool,
    /// The children the parent passed to this component ("slot" content),
    /// distinct from the subtree the component renders.
    pub children: Vec<VNode>,
}

/// What the memoization comparator of `a` answers when handed `b`: present
/// (`Some`) only if `a`'s props type opted into memoization, and `true`
/// exactly when the type-identity tags match and the erased props values
/// are equal. When the tags differ the answer is `false` unconditionally:
/// the other instance's words must never be read as `a`'s props type.
pub open spec fn spec_compare(a: VComponent, b: VComponent) -> Option<bool> {
    if a.memoized {
        Option::Some(a.user_fc == b.user_fc && a.raw_props@ == b.raw_props@)
    } else {
        Option::None
    }
}

impl VComponent {
    /// Construct a component instance from a render function's identity
    /// tag, its erased props, the memoization opt-in of the props type, an
    /// optional key, and the slot children. Construction never fails; the
    /// mounted-root handle and the scope association start empty.
    pub fn new(
        user_fc: u64,
        raw_props: ErasedProps,
        memoized: bool,
        key: Option<String>,
        children: Vec<VNode>,
    ) -> (c: VComponent)
        ensures
            c.user_fc == user_fc,
            c.raw_props@ == raw_props@,
            c.memoized == memoized,
            c.key@ == (match key {
                Option::Some(s) => Option::Some(s@),
                Option::None => Option::None::<Seq<char>>,
            }),
            c.children@ == children@,
            c.mounted_root is None,
            c.ass_scope is None,
    {
        VComponent {
            key: NodeKey::from_option(key),
            mounted_root: Option::None,
            ass_scope: Option::None,
            user_fc,
            raw_props,
            memoized,
            children,
        }
    }

    /// The memoization comparator: may the previous render output of
    /// `self` be reused when `other` is the new instance at the same
    /// position? `None` when `self`'s props type did not opt into
    /// memoization (no comparator was built); `Some(true)` only when the
    /// type-identity tags are equal — proving the two props values have
    /// the same concrete type — and the props compare equal by value.
    pub fn compare(&self, other: &VComponent) -> (r: Option<bool>)
        ensures
            r == spec_compare(*self, *other),
    {
        if self.memoized {
            if self.user_fc == other.user_fc {
                Option::Some(self.raw_props.eq_value(&other.raw_props))
            } else {
                Option::Some(false)
            }
        } else {
            Option::None
        }
    }
}

/// Components built from different render functions never memo-match: when
/// the type-identity tags differ, the comparator answers `false` without
/// reading the other instance's props.
pub proof fn lemma_compare_different_fc(a: VComponent, b: VComponent)
    requires
        a.memoized,
        a.user_fc != b.user_fc,
    ensures
        spec_compare(a, b) == Option::Some(false),
{
}

/// Components built from the same render function memo-match exactly when
/// their props values are equal: equal props answer `true`, unequal props
/// answer `false`.
pub proof fn lemma_compare_same_fc(a: VComponent, b: VComponent)
    requires
        a.memoized,
        a.user_fc == b.user_fc,
    ensures
        a.raw_props@ == b.raw_props@ ==> spec_compare(a, b) == Option::Some(true),
        a.raw_props@ != b.raw_props@ ==> spec_compare(a, b) == Option::Some(false),
{
}

} // verus!
