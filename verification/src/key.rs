use vstd::prelude::*;

verus! {

/// The key for keyed children.
///
/// Keys must be unique among siblings, and within one sibling list either
/// every sibling carries a key or none does; enforcing both is the
/// reconciler's obligation, not this type's — trees with mixed keying are
/// constructed without complaint here.
///
/// "No key" is a named sentinel (`NodeKey::none`), not a reserved string
/// value.
pub struct NodeKey(pub Option<String>);

impl View for NodeKey {
    type V = Option<Seq<char>>;

    open spec fn view(&self) -> Option<Seq<char>> {
        match self.0 {
            Option::None => Option::None,
            Option::Some(s) => Option::Some(s@),
        }
    }
}

impl NodeKey {
    /// The sentinel meaning "this node carries no key".
    pub fn none() -> (k: NodeKey)
        ensures
            k@ is None,
    {
        NodeKey(Option::None)
    }

    /// Build a key from an optional string, mapping `None` to the sentinel.
    pub fn from_option(key: Option<String>) -> (k: NodeKey)
        ensures
            k@ == (match key {
                Option::Some(s) => Option::Some(s@),
                Option::None => Option::None::<Seq<char>>,
            }),
    {
        match key {
            Option::Some(s) => NodeKey::new(s),
            Option::None => NodeKey::none(),
        }
    }

    /// Is this key the "no key" sentinel?
    pub fn is_none(&self) -> (r: bool)
        ensures
            r == (self@ is None),
    {
        match &self.0 {
            Option::None => true,
            Option::Some(_) => false,
        }
    }

    /// Is this key an actual key (not the sentinel)?
    pub fn is_some(&self) -> (r: bool)
        ensures
            r == (self@ is Some),
    {
        !self.is_none()
    }

    /// Create a new `NodeKey` carrying the given string.
    pub fn new(key: String) -> (k: NodeKey)
        ensures
            k@ == Option::Some(key@),
    {
        NodeKey(Option::Some(key))
    }
}

impl Default for NodeKey {
    /// The default key is the "no key" sentinel.
    fn default() -> (k: NodeKey)
        ensures
            k@ is None,
    {
        NodeKey(Option::None)
    }
}

impl Clone for NodeKey {
    /// Cloning a key preserves its content: sentinel stays sentinel, a
    /// keyed string is copied unchanged.
    fn clone(&self) -> (k: NodeKey)
        ensures
            k@ == self@,
    {
        match &self.0 {
            Option::None => NodeKey(Option::None),
            Option::Some(s) => NodeKey(Option::Some(s.clone())),
        }
    }
}

/// A key is either the sentinel or an actual key, never both and never
/// neither: exactly one of `is_none` and `is_some` holds of every key.
pub proof fn lemma_key_none_xor_some(k: NodeKey)
    ensures
        (k@ is None) <==> !(k@ is Some),
{
}

} // verus!
