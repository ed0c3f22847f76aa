use vstd::prelude::*;

verus! {

/// An attribute on a DOM node, such as `id="my-thing"` or
/// `href="https://example.com"`.
#[derive(Debug)]
pub struct Attribute {
    pub name: String,
    pub value: String,
}

/// The fixed set of volatile attribute names. The physical surface's own
/// state for these properties can silently diverge from the virtual value
/// (for example through user interaction) without the virtual tree being
/// informed, so the diff process must re-apply them even when the old and
/// new virtual values compare equal.
pub open spec fn spec_volatile(name: Seq<char>) -> bool {
    name == "value"@ || name == "checked"@ || name == "selected"@
}

impl Attribute {
    /// Get this attribute's name, such as `"id"` in `<div id="my-thing" />`.
    pub fn name(&self) -> (r: &String)
        ensures
            r@ == self.name@,
    {
        &self.name
    }

    /// The attribute value, such as `"my-thing"` in `<div id="my-thing" />`.
    pub fn value(&self) -> (r: &String)
        ensures
            r@ == self.value@,
    {
        &self.value
    }

    /// Certain attributes are considered "volatile" and can change via user
    /// input that the diff process cannot see when comparing against the old
    /// virtual tree. For these attributes the physical-surface property must
    /// always be re-set, even if the old and new virtual values are equal.
    pub fn is_volatile(&self) -> (r: bool)
        ensures
            r == spec_volatile(self.name@),
    {
        self.name == "value".to_owned() || self.name == "checked".to_owned()
            || self.name == "selected".to_owned()
    }
}

impl Clone for Attribute {
    /// Cloning an attribute preserves its name and value.
    fn clone(&self) -> (a: Attribute)
        ensures
            a.name@ == self.name@,
            a.value@ == self.value@,
    {
        Attribute { name: self.name.clone(), value: self.value.clone() }
    }
}

} // verus!
