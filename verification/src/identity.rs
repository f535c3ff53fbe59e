//! Identities: the principals that claim from the faucet or administer it.

use vstd::prelude::*;

verus! {

/// A principal, named by the text of its address. The faucet never looks
/// inside the text: two identities are the same principal exactly when their
/// texts are equal.
#[derive(Debug, PartialEq, Eq)]
pub struct Identity {
    /// The text of the address.
    pub key: String,
}

impl View for Identity {
    type V = Seq<char>;

    open spec fn view(&self) -> Seq<char> {
        self.key@
    }
}

impl Identity {
    /// The identity with the given address text.
    pub fn new(key: String) -> (id: Identity)
        ensures
            id@ == key@,
    {
        Identity { key }
    }

    /// The address text of this identity.
    pub fn as_str(&self) -> (text: &str)
        ensures
            text@ == self@,
    {
        self.key.as_str()
    }

    /// Whether `self` and `other` name the same principal.
    pub fn same_as(&self, other: &Identity) -> (same: bool)
        ensures
            same == (self@ == other@),
    {
        self.key == other.key
    }
}

impl Clone for Identity {
    fn clone(&self) -> (copy: Identity)
        ensures
            copy@ == self@,
    {
        Identity { key: self.key.clone() }
    }
}

} // verus!
