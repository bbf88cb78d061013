//! Account identifiers.

use vstd::prelude::*;
use vstd::std_specs::cmp::PartialEqSpecImpl;

verus! {

/// An account, known by the text of its address.
///
/// Two identifiers name the same account exactly when their texts are equal;
/// the view of an identifier is that text.
#[derive(Debug)]
pub struct AccountId {
    pub address: String,
}

impl View for AccountId {
    type V = Seq<char>;

    open spec fn view(&self) -> Seq<char> {
        self.address@
    }
}

impl AccountId {
    /// The account with the given address.
    pub fn new(address: &str) -> (account: AccountId)
        ensures
            account@ == address@,
    {
        AccountId { address: address.to_owned() }
    }

    /// The address as text.
    pub fn as_str(&self) -> (address: &str)
        ensures
            address@ == self@,
    {
        self.address.as_str()
    }

    /// Whether both identifiers name the same account.
    pub fn same(&self, other: &AccountId) -> (equal: bool)
        ensures
            equal == (self@ == other@),
    {
        self.address == other.address
    }
}

impl Clone for AccountId {
    fn clone(&self) -> (copy: AccountId)
        ensures
            copy == *self,
    {
        AccountId { address: self.address.clone() }
    }
}

impl PartialEq for AccountId {
    fn eq(&self, other: &AccountId) -> (equal: bool) {
        self.address == other.address
    }
}

impl PartialEqSpecImpl for AccountId {
    open spec fn obeys_eq_spec() -> bool {
        true
    }

    open spec fn eq_spec(&self, other: &AccountId) -> bool {
        self.address@ == other.address@
    }
}

impl Eq for AccountId {

}

} // verus!
