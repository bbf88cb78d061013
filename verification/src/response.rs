//! What a call hands back to the host: the transfers to carry out.

use vstd::prelude::*;
use crate::account::AccountId;

verus! {

/// An instruction to pay `amount` to `to`, carried out by the host once the
/// call that issued it has gone through.
#[derive(Debug, PartialEq, Eq)]
pub struct Transfer {
    pub to: AccountId,
    pub amount: u128,
}

/// A transfer as a mathematical value.
pub struct TransferView {
    pub to: Seq<char>,
    pub amount: nat,
}

impl View for Transfer {
    type V = TransferView;

    open spec fn view(&self) -> TransferView {
        TransferView { to: self.to@, amount: self.amount as nat }
    }
}

/// The pending effects of a successful call, in the order issued.
#[derive(Debug, PartialEq, Eq)]
pub struct Response {
    pub messages: Vec<Transfer>,
}

impl View for Response {
    type V = Seq<TransferView>;

    open spec fn view(&self) -> Seq<TransferView> {
        Seq::new(self.messages@.len(), |i: int| self.messages@[i]@)
    }
}

impl Response {
    /// A response without effects.
    pub fn new() -> (response: Response)
        ensures
            response@ == Seq::<TransferView>::empty(),
    {
        let response = Response { messages: Vec::new() };
        assert(response@ =~= Seq::<TransferView>::empty());
        response
    }

    /// A response with the one effect `transfer`.
    pub fn with_transfer(transfer: Transfer) -> (response: Response)
        ensures
            response@ == seq![transfer@],
    {
        let mut messages: Vec<Transfer> = Vec::new();
        messages.push(transfer);
        let response = Response { messages };
        assert(response@ =~= seq![transfer@]);
        response
    }
}

impl Default for Response {
    fn default() -> (response: Response)
        ensures
            response@ == Seq::<TransferView>::empty(),
    {
        Response::new()
    }
}

} // verus!
