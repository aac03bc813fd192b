//! What an operation asks of the host once its own bookkeeping is done.

use crate::events::ContractEvent;
use vstd::prelude::*;

verus! {

/// A movement of the locked token, to be sent to that token's contract after
/// the operation has returned.
#[derive(Clone, Debug, PartialEq)]
pub enum TransferMsg {
    /// Pay `amount` out of the contract's holdings to `recipient`.
    Transfer { recipient: String, amount: u128 },
    /// Pull `amount` from `owner`, who has approved it, to `recipient`.
    TransferFrom { owner: String, recipient: String, amount: u128 },
}

/// A change to the supply of the escrowed balance, to be applied to its
/// ledger so that the ledger and the accounts stay equal.
#[derive(Clone, Debug, PartialEq)]
pub enum SupplyChange {
    Mint { to: String, amount: u128 },
    Burn { from: String, amount: u128 },
}

/// The effects of an operation, each list in the order in which they arose.
pub struct Effects {
    pub messages: Seq<TransferMsg>,
    pub supply_changes: Seq<SupplyChange>,
    pub events: Seq<ContractEvent>,
}

impl Effects {
    /// Nothing to do and nothing to report.
    pub open spec fn none() -> Effects {
        Effects { messages: Seq::empty(), supply_changes: Seq::empty(), events: Seq::empty() }
    }

    /// One message and nothing else.
    pub open spec fn message(message: TransferMsg) -> Effects {
        Effects { messages: seq![message], ..Effects::none() }
    }

    /// One event and nothing else.
    pub open spec fn event(event: ContractEvent) -> Effects {
        Effects { events: seq![event], ..Effects::none() }
    }

    /// These effects followed by `later`.
    pub open spec fn then_also(self, later: Effects) -> Effects {
        Effects {
            messages: self.messages + later.messages,
            supply_changes: self.supply_changes + later.supply_changes,
            events: self.events + later.events,
        }
    }
}

/// The answer of a successful operation.
#[derive(Debug, PartialEq)]
pub struct Response {
    pub messages: Vec<TransferMsg>,
    pub supply_changes: Vec<SupplyChange>,
    pub events: Vec<ContractEvent>,
}

impl View for Response {
    type V = Effects;

    open spec fn view(&self) -> Effects {
        Effects {
            messages: self.messages@,
            supply_changes: self.supply_changes@,
            events: self.events@,
        }
    }
}

impl Response {
    pub fn new() -> (response: Self)
        ensures
            response@ == Effects::none(),
    {
        Response { messages: Vec::new(), supply_changes: Vec::new(), events: Vec::new() }
    }

    /// Appends the effects of a later step to those gathered so far.
    pub fn absorb(&mut self, later: Response)
        ensures
            final(self)@ == old(self)@.then_also(later@),
    {
        let mut later = later;
        self.messages.append(&mut later.messages);
        self.supply_changes.append(&mut later.supply_changes);
        self.events.append(&mut later.events);
    }
}

} // verus!
