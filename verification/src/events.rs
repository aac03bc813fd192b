//! What an operation reports to observers.

use vstd::prelude::*;
use vstd::string::StringExecFns;

verus! {

/// A key and a value, both text.
#[derive(Clone, Debug, PartialEq)]
pub struct Attribute {
    pub key: String,
    pub value: String,
}

/// An event in the form in which the host publishes it: a type and a list
/// of attributes.
#[derive(Clone, Debug, PartialEq)]
pub struct Event {
    pub ty: String,
    pub attributes: Vec<Attribute>,
}

/// The text of an `Event`.
pub struct EventText {
    pub ty: Seq<char>,
    pub attributes: Seq<(Seq<char>, Seq<char>)>,
}

impl View for Event {
    type V = EventText;

    open spec fn view(&self) -> EventText {
        EventText {
            ty: self.ty@,
            attributes: Seq::new(
                self.attributes@.len(),
                |i: int| (self.attributes@[i].key@, self.attributes@[i].value@),
            ),
        }
    }
}

/// The character of a decimal digit.
pub open spec fn digit(value: nat) -> char {
    if value == 0 {
        '0'
    } else if value == 1 {
        '1'
    } else if value == 2 {
        '2'
    } else if value == 3 {
        '3'
    } else if value == 4 {
        '4'
    } else if value == 5 {
        '5'
    } else if value == 6 {
        '6'
    } else if value == 7 {
        '7'
    } else if value == 8 {
        '8'
    } else {
        '9'
    }
}

/// A number in decimal digits, without leading zeros.
pub open spec fn decimal(value: nat) -> Seq<char>
    decreases value,
{
    if value < 10 {
        seq![digit(value)]
    } else {
        decimal(value / 10).push(digit(value % 10))
    }
}

fn digit_text(value: u128) -> (text: &'static str)
    requires
        value < 10,
    ensures
        text@ == seq![digit(value as nat)],
{
    proof {
        reveal_strlit("0");
        reveal_strlit("1");
        reveal_strlit("2");
        reveal_strlit("3");
        reveal_strlit("4");
        reveal_strlit("5");
        reveal_strlit("6");
        reveal_strlit("7");
        reveal_strlit("8");
        reveal_strlit("9");
    }
    let text = if value == 0 {
        "0"
    } else if value == 1 {
        "1"
    } else if value == 2 {
        "2"
    } else if value == 3 {
        "3"
    } else if value == 4 {
        "4"
    } else if value == 5 {
        "5"
    } else if value == 6 {
        "6"
    } else if value == 7 {
        "7"
    } else if value == 8 {
        "8"
    } else {
        "9"
    };
    assert(text@ =~= seq![digit(value as nat)]);
    text
}

/// `value` in decimal digits.
pub fn decimal_text(value: u128) -> (text: String)
    ensures
        text@ == decimal(value as nat),
    decreases value,
{
    if value < 10 {
        String::from_str(digit_text(value))
    } else {
        let mut text = decimal_text(value / 10);
        text.append(digit_text(value % 10));
        assert(text@ =~= decimal(value as nat));
        text
    }
}

fn attr(key: &str, value: &str) -> (attribute: Attribute)
    ensures
        attribute.key@ == key@,
        attribute.value@ == value@,
{
    Attribute { key: String::from_str(key), value: String::from_str(value) }
}

/// A record of something the contract did, for the host to publish.
#[derive(Clone, Debug, PartialEq)]
pub enum ContractEvent {
    Lock { account: String, locked_balance: u128, ve_balance: u128, locked_until: u64 },
    WithdrawRequest { account: String, amount: u128, withdraw_at: u64 },
    Withdraw { account: String, amount: u128 },
    Claim { account: String, claim_amount: u128, ve_balance: u128 },
    NewIncome { add_amount: u128, remaining_amount: u128, reward_rate: u128 },
    NewDistributionPeriod { value: u64 },
    Burn { amount: u128, from: String },
    Mint { amount: u128, to: String },
}

impl ContractEvent {
    pub fn make_lock(
        account: String,
        locked_balance: u128,
        ve_balance: u128,
        locked_until: u64,
    ) -> (event: Self)
        ensures
            event == (ContractEvent::Lock { account, locked_balance, ve_balance, locked_until }),
    {
        ContractEvent::Lock { account, locked_balance, ve_balance, locked_until }
    }

    pub fn make_withdraw_request(account: String, amount: u128, withdraw_at: u64) -> (event: Self)
        ensures
            event == (ContractEvent::WithdrawRequest { account, amount, withdraw_at }),
    {
        ContractEvent::WithdrawRequest { account, amount, withdraw_at }
    }

    pub fn make_withdraw(account: String, amount: u128) -> (event: Self)
        ensures
            event == (ContractEvent::Withdraw { account, amount }),
    {
        ContractEvent::Withdraw { account, amount }
    }

    pub fn make_claim(account: String, claim_amount: u128, ve_balance: u128) -> (event: Self)
        ensures
            event == (ContractEvent::Claim { account, claim_amount, ve_balance }),
    {
        ContractEvent::Claim { account, claim_amount, ve_balance }
    }

    pub fn make_new_income(
        add_amount: u128,
        remaining_amount: u128,
        reward_rate: u128,
    ) -> (event: Self)
        ensures
            event == (ContractEvent::NewIncome { add_amount, remaining_amount, reward_rate }),
    {
        ContractEvent::NewIncome { add_amount, remaining_amount, reward_rate }
    }

    pub fn make_new_distribution_period(value: u64) -> (event: Self)
        ensures
            event == (ContractEvent::NewDistributionPeriod { value }),
    {
        ContractEvent::NewDistributionPeriod { value }
    }

    pub fn make_burn(amount: u128, from: String) -> (event: Self)
        ensures
            event == (ContractEvent::Burn { amount, from }),
    {
        ContractEvent::Burn { amount, from }
    }

    pub fn make_mint(amount: u128, to: String) -> (event: Self)
        ensures
            event == (ContractEvent::Mint { amount, to }),
    {
        ContractEvent::Mint { amount, to }
    }

    /// The event as it is published: its type, and its fields as
    /// attributes, amounts and times in decimal digits.
    pub open spec fn text(self) -> EventText {
        match self {
            ContractEvent::Lock { account, locked_balance, ve_balance, locked_until } => EventText {
                ty: "lock"@,
                attributes: seq![
                    ("account"@, account@),
                    ("locked_balance"@, decimal(locked_balance as nat)),
                    ("ve_balance"@, decimal(ve_balance as nat)),
                    ("locked_until"@, decimal(locked_until as nat)),
                ],
            },
            ContractEvent::WithdrawRequest { account, amount, withdraw_at } => EventText {
                ty: "withdraw_request"@,
                attributes: seq![
                    ("account"@, account@),
                    ("amount"@, decimal(amount as nat)),
                    ("withdraw_at"@, decimal(withdraw_at as nat)),
                ],
            },
            ContractEvent::Withdraw { account, amount } => EventText {
                ty: "withdraw"@,
                attributes: seq![("account"@, account@), ("amount"@, decimal(amount as nat))],
            },
            ContractEvent::Claim { account, claim_amount, ve_balance } => EventText {
                ty: "claim"@,
                attributes: seq![
                    ("account"@, account@),
                    ("claim_amount"@, decimal(claim_amount as nat)),
                    ("ve_balance"@, decimal(ve_balance as nat)),
                ],
            },
            ContractEvent::NewIncome { add_amount, remaining_amount, reward_rate } => EventText {
                ty: "new_income"@,
                attributes: seq![
                    ("add_amount"@, decimal(add_amount as nat)),
                    ("remaining_amount"@, decimal(remaining_amount as nat)),
                    ("reward_rate"@, decimal(reward_rate as nat)),
                ],
            },
            ContractEvent::NewDistributionPeriod { value } => EventText {
                ty: "new_distribution_period"@,
                attributes: seq![("value"@, decimal(value as nat))],
            },
            ContractEvent::Burn { amount, from } => EventText {
                ty: "burn"@,
                attributes: seq![("amount"@, decimal(amount as nat)), ("from"@, from@)],
            },
            ContractEvent::Mint { amount, to } => EventText {
                ty: "mint"@,
                attributes: seq![("amount"@, decimal(amount as nat)), ("to"@, to@)],
            },
        }
    }

    /// The event in the form in which the host publishes it.
    pub fn to_cosmos_event(&self) -> (event: Event)
        ensures
            event@ == self.text(),
    {
        let mut attributes: Vec<Attribute> = Vec::new();
        let ty = match self {
            ContractEvent::Lock { account, locked_balance, ve_balance, locked_until } => {
                attributes.push(attr("account", account.as_str()));
                attributes.push(attr("locked_balance", decimal_text(*locked_balance).as_str()));
                attributes.push(attr("ve_balance", decimal_text(*ve_balance).as_str()));
                attributes.push(attr("locked_until", decimal_text(*locked_until as u128).as_str()));
                "lock"
            },
            ContractEvent::WithdrawRequest { account, amount, withdraw_at } => {
                attributes.push(attr("account", account.as_str()));
                attributes.push(attr("amount", decimal_text(*amount).as_str()));
                attributes.push(attr("withdraw_at", decimal_text(*withdraw_at as u128).as_str()));
                "withdraw_request"
            },
            ContractEvent::Withdraw { account, amount } => {
                attributes.push(attr("account", account.as_str()));
                attributes.push(attr("amount", decimal_text(*amount).as_str()));
                "withdraw"
            },
            ContractEvent::Claim { account, claim_amount, ve_balance } => {
                attributes.push(attr("account", account.as_str()));
                attributes.push(attr("claim_amount", decimal_text(*claim_amount).as_str()));
                attributes.push(attr("ve_balance", decimal_text(*ve_balance).as_str()));
                "claim"
            },
            ContractEvent::NewIncome { add_amount, remaining_amount, reward_rate } => {
                attributes.push(attr("add_amount", decimal_text(*add_amount).as_str()));
                attributes.push(attr("remaining_amount", decimal_text(*remaining_amount).as_str()));
                attributes.push(attr("reward_rate", decimal_text(*reward_rate).as_str()));
                "new_income"
            },
            ContractEvent::NewDistributionPeriod { value } => {
                attributes.push(attr("value", decimal_text(*value as u128).as_str()));
                "new_distribution_period"
            },
            ContractEvent::Burn { amount, from } => {
                attributes.push(attr("amount", decimal_text(*amount).as_str()));
                attributes.push(attr("from", from.as_str()));
                "burn"
            },
            ContractEvent::Mint { amount, to } => {
                attributes.push(attr("amount", decimal_text(*amount).as_str()));
                attributes.push(attr("to", to.as_str()));
                "mint"
            },
        };
        let event = Event { ty: String::from_str(ty), attributes };
        assert(event@.attributes =~= self.text().attributes);
        event
    }
}

} // verus!
