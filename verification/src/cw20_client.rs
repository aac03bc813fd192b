//! Messages to the contract of the locked token, in the form in which the
//! host sends them: the address of that contract and the request as JSON.

use crate::error::ContractError;
use crate::response::TransferMsg;
use cosmwasm_std::StdError;
use vstd::prelude::*;

verus! {

/// What `cosmwasm_std::to_json_binary` makes of a `Cw20ExecuteMsg::Transfer`
/// with these fields: the JSON text, or nothing where it reports an error.
pub uninterp spec fn transfer_json(recipient: Seq<char>, amount: u128) -> Option<Seq<u8>>;

/// What `cosmwasm_std::to_json_binary` makes of a `Cw20ExecuteMsg::TransferFrom`
/// with these fields: the JSON text, or nothing where it reports an error.
pub uninterp spec fn transfer_from_json(owner: Seq<char>, recipient: Seq<char>, amount: u128) -> Option<Seq<u8>>;

/// Calls `cosmwasm_std::to_json_binary` on a `cw20::Cw20ExecuteMsg::Transfer`.
/// The serialiser reads the message and nothing else: whether it succeeds, and
/// its bytes, are a function of the two fields. Success itself is not claimed.
#[verifier::external_body]
fn encode_transfer(recipient: &String, amount: u128) -> (res: Result<Vec<u8>, StdError>)
    ensures
        res is Ok <==> transfer_json(recipient@, amount) is Some,
        res is Ok ==> res->Ok_0@ == transfer_json(recipient@, amount)->Some_0,
{
    let msg = cw20::Cw20ExecuteMsg::Transfer {
        recipient: recipient.clone(),
        amount: cosmwasm_std::Uint128::new(amount),
    };
    cosmwasm_std::to_json_binary(&msg).map(|binary| binary.0)
}

/// Calls `cosmwasm_std::to_json_binary` on a `cw20::Cw20ExecuteMsg::TransferFrom`.
/// Whether it succeeds, and its bytes, are a function of the three fields.
#[verifier::external_body]
fn encode_transfer_from(
    owner: &String,
    recipient: &String,
    amount: u128,
) -> (res: Result<Vec<u8>, StdError>)
    ensures
        res is Ok <==> transfer_from_json(owner@, recipient@, amount) is Some,
        res is Ok ==> res->Ok_0@ == transfer_from_json(owner@, recipient@, amount)->Some_0,
{
    let msg = cw20::Cw20ExecuteMsg::TransferFrom {
        owner: owner.clone(),
        recipient: recipient.clone(),
        amount: cosmwasm_std::Uint128::new(amount),
    };
    cosmwasm_std::to_json_binary(&msg).map(|binary| binary.0)
}

/// A request to run a contract: its address and the request as JSON. No
/// funds go with it.
#[derive(Clone, Debug, PartialEq)]
pub struct WasmMsg {
    pub contract_addr: String,
    pub msg: Vec<u8>,
}

/// Writes messages to one token contract.
pub struct CW20Client {
    contract_addr: String,
}

impl CW20Client {
    /// Address of the token contract the messages go to.
    pub closed spec fn address(self) -> String {
        self.contract_addr
    }

    /// The JSON text of `message`, nothing where it cannot be written.
    pub open spec fn json(message: TransferMsg) -> Option<Seq<u8>> {
        match message {
            TransferMsg::Transfer { recipient, amount } => transfer_json(recipient@, amount),
            TransferMsg::TransferFrom { owner, recipient, amount } => transfer_from_json(
                owner@,
                recipient@,
                amount,
            ),
        }
    }

    /// `encoded` is `messages` in the form in which they are sent: each to
    /// this client's contract, with its JSON text, in the same order.
    pub open spec fn encodes(self, messages: Seq<TransferMsg>, encoded: Seq<WasmMsg>) -> bool {
        &&& encoded.len() == messages.len()
        &&& forall|i: int|
            0 <= i < messages.len() ==> (#[trigger] encoded[i]).contract_addr == self.address()
                && Self::json(messages[i]) == Some(encoded[i].msg@)
    }

    pub fn new(contract_addr: String) -> (client: Self)
        ensures
            client.address() == contract_addr,
    {
        CW20Client { contract_addr }
    }

    /// A message that pays `amount` out of the contract's holdings to
    /// `recipient`.
    pub fn make_transfer_msg(
        &self,
        recipient: String,
        amount: u128,
    ) -> (res: Result<WasmMsg, StdError>)
        ensures
            res is Ok <==> transfer_json(recipient@, amount) is Some,
            self.sends(res, transfer_json(recipient@, amount)),
    {
        self.get_message(encode_transfer(&recipient, amount))
    }

    /// A message that pulls `amount` from `owner` to `recipient`.
    pub fn make_transfer_from_msg(
        &self,
        owner: String,
        recipient: String,
        amount: u128,
    ) -> (res: Result<WasmMsg, StdError>)
        ensures
            res is Ok <==> transfer_from_json(owner@, recipient@, amount) is Some,
            self.sends(res, transfer_from_json(owner@, recipient@, amount)),
    {
        self.get_message(encode_transfer_from(&owner, &recipient, amount))
    }

    /// Addresses an encoded request to the token contract, and hands an
    /// encoding error on.
    pub fn get_message(
        &self,
        encoded: Result<Vec<u8>, StdError>,
    ) -> (res: Result<WasmMsg, StdError>)
        ensures
            match encoded {
                Ok(msg) => res == Ok::<WasmMsg, StdError>(
                    WasmMsg { contract_addr: self.address(), msg },
                ),
                Err(error) => res == Err::<WasmMsg, StdError>(error),
            },
    {
        match encoded {
            Ok(msg) => Ok(WasmMsg { contract_addr: self.contract_addr.clone(), msg }),
            Err(error) => Err(error),
        }
    }

    /// `message` in the form in which it is sent.
    pub fn encode(&self, message: &TransferMsg) -> (res: Result<WasmMsg, StdError>)
        ensures
            res is Ok <==> Self::json(*message) is Some,
            self.sends(res, Self::json(*message)),
    {
        match message {
            TransferMsg::Transfer { recipient, amount } => self.make_transfer_msg(
                recipient.clone(),
                *amount,
            ),
            TransferMsg::TransferFrom { owner, recipient, amount } => self.make_transfer_from_msg(
                owner.clone(),
                recipient.clone(),
                *amount,
            ),
        }
    }

    /// `res` is what is sent for a request whose JSON text is `json`: the
    /// text addressed to this client's contract, or a failure exactly
    /// where there is no text because it could not be written.
    pub open spec fn sends(self, res: Result<WasmMsg, StdError>, json: Option<Seq<u8>>) -> bool {
        match json {
            Some(text) => res is Ok && res->Ok_0.contract_addr == self.address() && res->Ok_0.msg@
                == text,
            None => res is Err,
        }
    }

    /// The JSON text of each of `messages` can be written.
    pub open spec fn all_written(messages: Seq<TransferMsg>) -> bool {
        forall|i: int| 0 <= i < messages.len() ==> (#[trigger] Self::json(messages[i])) is Some
    }

    /// The messages of a response in the form in which they are sent, in
    /// their order. Succeeds exactly where the text of every message can
    /// be written, and fails with the first encoding error otherwise.
    pub fn encode_all(
        &self,
        messages: &Vec<TransferMsg>,
    ) -> (res: Result<Vec<WasmMsg>, ContractError>)
        ensures
            res is Ok <==> Self::all_written(messages@),
            res is Ok ==> self.encodes(messages@, res->Ok_0@),
            res is Err ==> res->Err_0 is Std,
    {
        let mut encoded: Vec<WasmMsg> = Vec::new();
        let mut next: usize = 0;
        while next < messages.len()
            invariant
                next <= messages.len(),
                self.encodes(messages@.take(next as int), encoded@),
            decreases messages.len() - next,
        {
            match self.encode(&messages[next]) {
                Ok(message) => {
                    encoded.push(message);
                },
                Err(error) => {
                    assert(Self::json(messages@[next as int]) is None);
                    return Err(ContractError::Std(error));
                },
            }
            next = next + 1;
        }
        assert(messages@.take(next as int) =~= messages@);
        assert forall|i: int| 0 <= i < messages@.len() implies (#[trigger] Self::json(
            messages@[i],
        )) is Some by {
            assert(encoded@[i].contract_addr == self.address());
        }
        Ok(encoded)
    }
}

} // verus!
