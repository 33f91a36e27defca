use vstd::prelude::*;

verus! {

/// A coin attached to a call: a denomination and an amount.
#[derive(Debug, Clone, PartialEq, Eq)]
pub struct Coin {
    pub denom: String,
    pub amount: u128,
}

/// Who made an inbound call, and the funds attached to it.
#[derive(Debug, Clone, PartialEq, Eq)]
pub struct MessageInfo {
    pub sender: String,
    pub funds: Vec<Coin>,
}

/// Message that sets up the ledger.
#[derive(Debug, Clone, PartialEq, Eq)]
pub struct InstantiateMsg {
    pub aurand_address: String,
    pub owner: String,
}

/// Messages that change the ledger.
#[derive(Debug, Clone, PartialEq, Eq)]
pub enum ExecuteMsg {
    ShuffleDeck { request_id: String },
    ReceiveHexRandomness { request_id: String, randomness: Vec<String> },
    SetConfig { aurand_address: String, owner: String },
}

/// The request sent to the randomness oracle.
#[derive(Debug, Clone, PartialEq, Eq)]
pub enum AurandExecuteMsg {
    RequestHexRandomness { request_id: String, num: u32 },
}

/// Message for a migration; it carries nothing.
#[derive(Debug, Clone, PartialEq, Eq)]
pub struct MigrateMsg {}

/// Read-only queries.
#[derive(Debug, Clone, PartialEq, Eq)]
pub enum QueryMsg {
    GetDecks { request_id: String, num: Option<u32> },
}

/// The deal sequence for a resolved request.
#[derive(Debug, Clone, PartialEq, Eq)]
pub struct GetDecksResponse {
    pub decks: Vec<Vec<u8>>,
}

/// An attribute of a response, for observability.
#[derive(Debug, Clone, PartialEq, Eq)]
pub struct Attribute {
    pub key: String,
    pub value: String,
}

/// An outbound call to the oracle contract, carrying funds.
#[derive(Debug, Clone, PartialEq, Eq)]
pub struct OracleCall {
    pub contract_addr: String,
    pub msg: AurandExecuteMsg,
    pub funds: Vec<Coin>,
}

/// What an operation hands back: outbound calls to make and attributes to log.
#[derive(Debug, Clone, PartialEq, Eq)]
pub struct Response {
    pub messages: Vec<OracleCall>,
    pub attributes: Vec<Attribute>,
}

/// The attributes of a response as key/value pairs.
pub open spec fn attributes_view(a: Seq<Attribute>) -> Seq<(Seq<char>, Seq<char>)> {
    a.map_values(|x: Attribute| (x.key@, x.value@))
}

/// Build an attribute from two pieces of text.
pub fn attribute(key: &str, value: &str) -> (r: Attribute)
    ensures
        r.key@ == key@,
        r.value@ == value@,
{
    Attribute { key: key.to_owned(), value: value.to_owned() }
}

} // verus!
