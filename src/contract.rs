use vstd::prelude::*;
use vstd::string::StrSliceExecFns;

use crate::deal::{decks_from_seed, decode_seed, decks_view, deals, hex_bytes, initial_deck, is_seed, shuffled_of};
use crate::error::ContractError;
use crate::msg::{
    attribute, attributes_view, AurandExecuteMsg, ExecuteMsg, GetDecksResponse, MessageInfo,
    MigrateMsg, OracleCall, QueryMsg, Response,
};
use crate::state::{Config, ConfigView, Ledger, LedgerView};

verus! {

/// Longest request id accepted, in characters.
pub const MAX_REQUEST_ID_LENGTH: usize = 64;

/// Most deck snapshots a query returns.
pub const MAX_REQUEST_DECK_LENGTH: u32 = 103;

/// The outcome of opening a job for `id` on behalf of `sender`.
pub open spec fn shuffle_deck_result(v: LedgerView, sender: Seq<char>, id: Seq<char>) -> Result<
    LedgerView,
    ContractError,
> {
    match v.config {
        None => Err(ContractError::NotInitialized),
        Some(c) => if sender != c.owner {
            Err(ContractError::Unauthorized)
        } else if id.len() > 64 {
            Err(ContractError::RequestIdTooLong)
        } else if v.jobs.contains_key(id) {
            Err(ContractError::DuplicateRequest)
        } else {
            Ok(LedgerView { jobs: v.jobs.insert(id, sender), ..v })
        },
    }
}

/// The outcome of delivering `randomness` for `id` from `sender`.
pub open spec fn receive_randomness_result(
    v: LedgerView,
    sender: Seq<char>,
    id: Seq<char>,
    randomness: Seq<Seq<char>>,
) -> Result<LedgerView, ContractError> {
    match v.config {
        None => Err(ContractError::NotInitialized),
        Some(c) => if sender != c.aurand_address {
            Err(ContractError::Unauthorized)
        } else if !v.jobs.contains_key(id) {
            Err(ContractError::UnknownRequest)
        } else if randomness.len() == 0 || !is_seed(randomness[0]) {
            Err(ContractError::InvalidRandomness)
        } else {
            Ok(LedgerView { jobs: v.jobs.remove(id), randoms: v.randoms.insert(id, randomness), ..v })
        },
    }
}

/// The response to a successful open: one request for a single unit of randomness
/// to the oracle, carrying the caller's funds, and the attribution attributes.
pub open spec fn shuffle_deck_response(
    r: Response,
    oracle: Seq<char>,
    info: MessageInfo,
    id: Seq<char>,
) -> bool {
    &&& r.messages@.len() == 1
    &&& r.messages@[0].contract_addr@ == oracle
    &&& r.messages@[0].funds@ == info.funds@
    &&& r.messages@[0].msg matches AurandExecuteMsg::RequestHexRandomness { request_id, num }
        && request_id@ == id && num == 1
    &&& attributes_view(r.attributes@) == seq![
        ("action"@, "shuffle_deck"@),
        ("sender"@, info.sender@),
        ("request_id"@, id),
    ]
}

/// The response to a successful delivery of randomness.
pub open spec fn receive_randomness_response(r: Response) -> bool {
    &&& r.messages@.len() == 0
    &&& attributes_view(r.attributes@) == seq![("action"@, "receive_hex_randomness"@)]
}

/// The response to a successful change of configuration.
pub open spec fn set_config_response(r: Response, aurand_address: Seq<char>, owner: Seq<char>) -> bool {
    &&& r.messages@.len() == 0
    &&& attributes_view(r.attributes@) == seq![
        ("action"@, "set_config"@),
        ("method"@, aurand_address),
        ("owner"@, owner),
    ]
}

/// The outcome of replacing the configuration; `None` stands for an identity that
/// failed validation.
pub open spec fn set_config_result(
    v: LedgerView,
    sender: Seq<char>,
    aurand_address: Option<Seq<char>>,
    owner: Option<Seq<char>>,
) -> Result<LedgerView, ContractError> {
    match v.config {
        None => Err(ContractError::NotInitialized),
        Some(c) => if sender != c.owner {
            Err(ContractError::Unauthorized)
        } else if aurand_address is None || owner is None {
            Err(ContractError::InvalidAddress)
        } else {
            Ok(
                LedgerView {
                    config: Some(ConfigView { aurand_address: aurand_address->0, owner: owner->0 }),
                    ..v
                },
            )
        },
    }
}

/// The outcome of asking for `num` deck snapshots of request `id`.
pub open spec fn get_decks_result(v: LedgerView, id: Seq<char>, num: Option<u32>) -> Result<
    Option<Seq<Seq<u8>>>,
    ContractError,
> {
    if !v.randoms.contains_key(id) || num is None || num->0 > 103 {
        Ok(None)
    } else if v.randoms[id].len() == 0 || !is_seed(v.randoms[id][0]) {
        Err(ContractError::CorruptState)
    } else {
        Ok(Some(deals(shuffled_of(hex_bytes(v.randoms[id][0]), initial_deck()), num->0 as nat)))
    }
}

/// Identities checked by the identity-validation collaborator: the normalized identity,
/// or `None` where validation failed.
#[derive(Debug, Clone, PartialEq, Eq)]
pub struct ValidatedAddresses {
    pub aurand_address: Option<String>,
    pub owner: Option<String>,
}

pub open spec fn opt_view(o: Option<String>) -> Option<Seq<char>> {
    match o {
        Some(s) => Some(s@),
        None => None,
    }
}

/// The outcome of an execute message.
pub open spec fn execute_result(
    v: LedgerView,
    sender: Seq<char>,
    msg: ExecuteMsg,
    validated: ValidatedAddresses,
) -> Result<LedgerView, ContractError> {
    match msg {
        ExecuteMsg::ShuffleDeck { request_id } => shuffle_deck_result(v, sender, request_id@),
        ExecuteMsg::ReceiveHexRandomness { request_id, randomness } => receive_randomness_result(
            v,
            sender,
            request_id@,
            randomness@.map_values(|s: String| s@),
        ),
        ExecuteMsg::SetConfig { .. } => set_config_result(
            v,
            sender,
            opt_view(validated.aurand_address),
            opt_view(validated.owner),
        ),
    }
}

/// Set up a ledger from two validated identities.
pub fn instantiate(validated: ValidatedAddresses) -> (r: Result<(Ledger, Response), ContractError>)
    ensures
        match (validated.aurand_address, validated.owner) {
            (Some(a), Some(o)) => r is Ok && r->Ok_0.0@ == (LedgerView {
                config: Some(ConfigView { aurand_address: a@, owner: o@ }),
                jobs: Map::empty(),
                randoms: Map::empty(),
            }) && r->Ok_0.1.messages@.len() == 0 && attributes_view(r->Ok_0.1.attributes@) == seq![
                ("method"@, "instantiate"@),
                ("method"@, a@),
                ("owner"@, o@),
            ],
            _ => r is Err && r->Err_0 == ContractError::InvalidAddress,
        },
{
    let aurand_address = match validated.aurand_address {
        Some(a) => a,
        None => return Err(ContractError::InvalidAddress),
    };
    let owner = match validated.owner {
        Some(o) => o,
        None => return Err(ContractError::InvalidAddress),
    };
    let attributes = vec![
        attribute("method", "instantiate"),
        attribute("method", aurand_address.as_str()),
        attribute("owner", owner.as_str()),
    ];
    let ledger = Ledger::new(Config { aurand_address, owner });
    let response = Response { messages: Vec::new(), attributes };
    assert(attributes_view(response.attributes@) =~= seq![
        ("method"@, "instantiate"@),
        ("method"@, ledger@.config->0.aurand_address),
        ("owner"@, ledger@.config->0.owner),
    ]);
    Ok((ledger, response))
}

/// A migration changes nothing.
pub fn migrate(msg: MigrateMsg) -> (r: Result<Response, ContractError>)
    ensures
        r is Ok,
        r->Ok_0.messages@.len() == 0,
        r->Ok_0.attributes@.len() == 0,
{
    Ok(Response { messages: Vec::new(), attributes: Vec::new() })
}

/// Open a job for `request_id`: only the owner may, the id must be at most 64
/// characters, and no job for it may be pending. On success the job is recorded and
/// one request for a single unit of randomness goes to the oracle, carrying the funds.
pub fn execute_shuffle_deck(ledger: &mut Ledger, info: MessageInfo, request_id: String) -> (r:
    Result<Response, ContractError>)
    ensures
        match shuffle_deck_result(old(ledger)@, info.sender@, request_id@) {
            Ok(v) => {
                &&& r is Ok
                &&& final(ledger)@ == v
                &&& shuffle_deck_response(
                    r->Ok_0,
                    old(ledger)@.config->0.aurand_address,
                    info,
                    request_id@,
                )
            },
            Err(e) => r is Err && r->Err_0 == e && final(ledger)@ == old(ledger)@,
        },
{
    let config = match ledger.config() {
        Some(c) => c,
        None => return Err(ContractError::NotInitialized),
    };
    if info.sender != config.owner {
        return Err(ContractError::Unauthorized);
    }
    if request_id.as_str().unicode_len() > MAX_REQUEST_ID_LENGTH {
        return Err(ContractError::RequestIdTooLong);
    }
    if ledger.job(&request_id).is_some() {
        return Err(ContractError::DuplicateRequest);
    }
    let call = OracleCall {
        contract_addr: config.aurand_address.clone(),
        msg: AurandExecuteMsg::RequestHexRandomness { request_id: request_id.clone(), num: 1 },
        funds: info.funds,
    };
    let attributes = vec![
        attribute("action", "shuffle_deck"),
        attribute("sender", info.sender.as_str()),
        attribute("request_id", request_id.as_str()),
    ];
    ledger.insert_job(request_id, info.sender);
    let response = Response { messages: vec![call], attributes };
    assert(attributes_view(response.attributes@) =~= seq![
        ("action"@, "shuffle_deck"@),
        ("sender"@, info.sender@),
        ("request_id"@, request_id@),
    ]);
    Ok(response)
}

/// Close the pending job for `request_id` with the oracle's randomness: only the
/// oracle identity may, a job must be pending for the id, and the first element of
/// the randomness must be a 32-byte seed written as 64 hexadecimal digits.
pub fn execute_receive_hex_randomness(
    ledger: &mut Ledger,
    info: MessageInfo,
    request_id: String,
    randomness: Vec<String>,
) -> (r: Result<Response, ContractError>)
    ensures
        match receive_randomness_result(
            old(ledger)@,
            info.sender@,
            request_id@,
            randomness@.map_values(|s: String| s@),
        ) {
            Ok(v) => {
                &&& r is Ok
                &&& final(ledger)@ == v
                &&& receive_randomness_response(r->Ok_0)
            },
            Err(e) => r is Err && r->Err_0 == e && final(ledger)@ == old(ledger)@,
        },
{
    let config = match ledger.config() {
        Some(c) => c,
        None => return Err(ContractError::NotInitialized),
    };
    if config.aurand_address != info.sender {
        return Err(ContractError::Unauthorized);
    }
    if ledger.job(&request_id).is_none() {
        return Err(ContractError::UnknownRequest);
    }
    if randomness.len() == 0 {
        return Err(ContractError::InvalidRandomness);
    }
    if decode_seed(&randomness[0]).is_none() {
        return Err(ContractError::InvalidRandomness);
    }
    ledger.resolve_job(&request_id, randomness);
    let response = Response {
        messages: Vec::new(),
        attributes: vec![attribute("action", "receive_hex_randomness")],
    };
    assert(attributes_view(response.attributes@) =~= seq![
        ("action"@, "receive_hex_randomness"@),
    ]);
    Ok(response)
}

/// Replace both identities of the configuration at once: only the owner may, and
/// both must have passed validation (`None` where they did not).
pub fn execute_set_config(
    ledger: &mut Ledger,
    info: MessageInfo,
    aurand_address: Option<String>,
    owner: Option<String>,
) -> (r: Result<Response, ContractError>)
    ensures
        match set_config_result(
            old(ledger)@,
            info.sender@,
            opt_view(aurand_address),
            opt_view(owner),
        ) {
            Ok(v) => {
                &&& r is Ok
                &&& final(ledger)@ == v
                &&& set_config_response(r->Ok_0, aurand_address->0@, owner->0@)
            },
            Err(e) => r is Err && r->Err_0 == e && final(ledger)@ == old(ledger)@,
        },
{
    let config = match ledger.config() {
        Some(c) => c,
        None => return Err(ContractError::NotInitialized),
    };
    if info.sender != config.owner {
        return Err(ContractError::Unauthorized);
    }
    let aurand_address = match aurand_address {
        Some(a) => a,
        None => return Err(ContractError::InvalidAddress),
    };
    let owner = match owner {
        Some(o) => o,
        None => return Err(ContractError::InvalidAddress),
    };
    let attributes = vec![
        attribute("action", "set_config"),
        attribute("method", aurand_address.as_str()),
        attribute("owner", owner.as_str()),
    ];
    let ghost (a, o) = (aurand_address@, owner@);
    ledger.set_config(Config { aurand_address, owner });
    let response = Response { messages: Vec::new(), attributes };
    assert(attributes_view(response.attributes@) =~= seq![
        ("action"@, "set_config"@),
        ("method"@, a),
        ("owner"@, o),
    ]);
    Ok(response)
}

/// Carry out an execute message; `validated` holds the checked identities of a
/// `SetConfig` message and is ignored for the others.
pub fn execute(
    ledger: &mut Ledger,
    info: MessageInfo,
    msg: ExecuteMsg,
    validated: ValidatedAddresses,
) -> (r: Result<Response, ContractError>)
    ensures
        match execute_result(old(ledger)@, info.sender@, msg, validated) {
            Ok(v) => {
                &&& r is Ok
                &&& final(ledger)@ == v
                &&& match msg {
                    ExecuteMsg::ShuffleDeck { request_id } => shuffle_deck_response(
                        r->Ok_0,
                        old(ledger)@.config->0.aurand_address,
                        info,
                        request_id@,
                    ),
                    ExecuteMsg::ReceiveHexRandomness { .. } => receive_randomness_response(r->Ok_0),
                    ExecuteMsg::SetConfig { .. } => set_config_response(
                        r->Ok_0,
                        validated.aurand_address->0@,
                        validated.owner->0@,
                    ),
                }
            },
            Err(e) => r is Err && r->Err_0 == e && final(ledger)@ == old(ledger)@,
        },
{
    match msg {
        ExecuteMsg::ShuffleDeck { request_id } => execute_shuffle_deck(ledger, info, request_id),
        ExecuteMsg::ReceiveHexRandomness { request_id, randomness } => {
            execute_receive_hex_randomness(ledger, info, request_id, randomness)
        },
        ExecuteMsg::SetConfig { .. } => {
            execute_set_config(ledger, info, validated.aurand_address, validated.owner)
        },
    }
}

/// The deal sequence of `num` snapshots for `request_id`; no result (not an error)
/// when no randomness is recorded for it, `num` is missing or above 103. Every
/// snapshot holds each card `1..=52` exactly once.
pub fn query_get_decks(ledger: &Ledger, request_id: &String, num: Option<u32>) -> (r: Result<
    Option<GetDecksResponse>,
    ContractError,
>)
    ensures
        match get_decks_result(ledger@, request_id@, num) {
            Ok(None) => r matches Ok(None),
            Ok(Some(d)) => r is Ok && r->Ok_0 is Some && decks_view(r->Ok_0->0.decks@) == d,
            Err(e) => r is Err && r->Err_0 == e,
        },
        r matches Ok(Some(g)) ==> g.decks@.len() == num->0 && forall|i: int|
            0 <= i < g.decks@.len() ==> (#[trigger] g.decks@[i])@.to_multiset()
                == initial_deck().to_multiset() && g.decks@[i]@.len() == 52
                && g.decks@[i]@.no_duplicates(),
{
    let random = match ledger.random(request_id) {
        Some(v) => v,
        None => return Ok(None),
    };
    let count = match num {
        Some(n) => n,
        None => return Ok(None),
    };
    if count > MAX_REQUEST_DECK_LENGTH {
        return Ok(None);
    }
    if random.len() == 0 {
        return Err(ContractError::CorruptState);
    }
    let seed = match decode_seed(&random[0]) {
        Some(b) => b,
        None => return Err(ContractError::CorruptState),
    };
    let decks = decks_from_seed(&seed, count);
    Ok(Some(GetDecksResponse { decks }))
}

/// Answer a query.
pub fn query(ledger: &Ledger, msg: &QueryMsg) -> (r: Result<Option<GetDecksResponse>, ContractError>)
    ensures
        match msg {
            QueryMsg::GetDecks { request_id, num } => match get_decks_result(ledger@, request_id@, *num) {
                Ok(None) => r matches Ok(None),
                Ok(Some(d)) => r is Ok && r->Ok_0 is Some && decks_view(r->Ok_0->0.decks@) == d,
                Err(e) => r is Err && r->Err_0 == e,
            },
        },
{
    match msg {
        QueryMsg::GetDecks { request_id, num } => query_get_decks(ledger, request_id, *num),
    }
}

} // verus!
