use vstd::prelude::*;

use crate::contract::{get_decks_result, receive_randomness_result, shuffle_deck_result};
use crate::deal::{deals, is_seed, lemma_deals_are_permutations, rotate_right, rotate_right_n};
use crate::error::ContractError;
use crate::state::LedgerView;

verus! {

/// Opening the same id twice before it is resolved: the second open is refused as a
/// duplicate.
pub proof fn lemma_open_twice_is_duplicate(v: LedgerView, sender: Seq<char>, id: Seq<char>)
    requires
        shuffle_deck_result(v, sender, id) is Ok,
    ensures
        shuffle_deck_result(shuffle_deck_result(v, sender, id)->Ok_0, sender, id) == Err::<
            LedgerView,
            ContractError,
        >(ContractError::DuplicateRequest),
{
}

/// Delivering randomness for an id that has no pending job is refused as unknown.
pub proof fn lemma_resolve_without_open(
    v: LedgerView,
    sender: Seq<char>,
    id: Seq<char>,
    randomness: Seq<Seq<char>>,
)
    requires
        v.config is Some,
        sender == v.config->0.aurand_address,
        !v.jobs.contains_key(id),
    ensures
        receive_randomness_result(v, sender, id, randomness) == Err::<LedgerView, ContractError>(
            ContractError::UnknownRequest,
        ),
{
}

/// Delivering randomness twice for one id: the second delivery is refused as unknown,
/// since the first consumed the pending job.
pub proof fn lemma_resolve_twice(
    v: LedgerView,
    sender: Seq<char>,
    id: Seq<char>,
    first: Seq<Seq<char>>,
    second: Seq<Seq<char>>,
)
    requires
        receive_randomness_result(v, sender, id, first) is Ok,
    ensures
        receive_randomness_result(
            receive_randomness_result(v, sender, id, first)->Ok_0,
            sender,
            id,
            second,
        ) == Err::<LedgerView, ContractError>(ContractError::UnknownRequest),
{
}

/// Randomness that is empty, or whose first element is not a 32-byte hex seed, is
/// refused from the oracle; what a successful delivery stores always starts with a seed.
pub proof fn lemma_resolve_checks_randomness(
    v: LedgerView,
    sender: Seq<char>,
    id: Seq<char>,
    randomness: Seq<Seq<char>>,
)
    requires
        v.config is Some,
        sender == v.config->0.aurand_address,
        v.jobs.contains_key(id),
    ensures
        randomness.len() == 0 || !is_seed(randomness[0]) ==> receive_randomness_result(
            v,
            sender,
            id,
            randomness,
        ) == Err::<LedgerView, ContractError>(ContractError::InvalidRandomness),
        receive_randomness_result(v, sender, id, randomness) matches Ok(w) ==> w.randoms[id].len()
            > 0 && is_seed(w.randoms[id][0]),
{
}

/// Only the owner opens jobs: anyone else is refused, so no job is created.
pub proof fn lemma_open_by_non_owner(v: LedgerView, sender: Seq<char>, id: Seq<char>)
    requires
        v.config is Some,
        sender != v.config->0.owner,
    ensures
        shuffle_deck_result(v, sender, id) == Err::<LedgerView, ContractError>(
            ContractError::Unauthorized,
        ),
{
}

/// Only the oracle delivers randomness: anyone else is refused, so the job stays.
pub proof fn lemma_resolve_by_non_oracle(
    v: LedgerView,
    sender: Seq<char>,
    id: Seq<char>,
    randomness: Seq<Seq<char>>,
)
    requires
        v.config is Some,
        sender != v.config->0.aurand_address,
    ensures
        receive_randomness_result(v, sender, id, randomness) == Err::<LedgerView, ContractError>(
            ContractError::Unauthorized,
        ),
{
}

/// A request id of 65 characters is refused as too long, whoever asks; one of 64
/// characters is accepted from the owner when no job is pending for it.
pub proof fn lemma_request_id_boundary(v: LedgerView, id: Seq<char>)
    requires
        v.config is Some,
    ensures
        id.len() == 65 ==> shuffle_deck_result(v, v.config->0.owner, id) == Err::<
            LedgerView,
            ContractError,
        >(ContractError::RequestIdTooLong),
        id.len() == 64 && !v.jobs.contains_key(id) ==> shuffle_deck_result(
            v,
            v.config->0.owner,
            id,
        ) is Ok,
{
}

/// Asking for 104 snapshots gives no result; asking for 103 of a resolved id with a
/// well-formed seed gives 103 snapshots.
pub proof fn lemma_count_boundary(v: LedgerView, id: Seq<char>)
    ensures
        get_decks_result(v, id, Some(104u32)) == Ok::<Option<Seq<Seq<u8>>>, ContractError>(None),
        get_decks_result(v, id, Some(103u32)) matches Ok(Some(d)) ==> d.len() == 103,
{
    if let Ok(Some(d)) = get_decks_result(v, id, Some(103u32)) {
        let r = v.randoms[id][0];
        let p = crate::deal::shuffled_of(crate::deal::hex_bytes(r), crate::deal::initial_deck());
        lemma_deals_are_permutations(p, 103);
    }
}

/// A query for an id without delivered randomness gives no result, never an error.
pub proof fn lemma_query_unresolved(v: LedgerView, id: Seq<char>, num: Option<u32>)
    requires
        !v.randoms.contains_key(id),
    ensures
        get_decks_result(v, id, num) == Ok::<Option<Seq<Seq<u8>>>, ContractError>(None),
{
}

/// Two ledgers with the same randomness stored for an id give the same answer to
/// every query on it.
pub proof fn lemma_get_decks_deterministic(
    v1: LedgerView,
    v2: LedgerView,
    id: Seq<char>,
    num: Option<u32>,
)
    requires
        v1.randoms.contains_key(id) == v2.randoms.contains_key(id),
        v1.randoms.contains_key(id) ==> v1.randoms[id] == v2.randoms[id],
    ensures
        get_decks_result(v1, id, num) == get_decks_result(v2, id, num),
{
}

/// The first snapshot is the shuffled deck rotated once, the second rotated twice.
pub proof fn lemma_first_deals(p: Seq<u8>)
    ensures
        deals(p, 1) == seq![rotate_right(p)],
        deals(p, 2) == seq![rotate_right(p), rotate_right(rotate_right(p))],
{
    reveal_with_fuel(rotate_right_n, 3);
    assert(rotate_right_n(p, 0) == p);
    assert(rotate_right_n(p, 1) == rotate_right(p));
    assert(rotate_right_n(p, 2) == rotate_right(rotate_right(p)));
    assert(deals(p, 1) =~= seq![rotate_right(p)]);
    assert(deals(p, 2) =~= seq![rotate_right(p), rotate_right(rotate_right(p))]);
}

} // verus!
