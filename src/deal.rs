use vstd::prelude::*;

verus! {

/// Number of cards in a deck.
pub const DECK_SIZE: u8 = 52;

/// The deck before shuffling: the cards `1, 2, ..., 52` in order.
pub open spec fn initial_deck() -> Seq<u8> {
    Seq::new(52, |i: int| (i + 1) as u8)
}

/// Move the last card to the front.
pub open spec fn rotate_right(s: Seq<u8>) -> Seq<u8> {
    if s.len() == 0 {
        s
    } else {
        seq![s.last()] + s.drop_last()
    }
}

/// The deck after `k` rotations to the right.
pub open spec fn rotate_right_n(s: Seq<u8>, k: nat) -> Seq<u8>
    decreases k,
{
    if k == 0 {
        s
    } else {
        rotate_right(rotate_right_n(s, (k - 1) as nat))
    }
}

/// The deal sequence of a shuffled deck: snapshot `i` is the deck after `i + 1` rotations.
pub open spec fn deals(deck: Seq<u8>, n: nat) -> Seq<Seq<u8>> {
    Seq::new(n, |i: int| rotate_right_n(deck, (i + 1) as nat))
}

/// A hexadecimal digit, either case.
pub open spec fn is_hex_digit(c: char) -> bool {
    ('0' as u32 <= c as u32 <= '9' as u32) || ('a' as u32 <= c as u32 <= 'f' as u32) || (
    'A' as u32 <= c as u32 <= 'F' as u32)
}

/// The value of a hexadecimal digit.
pub open spec fn hex_value(c: char) -> int {
    if '0' as u32 <= c as u32 <= '9' as u32 {
        c as u32 - '0' as u32
    } else if 'a' as u32 <= c as u32 <= 'f' as u32 {
        c as u32 - 'a' as u32 + 10
    } else {
        c as u32 - 'A' as u32 + 10
    }
}

/// Text made of pairs of hexadecimal digits.
pub open spec fn is_hex(s: Seq<char>) -> bool {
    s.len() % 2 == 0 && forall|i: int| 0 <= i < s.len() ==> is_hex_digit(#[trigger] s[i])
}

/// The bytes spelled by pairs of hexadecimal digits, high digit first.
pub open spec fn hex_bytes(s: Seq<char>) -> Seq<u8> {
    Seq::new(s.len() / 2, |i: int| (hex_value(s[2 * i]) * 16 + hex_value(s[2 * i + 1])) as u8)
}

/// Text that spells a 32-byte seed: exactly 64 hexadecimal digits.
pub open spec fn is_seed(s: Seq<char>) -> bool {
    s.len() == 64 && is_hex(s)
}

/// Relies on `hex::decode`: it succeeds exactly on text of an even number of
/// hexadecimal digits (either case) and returns one byte per pair, high digit first.
/// Any character outside ASCII spells bytes that are no hex digits, so it fails there.
#[verifier::external_body]
fn decode_hex(s: &String) -> (r: Option<Vec<u8>>)
    ensures
        r is Some <==> is_hex(s@),
        r is Some ==> r->0@ == hex_bytes(s@),
{
    hex::decode(s).ok()
}

/// Decode a stored randomness string into a 32-byte seed; `None` unless it is
/// exactly 64 hexadecimal digits.
pub fn decode_seed(s: &String) -> (r: Option<Vec<u8>>)
    ensures
        r is Some <==> is_seed(s@),
        r is Some ==> r->0@ == hex_bytes(s@) && r->0@.len() == 32,
{
    match decode_hex(s) {
        Some(bytes) => {
            if bytes.len() == 32 {
                Some(bytes)
            } else {
                None
            }
        },
        None => None,
    }
}

/// The snapshots of a deal sequence as plain card lists.
pub open spec fn decks_view(v: Seq<Vec<u8>>) -> Seq<Seq<u8>> {
    v.map_values(|d: Vec<u8>| d@)
}

/// What `nois::shuffle` returns for a 32-byte seed and a list of cards.
pub uninterp spec fn shuffled_of(seed: Seq<u8>, data: Seq<u8>) -> Seq<u8>;

/// Relies on `nois::shuffle`: a Fisher-Yates shuffle driven by a PRNG seeded with the
/// randomness, which only swaps elements, so the result is a permutation of the input
/// determined by the seed and the input alone on a given target (the PRNG draws
/// indices of pointer width, so 32-bit and 64-bit builds permute differently).
#[verifier::external_body]
fn shuffle_cards(seed: &Vec<u8>, data: Vec<u8>) -> (r: Vec<u8>)
    requires
        seed@.len() == 32,
    ensures
        r@ == shuffled_of(seed@, data@),
        r@.to_multiset() == data@.to_multiset(),
        r@.len() == data@.len(),
{
    let mut randomness = [0u8; 32];
    randomness.copy_from_slice(seed.as_slice());
    nois::shuffle(randomness, data)
}

/// Rotating keeps the cards.
pub proof fn lemma_rotate_right_multiset(s: Seq<u8>)
    ensures
        rotate_right(s).to_multiset() == s.to_multiset(),
        rotate_right(s).len() == s.len(),
{
    broadcast use vstd::seq_lib::group_to_multiset_ensures;
    if s.len() > 0 {
        vstd::seq_lib::lemma_multiset_commutative(seq![s.last()], s.drop_last());
        assert(s.drop_last().push(s.last()) =~= s);
        assert(seq![s.last()] =~= Seq::<u8>::empty().push(s.last()));
        assert(rotate_right(s).to_multiset() =~= s.to_multiset());
    }
}

/// Rotating keeps a deck free of repeated cards.
pub proof fn lemma_rotate_right_no_duplicates(s: Seq<u8>)
    requires
        s.no_duplicates(),
    ensures
        rotate_right(s).no_duplicates(),
{
    if s.len() > 0 {
        let r = rotate_right(s);
        assert forall|i: int, j: int| 0 <= i < r.len() && 0 <= j < r.len() && i != j implies r[i]
            != r[j] by {
            let si = if i == 0 { s.len() - 1 } else { i - 1 };
            let sj = if j == 0 { s.len() - 1 } else { j - 1 };
            assert(r[i] == s[si]);
            assert(r[j] == s[sj]);
        }
    }
}

/// Any number of rotations keeps the cards and keeps them distinct.
pub proof fn lemma_rotate_right_n_permutation(s: Seq<u8>, k: nat)
    ensures
        rotate_right_n(s, k).to_multiset() == s.to_multiset(),
        rotate_right_n(s, k).len() == s.len(),
        s.no_duplicates() ==> rotate_right_n(s, k).no_duplicates(),
    decreases k,
{
    if k > 0 {
        lemma_rotate_right_n_permutation(s, (k - 1) as nat);
        lemma_rotate_right_multiset(rotate_right_n(s, (k - 1) as nat));
        if s.no_duplicates() {
            lemma_rotate_right_no_duplicates(rotate_right_n(s, (k - 1) as nat));
        }
    }
}

/// Every snapshot of a deal sequence holds the same cards as the deck it came from,
/// without repeats if the deck has none, and there are exactly `n` snapshots.
pub proof fn lemma_deals_are_permutations(deck: Seq<u8>, n: nat)
    ensures
        deals(deck, n).len() == n,
        forall|i: int|
            0 <= i < n ==> (#[trigger] deals(deck, n)[i]).to_multiset() == deck.to_multiset()
                && deals(deck, n)[i].len() == deck.len() && (deck.no_duplicates()
                ==> deals(deck, n)[i].no_duplicates()),
{
    assert forall|i: int| 0 <= i < n implies (#[trigger] deals(deck, n)[i]).to_multiset()
        == deck.to_multiset() && deals(deck, n)[i].len() == deck.len() && (deck.no_duplicates()
        ==> deals(deck, n)[i].no_duplicates()) by {
        lemma_rotate_right_n_permutation(deck, (i + 1) as nat);
    }
}

/// The cards `1..=52` are distinct.
pub proof fn lemma_initial_deck_no_duplicates()
    ensures
        initial_deck().no_duplicates(),
{
}

/// Shuffle the ordered deck with a 32-byte seed and deal `count` snapshots from it.
/// Each snapshot holds every card `1..=52` exactly once.
pub fn decks_from_seed(seed: &Vec<u8>, count: u32) -> (r: Vec<Vec<u8>>)
    requires
        seed@.len() == 32,
    ensures
        decks_view(r@) == deals(shuffled_of(seed@, initial_deck()), count as nat),
        r@.len() == count,
        forall|i: int|
            0 <= i < count ==> (#[trigger] r@[i])@.to_multiset() == initial_deck().to_multiset()
                && r@[i]@.len() == 52 && r@[i]@.no_duplicates(),
{
    let deck = new_deck();
    let shuffled = shuffle_cards(seed, deck);
    let ghost p = shuffled@;
    let r = deal_sequence(shuffled, count);
    proof {
        lemma_deals_are_permutations(p, count as nat);
        lemma_initial_deck_no_duplicates();
        lemma_multiset_no_duplicates(initial_deck(), p);
        assert(decks_view(r@) =~= deals(p, count as nat));
    }
    r
}

/// A sequence with the same multiset as one without repeats has no repeats either.
pub proof fn lemma_multiset_no_duplicates(s: Seq<u8>, t: Seq<u8>)
    requires
        s.no_duplicates(),
        t.to_multiset() == s.to_multiset(),
    ensures
        t.no_duplicates(),
{
    s.lemma_multiset_has_no_duplicates();
    t.lemma_multiset_has_no_duplicates_conv();
}

/// Build the ordered deck `1, 2, ..., 52`.
pub fn new_deck() -> (r: Vec<u8>)
    ensures
        r@ == initial_deck(),
{
    let mut v: Vec<u8> = Vec::new();
    let mut c: u8 = 1;
    while c <= DECK_SIZE
        invariant
            1 <= c <= 53,
            v@.len() == c - 1,
            forall|i: int| 0 <= i < v@.len() ==> v@[i] == i + 1,
        decreases 53 - c,
    {
        v.push(c);
        c = c + 1;
    }
    assert(v@ =~= initial_deck());
    v
}

/// The deal sequence of `count` snapshots from a shuffled deck: each step moves the
/// last card to the front and records the whole deck, front to back.
pub fn deal_sequence(deck: Vec<u8>, count: u32) -> (r: Vec<Vec<u8>>)
    ensures
        r@.len() == count,
        forall|i: int| 0 <= i < count ==> (#[trigger] r@[i])@ == deals(deck@, count as nat)[i],
{
    let ghost start = deck@;
    let mut queue: std::collections::VecDeque<u8> = std::collections::VecDeque::new();
    let mut k: usize = 0;
    while k < deck.len()
        invariant
            k <= deck@.len(),
            deck@ == start,
            queue@ == start.take(k as int),
        decreases deck@.len() - k,
    {
        queue.push_back(deck[k]);
        k = k + 1;
        assert(queue@ =~= start.take(k as int));
    }
    assert(start.take(start.len() as int) =~= start);
    let mut out: Vec<Vec<u8>> = Vec::new();
    let mut step: u32 = 0;
    while step < count
        invariant
            step <= count,
            queue@ == rotate_right_n(start, step as nat),
            out@.len() == step,
            forall|i: int| 0 <= i < step ==> (#[trigger] out@[i])@ == rotate_right_n(start, (i + 1) as nat),
        decreases count - step,
    {
        let ghost before = queue@;
        match queue.pop_back() {
            Some(card) => {
                queue.push_front(card);
                assert(queue@ =~= rotate_right(before));
            },
            None => {
                assert(before.len() == 0);
            },
        }
        let mut snapshot: Vec<u8> = Vec::new();
        let mut j: usize = 0;
        while j < queue.len()
            invariant
                j <= queue@.len(),
                snapshot@ == queue@.take(j as int),
            decreases queue@.len() - j,
        {
            snapshot.push(queue[j]);
            j = j + 1;
            assert(snapshot@ =~= queue@.take(j as int));
        }
        assert(queue@.take(queue@.len() as int) =~= queue@);
        out.push(snapshot);
        step = step + 1;
    }
    out
}

} // verus!
