use vstd::prelude::*;

verus! {

/// The two identities that the ledger authorizes against.
#[derive(Debug, Clone, PartialEq, Eq)]
pub struct Config {
    pub aurand_address: String,
    pub owner: String,
}

/// The configuration as plain text.
pub struct ConfigView {
    pub aurand_address: Seq<char>,
    pub owner: Seq<char>,
}

impl View for Config {
    type V = ConfigView;

    open spec fn view(&self) -> ConfigView {
        ConfigView { aurand_address: self.aurand_address@, owner: self.owner@ }
    }
}

/// Everything the ledger stores about one request id: the pending job (its requester),
/// and the randomness once delivered.
#[derive(Debug, Clone, PartialEq, Eq)]
pub struct Slot {
    pub request_id: String,
    pub job: Option<String>,
    pub random: Option<Vec<String>>,
}

/// The mathematical state of the ledger: the configuration, the pending jobs
/// (request id to requester) and the delivered randomness (request id to hex strings).
pub struct LedgerView {
    pub config: Option<ConfigView>,
    pub jobs: Map<Seq<char>, Seq<char>>,
    pub randoms: Map<Seq<char>, Seq<Seq<char>>>,
}

/// The durable state of the card game: configuration, pending jobs, delivered randomness.
#[derive(Debug, Clone)]
pub struct Ledger {
    config: Option<Config>,
    slots: Vec<Slot>,
}

/// The request ids of a list of slots.
pub open spec fn slot_ids(slots: Seq<Slot>) -> Seq<Seq<char>> {
    slots.map_values(|s: Slot| s.request_id@)
}

/// The first position at or after `i` that holds `id`, or -1.
pub open spec fn find_from(ids: Seq<Seq<char>>, id: Seq<char>, i: int) -> int
    decreases ids.len() - i,
{
    if i < 0 || i >= ids.len() {
        -1
    } else if ids[i] == id {
        i
    } else {
        find_from(ids, id, i + 1)
    }
}

/// The first position that holds `id`, or -1.
pub open spec fn find(ids: Seq<Seq<char>>, id: Seq<char>) -> int {
    find_from(ids, id, 0)
}

/// A search finds nothing, or a position at or after its start that holds the id.
pub proof fn lemma_find_from_range(ids: Seq<Seq<char>>, id: Seq<char>, i: int)
    requires
        0 <= i,
    ensures
        find_from(ids, id, i) == -1 || (i <= find_from(ids, id, i) < ids.len()
            && ids[find_from(ids, id, i)] == id),
    decreases ids.len() - i,
{
    if i < ids.len() && ids[i] != id {
        lemma_find_from_range(ids, id, i + 1);
    }
}

/// Appending a new id leaves the earlier positions alone.
pub proof fn lemma_find_from_push(ids: Seq<Seq<char>>, x: Seq<char>, id: Seq<char>, i: int)
    requires
        0 <= i <= ids.len(),
    ensures
        find_from(ids.push(x), id, i) == if find_from(ids, id, i) >= 0 {
            find_from(ids, id, i)
        } else if x == id {
            ids.len() as int
        } else {
            -1
        },
    decreases ids.len() - i,
{
    assert(ids.push(x)[ids.len() as int] == x);
    if i < ids.len() {
        assert(ids.push(x)[i] == ids[i]);
        lemma_find_from_push(ids, x, id, i + 1);
    } else {
        assert(find_from(ids.push(x), id, i + 1) == -1);
    }
}

impl Slot {
    pub open spec fn random_view(self) -> Seq<Seq<char>> {
        self.random->0@.map_values(|s: String| s@)
    }
}

impl View for Ledger {
    type V = LedgerView;

    closed spec fn view(&self) -> LedgerView {
        LedgerView {
            config: match self.config {
                Some(c) => Some(c@),
                None => None,
            },
            jobs: Map::new(
                |k: Seq<char>|
                    find(slot_ids(self.slots@), k) >= 0 && self.slots@[find(
                        slot_ids(self.slots@),
                        k,
                    )].job is Some,
                |k: Seq<char>| self.slots@[find(slot_ids(self.slots@), k)].job->0@,
            ),
            randoms: Map::new(
                |k: Seq<char>|
                    find(slot_ids(self.slots@), k) >= 0 && self.slots@[find(
                        slot_ids(self.slots@),
                        k,
                    )].random is Some,
                |k: Seq<char>| self.slots@[find(slot_ids(self.slots@), k)].random_view(),
            ),
        }
    }
}

impl Ledger {
    /// A ledger with the given configuration and nothing else.
    pub fn new(config: Config) -> (r: Ledger)
        ensures
            r@.config == Some(config@),
            r@.jobs == Map::<Seq<char>, Seq<char>>::empty(),
            r@.randoms == Map::<Seq<char>, Seq<Seq<char>>>::empty(),
    {
        let r = Ledger { config: Some(config), slots: Vec::new() };
        assert(r@.jobs =~= Map::<Seq<char>, Seq<char>>::empty());
        assert(r@.randoms =~= Map::<Seq<char>, Seq<Seq<char>>>::empty());
        r
    }

    /// A ledger that was never configured.
    pub fn uninitialized() -> (r: Ledger)
        ensures
            r@.config is None,
            r@.jobs == Map::<Seq<char>, Seq<char>>::empty(),
            r@.randoms == Map::<Seq<char>, Seq<Seq<char>>>::empty(),
    {
        let r = Ledger { config: None, slots: Vec::new() };
        assert(r@.jobs =~= Map::<Seq<char>, Seq<char>>::empty());
        assert(r@.randoms =~= Map::<Seq<char>, Seq<Seq<char>>>::empty());
        r
    }

    /// The configuration, if set.
    pub fn config(&self) -> (r: Option<&Config>)
        ensures
            match r {
                Some(c) => self@.config == Some(c@),
                None => self@.config is None,
            },
    {
        match &self.config {
            Some(c) => Some(c),
            None => None,
        }
    }

    /// The requester of the pending job for `id`, if any.
    pub fn job(&self, id: &String) -> (r: Option<String>)
        ensures
            match r {
                Some(who) => self@.jobs.contains_key(id@) && self@.jobs[id@] == who@,
                None => !self@.jobs.contains_key(id@),
            },
    {
        match self.position(id) {
            Some(i) => match &self.slots[i].job {
                Some(who) => Some(who.clone()),
                None => None,
            },
            None => None,
        }
    }

    /// The randomness delivered for `id`, if any.
    pub fn random(&self, id: &String) -> (r: Option<&Vec<String>>)
        ensures
            match r {
                Some(v) => self@.randoms.contains_key(id@) && self@.randoms[id@] == v@.map_values(
                    |s: String| s@,
                ),
                None => !self@.randoms.contains_key(id@),
            },
    {
        match self.position(id) {
            Some(i) => match &self.slots[i].random {
                Some(v) => Some(v),
                None => None,
            },
            None => None,
        }
    }

    /// Replace the configuration.
    pub fn set_config(&mut self, config: Config)
        ensures
            final(self)@.config == Some(config@),
            final(self)@.jobs == old(self)@.jobs,
            final(self)@.randoms == old(self)@.randoms,
    {
        self.config = Some(config);
    }

    /// Replacing the slot of `id` by one with the same id changes no other key's slot.
    proof fn lemma_same_ids_other_slots(old_slots: Seq<Slot>, new_slots: Seq<Slot>, i: int, id: Seq<char>)
        requires
            0 <= i < old_slots.len(),
            i == find(slot_ids(old_slots), id),
            new_slots == old_slots.update(i, new_slots[i]),
            slot_ids(new_slots) == slot_ids(old_slots),
        ensures
            forall|k: Seq<char>|
                #![trigger find(slot_ids(old_slots), k)]
                find(slot_ids(old_slots), k) >= 0 ==> find(slot_ids(old_slots), k) < old_slots.len()
                    && (k == id || new_slots[find(slot_ids(old_slots), k)] == old_slots[find(
                    slot_ids(old_slots),
                    k,
                )]),
    {
        assert forall|k: Seq<char>|
            #![trigger find(slot_ids(old_slots), k)]
            find(slot_ids(old_slots), k) >= 0 implies find(slot_ids(old_slots), k) < old_slots.len()
                && (k == id || new_slots[find(slot_ids(old_slots), k)] == old_slots[find(
                slot_ids(old_slots),
                k,
            )]) by {
            lemma_find_from_range(slot_ids(old_slots), k, 0);
            lemma_find_from_range(slot_ids(old_slots), id, 0);
        }
    }

    /// Record a pending job for `id`, opened by `requester`.
    pub fn insert_job(&mut self, id: String, requester: String)
        ensures
            final(self)@.config == old(self)@.config,
            final(self)@.jobs == old(self)@.jobs.insert(id@, requester@),
            final(self)@.randoms == old(self)@.randoms,
    {
        let ghost old_ids = slot_ids(self.slots@);
        match self.position(&id) {
            Some(i) => {
                let ghost old_slots = self.slots@;
                let slot = self.slots.remove(i);
                self.slots.insert(i, Slot { request_id: slot.request_id, job: Some(requester), random: slot.random });
                assert(self.slots@ =~= old_slots.update(i as int, self.slots@[i as int]));
                assert(slot_ids(self.slots@) =~= old_ids);
                proof { Self::lemma_same_ids_other_slots(old_slots, self.slots@, i as int, id@); }
            },
            None => {
                let ghost old_slots = self.slots@;
                self.slots.push(Slot { request_id: id, job: Some(requester), random: None });
                assert(slot_ids(self.slots@) =~= old_ids.push(id@));
                assert forall|k: Seq<char>| #![auto] find(slot_ids(self.slots@), k) == if find(old_ids, k) >= 0 {
                    find(old_ids, k)
                } else if k == id@ {
                    old_ids.len() as int
                } else {
                    -1
                } by {
                    lemma_find_from_push(old_ids, id@, k, 0);
                }
                assert forall|k: Seq<char>| find(old_ids, k) >= 0 implies #[trigger] self.slots@[find(old_ids, k)] == old_slots[find(old_ids, k)] by {
                    lemma_find_from_range(old_ids, k, 0);
                }
            },
        }
        assert(self@.jobs =~= old(self)@.jobs.insert(id@, requester@));
        assert(self@.randoms =~= old(self)@.randoms);
    }

    /// Record delivered randomness for `id`, as read back from storage.
    pub fn insert_random(&mut self, id: String, randomness: Vec<String>)
        ensures
            final(self)@.config == old(self)@.config,
            final(self)@.jobs == old(self)@.jobs,
            final(self)@.randoms == old(self)@.randoms.insert(id@, randomness@.map_values(|s: String| s@)),
    {
        let ghost old_ids = slot_ids(self.slots@);
        match self.position(&id) {
            Some(i) => {
                let ghost old_slots = self.slots@;
                let slot = self.slots.remove(i);
                self.slots.insert(i, Slot { request_id: slot.request_id, job: slot.job, random: Some(randomness) });
                assert(self.slots@ =~= old_slots.update(i as int, self.slots@[i as int]));
                assert(slot_ids(self.slots@) =~= old_ids);
                proof { Self::lemma_same_ids_other_slots(old_slots, self.slots@, i as int, id@); }
            },
            None => {
                let ghost old_slots = self.slots@;
                self.slots.push(Slot { request_id: id, job: None, random: Some(randomness) });
                assert(slot_ids(self.slots@) =~= old_ids.push(id@));
                assert forall|k: Seq<char>| #![auto] find(slot_ids(self.slots@), k) == if find(old_ids, k) >= 0 {
                    find(old_ids, k)
                } else if k == id@ {
                    old_ids.len() as int
                } else {
                    -1
                } by {
                    lemma_find_from_push(old_ids, id@, k, 0);
                }
                assert forall|k: Seq<char>| find(old_ids, k) >= 0 implies #[trigger] self.slots@[find(old_ids, k)] == old_slots[find(old_ids, k)] by {
                    lemma_find_from_range(old_ids, k, 0);
                }
            },
        }
        assert(self@.jobs =~= old(self)@.jobs);
        assert(self@.randoms =~= old(self)@.randoms.insert(id@, randomness@.map_values(|s: String| s@)));
    }

    /// Record the randomness for `id` and close its pending job.
    pub fn resolve_job(&mut self, id: &String, randomness: Vec<String>)
        requires
            old(self)@.jobs.contains_key(id@),
        ensures
            final(self)@.config == old(self)@.config,
            final(self)@.jobs == old(self)@.jobs.remove(id@),
            final(self)@.randoms == old(self)@.randoms.insert(id@, randomness@.map_values(|s: String| s@)),
    {
        let ghost old_ids = slot_ids(self.slots@);
        match self.position(id) {
            Some(i) => {
                let ghost old_slots = self.slots@;
                let slot = self.slots.remove(i);
                self.slots.insert(i, Slot { request_id: slot.request_id, job: None, random: Some(randomness) });
                assert(self.slots@ =~= old_slots.update(i as int, self.slots@[i as int]));
                assert(slot_ids(self.slots@) =~= old_ids);
                proof { Self::lemma_same_ids_other_slots(old_slots, self.slots@, i as int, id@); }
            },
            None => {},
        }
        assert(self@.jobs =~= old(self)@.jobs.remove(id@));
        assert(self@.randoms =~= old(self)@.randoms.insert(id@, randomness@.map_values(|s: String| s@)));
    }

    /// Position of the slot for `id`.
    fn position(&self, id: &String) -> (r: Option<usize>)
        ensures
            match r {
                Some(i) => i == find(slot_ids(self.slots@), id@) && i < self.slots@.len(),
                None => find(slot_ids(self.slots@), id@) == -1,
            },
    {
        let ghost ids = slot_ids(self.slots@);
        let mut i: usize = 0;
        while i < self.slots.len()
            invariant
                i <= self.slots@.len(),
                ids == slot_ids(self.slots@),
                find(ids, id@) == find_from(ids, id@, i as int),
            decreases self.slots@.len() - i,
        {
            if self.slots[i].request_id == *id {
                return Some(i);
            }
            i = i + 1;
        }
        None
    }
}

} // verus!
