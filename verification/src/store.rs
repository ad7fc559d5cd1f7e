//! The proxy cache store: synthetic accounts that override chain state, a
//! cache in which every other key is filled at most once, and a record of
//! the keys that a replay touched.

use vstd::prelude::*;
use crate::hash::{keccak256, keccak256_of};
use crate::uint256::U256;

verus! {

/// A place in chain state: an account, or one storage slot of it.
#[derive(Clone, Copy, Debug, PartialEq, Eq)]
pub struct StateKey {
    pub address: [u8; 20],
    /// The slot, or `None` for the account itself.
    pub slot: Option<U256>,
}

impl View for StateKey {
    type V = (Seq<u8>, Option<U256>);

    open spec fn view(&self) -> (Seq<u8>, Option<U256>) {
        (self.address@, self.slot)
    }
}

/// What the chain holds of an account.
#[derive(Clone, Copy, Debug, PartialEq, Eq)]
pub struct AccountInfo {
    pub nonce: u64,
    pub balance: U256,
    pub code_hash: [u8; 32],
}

/// What is found at a key.
#[derive(Clone, Copy, Debug, PartialEq, Eq)]
pub enum StateValue {
    Account(AccountInfo),
    Word(U256),
}

/// The answer to a read.
#[derive(Clone, Copy, Debug, PartialEq, Eq)]
pub enum Lookup {
    /// The store holds the value.
    Found(StateValue),
    /// The store holds nothing: the value is to be fetched from the chain
    /// at the pinned block and handed to `fill`.
    Fetch,
}

/// The store as mathematical values.
pub struct StoreModel {
    /// The synthetic values.
    pub overrides: Map<(Seq<u8>, Option<U256>), StateValue>,
    /// The values fetched from the chain.
    pub cache: Map<(Seq<u8>, Option<U256>), StateValue>,
    /// The keys fetched from the chain, in the order of the fetches.
    pub fetched: Seq<(Seq<u8>, Option<U256>)>,
    /// The keys read or written.
    pub touched: Set<(Seq<u8>, Option<U256>)>,
}

impl StoreModel {
    /// The value at a key: the synthetic one if there is one, else the
    /// fetched one.
    pub open spec fn lookup(self, key: (Seq<u8>, Option<U256>)) -> Option<StateValue> {
        if self.overrides.contains_key(key) {
            Some(self.overrides[key])
        } else if self.cache.contains_key(key) {
            Some(self.cache[key])
        } else {
            None
        }
    }

    /// The store with a synthetic value at a key.
    pub open spec fn with_override(self, key: (Seq<u8>, Option<U256>), value: StateValue) -> StoreModel {
        StoreModel { overrides: self.overrides.insert(key, value), ..self }
    }

    /// The store with a key marked as touched.
    pub open spec fn touch(self, key: (Seq<u8>, Option<U256>)) -> StoreModel {
        StoreModel { touched: self.touched.insert(key), ..self }
    }

    /// The answer to a read of a key.
    pub open spec fn answer(self, key: (Seq<u8>, Option<U256>)) -> Lookup {
        match self.lookup(key) {
            Some(value) => Lookup::Found(value),
            None => Lookup::Fetch,
        }
    }

    /// The store after a fetched value is handed in: a key that already has
    /// a value keeps it, and no fetch is recorded.
    pub open spec fn fill(self, key: (Seq<u8>, Option<U256>), value: StateValue) -> StoreModel {
        if self.lookup(key) is Some {
            self
        } else {
            StoreModel {
                overrides: self.overrides,
                cache: self.cache.insert(key, value),
                fetched: self.fetched.push(key),
                touched: self.touched.insert(key),
            }
        }
    }

    /// Every cached key was fetched, exactly once, and is touched.
    pub open spec fn wf(self) -> bool {
        &&& self.fetched.no_duplicates()
        &&& forall|key: (Seq<u8>, Option<U256>)|
            self.cache.contains_key(key) <==> self.fetched.contains(key)
        &&& forall|key: (Seq<u8>, Option<U256>)|
            self.fetched.contains(key) ==> self.touched.contains(key)
    }

    /// How often a key was fetched.
    pub open spec fn fetch_count(self, key: (Seq<u8>, Option<U256>)) -> nat {
        occurrences(self.fetched, key)
    }
}

/// How often a key occurs in a sequence of keys.
pub open spec fn occurrences(keys: Seq<(Seq<u8>, Option<U256>)>, key: (Seq<u8>, Option<U256>)) -> nat
    decreases keys.len(),
{
    if keys.len() == 0 {
        0
    } else {
        occurrences(keys.drop_last(), key) + if keys.last() == key {
            1nat
        } else {
            0nat
        }
    }
}

/// The entries as a map; of two entries with one key, the later counts.
pub open spec fn entries_map(entries: Seq<(StateKey, StateValue)>) -> Map<
    (Seq<u8>, Option<U256>),
    StateValue,
>
    decreases entries.len(),
{
    if entries.len() == 0 {
        Map::empty()
    } else {
        entries_map(entries.drop_last()).insert(entries.last().0@, entries.last().1)
    }
}

/// The keys of the entries, in order.
pub open spec fn entries_keys(entries: Seq<(StateKey, StateValue)>) -> Seq<(Seq<u8>, Option<U256>)> {
    Seq::new(entries.len(), |i: int| entries[i].0@)
}

/// The keys as a set.
pub open spec fn keys_set(keys: Seq<StateKey>) -> Set<(Seq<u8>, Option<U256>)> {
    Set::new(|key: (Seq<u8>, Option<U256>)| exists|i: int| 0 <= i < keys.len() && keys[i]@ == key)
}

proof fn lemma_entries_map_last_match(
    entries: Seq<(StateKey, StateValue)>,
    key: (Seq<u8>, Option<U256>),
    at: int,
)
    requires
        0 <= at < entries.len(),
        entries[at].0@ == key,
        forall|j: int| at < j < entries.len() ==> entries[j].0@ != key,
    ensures
        entries_map(entries).contains_key(key),
        entries_map(entries)[key] == entries[at].1,
    decreases entries.len(),
{
    if at < entries.len() - 1 {
        lemma_entries_map_last_match(entries.drop_last(), key, at);
    }
}

proof fn lemma_entries_map_domain(entries: Seq<(StateKey, StateValue)>, key: (Seq<u8>, Option<U256>))
    ensures
        entries_map(entries).contains_key(key) <==> entries_keys(entries).contains(key),
    decreases entries.len(),
{
    let keys = entries_keys(entries);
    if entries.len() > 0 {
        let front = entries.drop_last();
        lemma_entries_map_domain(front, key);
        if entries_keys(front).contains(key) {
            let i = choose|i: int| 0 <= i < front.len() && entries_keys(front)[i] == key;
            assert(keys[i] == key);
        }
        if entries.last().0@ == key {
            assert(keys[entries.len() - 1] == key);
        }
        if keys.contains(key) {
            let i = choose|i: int| 0 <= i < keys.len() && keys[i] == key;
            if i < front.len() {
                assert(entries_keys(front)[i] == key);
            }
        }
    }
}

/// The proxy cache store of one witness-build session.
#[derive(Clone, Debug)]
pub struct ProxyStore {
    block_number: u64,
    overrides: Vec<(StateKey, StateValue)>,
    cache: Vec<(StateKey, StateValue)>,
    touched: Vec<StateKey>,
}

impl View for ProxyStore {
    type V = StoreModel;

    closed spec fn view(&self) -> StoreModel {
        StoreModel {
            overrides: entries_map(self.overrides@),
            cache: entries_map(self.cache@),
            fetched: entries_keys(self.cache@),
            touched: keys_set(self.touched@),
        }
    }
}

/// Whether two keys name the same place.
pub fn key_eq(a: &StateKey, b: &StateKey) -> (r: bool)
    ensures
        r == (a@ == b@),
{
    let mut i: usize = 0;
    while i < 20
        invariant
            i <= 20,
            forall|j: int| 0 <= j < i ==> a.address@[j] == b.address@[j],
        decreases 20 - i,
    {
        if a.address[i] != b.address[i] {
            return false;
        }
        i += 1;
    }
    assert(a.address@ =~= b.address@);
    match (a.slot, b.slot) {
        (None, None) => true,
        (Some(x), Some(y)) => x == y,
        _ => false,
    }
}

/// Appends a key to a list of keys.
fn push_key(keys: &mut Vec<StateKey>, key: StateKey)
    ensures
        final(keys)@ == old(keys)@.push(key),
        keys_set(final(keys)@) == keys_set(old(keys)@).insert(key@),
{
    keys.push(key);
    proof {
        let before = old(keys)@;
        let after = keys@;
        assert forall|k: (Seq<u8>, Option<U256>)|
            keys_set(after).contains(k) <==> keys_set(before).insert(key@).contains(k) by {
            if keys_set(before).contains(k) {
                let i = choose|i: int| 0 <= i < before.len() && before[i]@ == k;
                assert(after[i]@ == k);
            }
            if k == key@ {
                assert(after[after.len() - 1]@ == k);
            }
            if keys_set(after).contains(k) {
                let i = choose|i: int| 0 <= i < after.len() && after[i]@ == k;
                if i < before.len() {
                    assert(before[i]@ == k);
                }
            }
        }
        assert(keys_set(after) =~= keys_set(before).insert(key@));
    }
}

/// The value of the last entry with the given key.
fn find_entry(entries: &Vec<(StateKey, StateValue)>, key: &StateKey) -> (r: Option<StateValue>)
    ensures
        r is Some <==> entries_map(entries@).contains_key(key@),
        r is Some ==> r->Some_0 == entries_map(entries@)[key@],
{
    let mut i: usize = entries.len();
    while i > 0
        invariant
            i <= entries@.len(),
            forall|j: int| i <= j < entries@.len() ==> entries@[j].0@ != key@,
        decreases i,
    {
        i -= 1;
        if key_eq(&entries[i].0, key) {
            proof {
                lemma_entries_map_last_match(entries@, key@, i as int);
            }
            return Some(entries[i].1);
        }
    }
    proof {
        lemma_entries_map_domain(entries@, key@);
        if entries_keys(entries@).contains(key@) {
            let j = choose|j: int| 0 <= j < entries@.len() && entries_keys(entries@)[j] == key@;
            assert(entries@[j].0@ == key@);
        }
    }
    None
}

impl ProxyStore {
    /// The invariant of the store.
    pub open spec fn wf(&self) -> bool {
        self@.wf()
    }

    /// The block at which chain state is read.
    pub closed spec fn pinned_block(&self) -> u64 {
        self.block_number
    }

    /// An empty store that reads chain state at the given block.
    pub fn new(block_number: u64) -> (store: ProxyStore)
        ensures
            store.wf(),
            store.pinned_block() == block_number,
            store@.overrides == Map::<(Seq<u8>, Option<U256>), StateValue>::empty(),
            store@.cache == Map::<(Seq<u8>, Option<U256>), StateValue>::empty(),
            store@.fetched == Seq::<(Seq<u8>, Option<U256>)>::empty(),
            store@.touched == Set::<(Seq<u8>, Option<U256>)>::empty(),
    {
        let store = ProxyStore {
            block_number,
            overrides: Vec::new(),
            cache: Vec::new(),
            touched: Vec::new(),
        };
        assert(store@.fetched =~= Seq::<(Seq<u8>, Option<U256>)>::empty());
        assert(store@.touched =~= Set::<(Seq<u8>, Option<U256>)>::empty());
        store
    }

    /// The block at which chain state is read.
    pub fn block_number(&self) -> (n: u64)
        ensures
            n == self.pinned_block(),
    {
        self.block_number
    }

    /// Puts a synthetic value at a key. It takes precedence over whatever
    /// the chain holds there.
    pub fn insert_override(&mut self, key: StateKey, value: StateValue)
        requires
            old(self).wf(),
        ensures
            final(self).wf(),
            final(self).pinned_block() == old(self).pinned_block(),
            final(self)@ == old(self)@.with_override(key@, value),
    {
        self.overrides.push((key, value));
        assert(self.overrides@.drop_last() =~= old(self).overrides@);
    }

    /// Marks a key as touched.
    pub fn touch(&mut self, key: StateKey)
        requires
            old(self).wf(),
        ensures
            final(self).wf(),
            final(self).pinned_block() == old(self).pinned_block(),
            final(self)@ == old(self)@.touch(key@),
    {
        push_key(&mut self.touched, key);
    }

    /// Reads a key: the synthetic value if there is one, else the cached
    /// one, else the request to fetch it. The key counts as touched from
    /// now on.
    pub fn read(&mut self, key: StateKey) -> (r: Lookup)
        requires
            old(self).wf(),
        ensures
            final(self).wf(),
            final(self).pinned_block() == old(self).pinned_block(),
            final(self)@ == old(self)@.touch(key@),
            r == old(self)@.answer(key@),
    {
        push_key(&mut self.touched, key);
        match find_entry(&self.overrides, &key) {
            Some(value) => Lookup::Found(value),
            None => match find_entry(&self.cache, &key) {
                Some(value) => Lookup::Found(value),
                None => Lookup::Fetch,
            },
        }
    }

    /// Hands in the value that was fetched for a key. Returns whether it
    /// was taken: a key that already has a value keeps it.
    pub fn fill(&mut self, key: StateKey, value: StateValue) -> (taken: bool)
        requires
            old(self).wf(),
        ensures
            final(self).wf(),
            final(self).pinned_block() == old(self).pinned_block(),
            final(self)@ == old(self)@.fill(key@, value),
            taken == (old(self)@.lookup(key@) is None),
    {
        if find_entry(&self.overrides, &key).is_some() {
            return false;
        }
        if find_entry(&self.cache, &key).is_some() {
            return false;
        }
        push_key(&mut self.touched, key);
        self.cache.push((key, value));
        proof {
            let before = old(self).cache@;
            let after = self.cache@;
            assert(after.drop_last() =~= before);
            assert(entries_keys(after) =~= entries_keys(before).push(key@));
            lemma_entries_map_domain(before, key@);
            lemma_fill_keeps_wf(old(self)@, key@, value);
        }
        true
    }

    /// How many values were fetched from the chain.
    pub fn fetches(&self) -> (n: usize)
        ensures
            n == self@.fetched.len(),
    {
        self.cache.len()
    }

    /// The keys that were touched, each once: what compaction emits.
    pub fn touched_keys(&self) -> (keys: Vec<StateKey>)
        ensures
            keys_set(keys@) == self@.touched,
            forall|i: int, j: int| 0 <= i < j < keys@.len() ==> keys@[i]@ != keys@[j]@,
    {
        let mut keys: Vec<StateKey> = Vec::new();
        let mut i: usize = 0;
        while i < self.touched.len()
            invariant
                i <= self.touched@.len(),
                keys_set(keys@) == keys_set(self.touched@.subrange(0, i as int)),
                forall|a: int, b: int| 0 <= a < b < keys@.len() ==> keys@[a]@ != keys@[b]@,
            decreases self.touched@.len() - i,
        {
            let key = self.touched[i];
            let ghost before = keys@;
            let ghost seen = self.touched@.subrange(0, i as int);
            let ghost seen_next = self.touched@.subrange(0, i + 1);
            let mut known = false;
            let mut j: usize = 0;
            while j < keys.len()
                invariant
                    j <= keys@.len(),
                    known == (exists|m: int| 0 <= m < j && keys@[m]@ == key@),
                decreases keys@.len() - j,
            {
                if key_eq(&keys[j], &key) {
                    known = true;
                }
                j += 1;
            }
            if !known {
                keys.push(key);
            }
            proof {
                let after = keys@;
                assert forall|k: (Seq<u8>, Option<U256>)|
                    keys_set(after).contains(k) <==> keys_set(seen_next).contains(k) by {
                    if keys_set(after).contains(k) {
                        let m = choose|m: int| 0 <= m < after.len() && after[m]@ == k;
                        if m < before.len() {
                            assert(before[m]@ == k);
                            assert(keys_set(before).contains(k));
                            let n = choose|n: int| 0 <= n < seen.len() && seen[n]@ == k;
                            assert(seen_next[n]@ == k);
                        } else {
                            assert(seen_next[i as int]@ == k);
                        }
                    }
                    if keys_set(seen_next).contains(k) {
                        let n = choose|n: int| 0 <= n < seen_next.len() && seen_next[n]@ == k;
                        if n < i {
                            assert(seen[n]@ == k);
                            assert(keys_set(seen).contains(k));
                            let m = choose|m: int| 0 <= m < before.len() && before[m]@ == k;
                            assert(after[m]@ == k);
                        } else if known {
                            let m = choose|m: int| 0 <= m < before.len() && before[m]@ == key@;
                            assert(after[m]@ == k);
                        } else {
                            assert(after[after.len() - 1]@ == k);
                        }
                    }
                }
                assert(keys_set(after) =~= keys_set(seen_next));
            }
            i += 1;
        }
        assert(self.touched@.subrange(0, i as int) =~= self.touched@);
        keys
    }
}

/// The hash of empty code: Keccak-256 of no bytes.
pub fn empty_code_hash() -> (hash: [u8; 32])
    ensures
        hash@ == empty_code_hash_bytes(),
{
    let hash: [u8; 32] = [
        0xc5, 0xd2, 0x46, 0x01, 0x86, 0xf7, 0x23, 0x3c, 0x92, 0x7e, 0x7d, 0xb2, 0xdc, 0xc7, 0x03,
        0xc0, 0xe5, 0x00, 0xb6, 0x53, 0xca, 0x82, 0x27, 0x3b, 0x7b, 0xfa, 0xd8, 0x04, 0x5d, 0x85,
        0xa4, 0x70,
    ];
    assert(hash@ =~= empty_code_hash_bytes());
    hash
}

/// The hash of empty code, byte by byte.
pub open spec fn empty_code_hash_bytes() -> Seq<u8> {
    seq![
        0xc5u8, 0xd2, 0x46, 0x01, 0x86, 0xf7, 0x23, 0x3c, 0x92, 0x7e, 0x7d, 0xb2, 0xdc, 0xc7, 0x03,
        0xc0, 0xe5, 0x00, 0xb6, 0x53, 0xca, 0x82, 0x27, 0x3b, 0x7b, 0xfa, 0xd8, 0x04, 0x5d, 0x85,
        0xa4, 0x70,
    ]
}

/// Whether a value is the account of the contract under test: nonce 1,
/// the given balance and the Keccak-256 hash of its code.
pub open spec fn is_contract_account(value: StateValue, code: Seq<u8>, initial_balance: U256) -> bool {
    &&& value is Account
    &&& value->Account_0.nonce == 1
    &&& value->Account_0.balance == initial_balance
    &&& value->Account_0.code_hash@ == keccak256_of(code)
}

/// Whether a value is the account of the caller: nonce 1, no balance, no
/// code.
pub open spec fn is_caller_account(value: StateValue) -> bool {
    &&& value is Account
    &&& value->Account_0.nonce == 1
    &&& value->Account_0.balance == (U256 { w0: 0, w1: 0, w2: 0, w3: 0 })
    &&& value->Account_0.code_hash@ == empty_code_hash_bytes()
}

/// Puts the two synthetic accounts of a replay into the store: first the
/// contract under test, with the hash of its code and funded with
/// `initial_balance`, then the caller. Returns the two accounts as they
/// were stored, the contract's first.
pub fn seed_overrides(
    store: &mut ProxyStore,
    caller: [u8; 20],
    target: [u8; 20],
    code: &Vec<u8>,
    initial_balance: U256,
) -> (accounts: (StateValue, StateValue))
    requires
        old(store).wf(),
    ensures
        final(store).wf(),
        final(store).pinned_block() == old(store).pinned_block(),
        is_contract_account(accounts.0, code@, initial_balance),
        is_caller_account(accounts.1),
        final(store)@ == old(store)@.with_override((target@, None), accounts.0).with_override(
            (caller@, None),
            accounts.1,
        ),
{
    let code_hash = keccak256(code.as_slice());
    let contract = StateValue::Account(
        AccountInfo { nonce: 1, balance: initial_balance, code_hash },
    );
    let caller_account = StateValue::Account(
        AccountInfo { nonce: 1, balance: U256::zero(), code_hash: empty_code_hash() },
    );
    store.insert_override(StateKey { address: target, slot: None }, contract);
    store.insert_override(StateKey { address: caller, slot: None }, caller_account);
    (contract, caller_account)
}

/// Filling keeps the store well-formed.
pub proof fn lemma_fill_keeps_wf(m: StoreModel, key: (Seq<u8>, Option<U256>), value: StateValue)
    requires
        m.wf(),
    ensures
        m.fill(key, value).wf(),
{
    let after = m.fill(key, value);
    if m.lookup(key) is None {
        assert(!m.fetched.contains(key));
        assert forall|k: (Seq<u8>, Option<U256>)|
            after.cache.contains_key(k) <==> after.fetched.contains(k) by {
            if m.fetched.contains(k) {
                let i = choose|i: int| 0 <= i < m.fetched.len() && m.fetched[i] == k;
                assert(after.fetched[i] == k);
            }
            if k == key {
                assert(after.fetched[m.fetched.len() as int] == k);
            }
        }
    }
}

/// A synthetic value takes precedence: whatever the chain holds at the
/// key, and whatever is fetched for it later, a read returns the synthetic
/// value and nothing is fetched.
pub proof fn lemma_override_takes_precedence(
    m: StoreModel,
    key: (Seq<u8>, Option<U256>),
    synthetic: StateValue,
    fetched: StateValue,
)
    ensures
        m.with_override(key, synthetic).answer(key) == Lookup::Found(synthetic),
        m.with_override(key, synthetic).fill(key, fetched) == m.with_override(key, synthetic),
{
}

/// A value that the store holds never changes: neither a read nor a fill
/// of any key, nor a touch, alters what a later read of the key returns.
pub proof fn lemma_value_never_changes(
    m: StoreModel,
    key: (Seq<u8>, Option<U256>),
    other: (Seq<u8>, Option<U256>),
    fetched: StateValue,
)
    requires
        m.lookup(key) is Some,
    ensures
        m.touch(other).answer(key) == m.answer(key),
        m.fill(other, fetched).answer(key) == m.answer(key),
{
}

/// Two reads of one key give the same answer once the first fetch is
/// handed in, and the key is fetched exactly once however often it is
/// filled again.
pub proof fn lemma_read_twice_fetch_once(
    m: StoreModel,
    key: (Seq<u8>, Option<U256>),
    first: StateValue,
    second: StateValue,
)
    requires
        m.wf(),
        m.lookup(key) is None,
    ensures
        m.touch(key).answer(key) == Lookup::Fetch,
        m.touch(key).fill(key, first).answer(key) == Lookup::Found(first),
        m.touch(key).fill(key, first).touch(key).answer(key) == Lookup::Found(first),
        m.touch(key).fill(key, first).fill(key, second) == m.touch(key).fill(key, first),
        m.touch(key).fill(key, first).fetch_count(key) == 1,
        m.touch(key).fill(key, first).wf(),
{
    let filled = m.touch(key).fill(key, first);
    lemma_fill_keeps_wf(m.touch(key), key, first);
    assert(filled.fetched[m.fetched.len() as int] == key);
    lemma_one_occurrence(filled.fetched, key);
}

/// What a replay does to the store.
pub enum StoreOp {
    /// It reads a key.
    Read((Seq<u8>, Option<U256>)),
    /// It hands in the value that was fetched for a key.
    Fill((Seq<u8>, Option<U256>), StateValue),
    /// It marks a key as written.
    Touch((Seq<u8>, Option<U256>)),
}

/// The store after one operation of a replay.
pub open spec fn after_op(m: StoreModel, op: StoreOp) -> StoreModel {
    match op {
        StoreOp::Read(key) => m.touch(key),
        StoreOp::Fill(key, value) => m.fill(key, value),
        StoreOp::Touch(key) => m.touch(key),
    }
}

/// The store after the operations of a replay, taken in order.
pub open spec fn after_ops(m: StoreModel, ops: Seq<StoreOp>) -> StoreModel
    decreases ops.len(),
{
    if ops.len() == 0 {
        m
    } else {
        after_ops(after_op(m, ops[0]), ops.drop_first())
    }
}

/// Within one session, whatever the replay reads, fills and touches after
/// a key has got its value: every later read of the key gives that value,
/// and the key has been fetched as often as before, which is once for a
/// fetched key and never for a synthetic one.
pub proof fn lemma_session_reads_agree(m: StoreModel, key: (Seq<u8>, Option<U256>), ops: Seq<StoreOp>)
    requires
        m.wf(),
        m.lookup(key) is Some,
    ensures
        after_ops(m, ops).wf(),
        after_ops(m, ops).answer(key) == m.answer(key),
        after_ops(m, ops).fetch_count(key) == m.fetch_count(key),
        m.fetch_count(key) == (if m.cache.contains_key(key) {
            1nat
        } else {
            0nat
        }),
    decreases ops.len(),
{
    lemma_one_occurrence(m.fetched, key);
    if ops.len() > 0 {
        let next = after_op(m, ops[0]);
        match ops[0] {
            StoreOp::Fill(other, value) => {
                lemma_fill_keeps_wf(m, other, value);
                if m.lookup(other) is None {
                    assert(other != key);
                    assert(next.fetched.drop_last() =~= m.fetched);
                    assert(next.fetched.last() == other);
                }
            },
            _ => {},
        }
        lemma_session_reads_agree(next, key, ops.drop_first());
    }
}

/// A key that occurs in a sequence without duplicates occurs once.
pub proof fn lemma_one_occurrence(keys: Seq<(Seq<u8>, Option<U256>)>, key: (Seq<u8>, Option<U256>))
    requires
        keys.no_duplicates(),
    ensures
        occurrences(keys, key) == (if keys.contains(key) {
            1nat
        } else {
            0nat
        }),
    decreases keys.len(),
{
    if keys.len() > 0 {
        let front = keys.drop_last();
        lemma_one_occurrence(front, key);
        if front.contains(key) {
            let i = choose|i: int| 0 <= i < front.len() && front[i] == key;
            assert(keys[i] == key);
            assert(keys.last() != key);
        }
        if keys.contains(key) && !front.contains(key) {
            let i = choose|i: int| 0 <= i < keys.len() && keys[i] == key;
            if i < front.len() {
                assert(front[i] == key);
            }
        }
        if keys.last() == key {
            assert(keys[keys.len() - 1] == key);
        }
    }
}

} // verus!
