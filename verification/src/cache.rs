//! Cache-aside storage: the keys under which records are cached, how long
//! they live, what counts as a hit, and a key-value store held in memory that
//! keeps the read, write and invalidate contract.
//!
//! The document store stays the system of record. A cached value is a shadow
//! copy that lapses after its time to live or is deleted when its record is
//! written.

use crate::ids::DocumentId;
use crate::names::{lemma_name_set_push, name_set_of};
use crate::store::StoreRead;
use crate::text::{join2, views_of};
use vstd::prelude::*;

verus! {

/// Seconds that a cached product lives.
pub const PRODUCT_TTL_SECONDS: u64 = 300;

/// Seconds that a cached user profile lives.
pub const PROFILE_TTL_SECONDS: u64 = 3600;

/// Seconds that cached reference data lives.
pub const REFERENCE_TTL_SECONDS: u64 = 86400;

/// The key of a product by its identifier in the document store.
pub fn product_id_cache_key(id: &DocumentId) -> (key: String)
    ensures
        key@ == "product:id:"@ + id@,
{
    join2("product:id:", id.to_hex().as_str())
}

/// The key of a product by its barcode.
pub fn product_code_cache_key(code: &str) -> (key: String)
    ensures
        key@ == "product:code:"@ + code@,
{
    join2("product:code:", code)
}

/// The key of a user's profile.
pub fn profile_cache_key(user_id: &str) -> (key: String)
    ensures
        key@ == "profile:"@ + user_id@,
{
    join2("profile:", user_id)
}

/// The key of the list of common allergens.
pub fn allergens_cache_key() -> (key: String)
    ensures
        key@ == "allergens:list_v1"@,
{
    String::from_str("allergens:list_v1")
}

/// Every key under which a product may be cached: by identifier and by
/// barcode. All of them are deleted when the product is written.
pub fn product_cache_keys(id: &DocumentId, code: &str) -> (keys: Vec<String>)
    ensures
        views_of(keys@) == seq!["product:id:"@ + id@, "product:code:"@ + code@],
{
    let mut keys: Vec<String> = Vec::new();
    keys.push(product_id_cache_key(id));
    keys.push(product_code_cache_key(code));
    keys
}

/// A value to be cached.
#[derive(Debug)]
pub struct CacheEntry {
    pub key: String,
    pub serialized_value: String,
    pub ttl_seconds: u64,
}

/// What a key-value cache answered to a read.
#[derive(Debug)]
pub enum CacheReply {
    /// The key holds this value.
    Value(String),
    /// The key holds nothing.
    Absent,
    /// The cache could not be asked; the text says why.
    Failed(String),
}

/// The text that is worth decoding in a cache's answer: a value that is not
/// empty. Everything else is a miss.
pub open spec fn payload_of(reply: CacheReply) -> Option<Seq<char>> {
    match reply {
        CacheReply::Value(s) => if s@.len() > 0 {
            Some(s@)
        } else {
            None
        },
        _ => None,
    }
}

/// The text to decode, if the cache's answer holds one. An empty value, an
/// absent key and a failure of the cache are misses, never errors.
pub fn usable_payload(reply: CacheReply) -> (payload: Option<String>)
    ensures
        payload is Some <==> payload_of(reply) is Some,
        payload matches Some(s) ==> payload_of(reply) == Some(s@),
{
    match reply {
        CacheReply::Value(s) => {
            if s.as_str().is_empty() {
                None
            } else {
                Some(s)
            }
        },
        _ => None,
    }
}

/// The entry to write to the cache after a record was read from the
/// document store. A record that could not be serialized is not cached: the
/// read succeeds all the same.
pub fn write_back(key: String, serialized: Option<String>, ttl_seconds: u64) -> (entry: Option<
    CacheEntry,
>)
    ensures
        match serialized {
            Some(text) => entry == Some(CacheEntry { key, serialized_value: text, ttl_seconds }),
            None => entry is None,
        },
{
    match serialized {
        Some(text) => Some(CacheEntry { key, serialized_value: text, ttl_seconds }),
        None => None,
    }
}

/// Where a record is cached, and for how long.
#[derive(Debug)]
pub struct CacheTarget {
    pub key: String,
    pub ttl_seconds: u64,
}

/// Where a read through the cache stands.
#[derive(Debug)]
pub enum ReadState {
    /// The cache was asked.
    AwaitingCache { target: CacheTarget },
    /// The cached text is being decoded.
    AwaitingDecoding { target: CacheTarget },
    /// The document store was asked.
    AwaitingStore { target: CacheTarget },
    /// The read is over.
    Finished,
}

/// What came back for the last step of a read through the cache.
#[derive(Debug)]
pub enum ReadEvent<T> {
    /// The request came in.
    Begin,
    /// The cache answered.
    Cache(CacheReply),
    /// The cached text was decoded, or could not be.
    Decoded(Option<T>),
    /// The document store answered with the record, or that there is none.
    Store(Option<T>),
    /// The document store could not be read; the text says why.
    StoreFailed(String),
}

/// What is to be done next for a read through the cache.
#[derive(Debug)]
pub enum ReadAction<T> {
    /// Ask the cache for the value under this key.
    AskCache { key: String },
    /// Decode this text into a record.
    Decode { payload: String },
    /// Ask the document store for the record.
    AskStore,
    /// Hand out the record. A record that came from the document store is
    /// written to the cache at `write_back`; a failure to do so is ignored.
    Serve { value: T, write_back: Option<CacheTarget> },
    /// There is no such record.
    NotFound,
    /// The document store could not be read; the text says why.
    Fail(String),
    /// The read was given an answer it did not wait for.
    OutOfStep,
}

/// What is to be done next for a request that reads one record through the
/// cache.
#[derive(Debug)]
pub enum LookupAction<T, E> {
    /// Ask the cache for the value under this key.
    AskCache { key: String },
    /// Decode this text into a record.
    Decode { payload: String },
    /// Ask the document store for the record.
    AskStore,
    /// Answer the request. A record that came from the document store is
    /// written to the cache at `write_back`; a failure to do so is ignored.
    Reply { result: Result<T, E>, write_back: Option<CacheTarget> },
}

/// What the document store answered to a read, as an event of a read through
/// the cache.
pub open spec fn store_event<T>(answer: StoreRead<T>) -> ReadEvent<T> {
    match answer {
        StoreRead::Found(record) => ReadEvent::Store(Some(record)),
        StoreRead::Missing => ReadEvent::Store(None),
        StoreRead::Failed(why) => ReadEvent::StoreFailed(why),
    }
}

/// The event that answers `action` where the cache holds `cache`, the cached
/// text decodes to `decoded` and the document store answers `store`.
pub open spec fn event_for<T, E>(
    action: LookupAction<T, E>,
    cache: CacheReply,
    decoded: Option<T>,
    store: StoreRead<T>,
) -> ReadEvent<T> {
    match action {
        LookupAction::AskCache { .. } => ReadEvent::Cache(cache),
        LookupAction::Decode { .. } => ReadEvent::Decoded(decoded),
        LookupAction::AskStore => store_event(store),
        LookupAction::Reply { .. } => ReadEvent::Begin,
    }
}

/// The first of four actions in a row that answers the request; the last of
/// them where none does.
pub open spec fn first_reply<T, E>(
    first: LookupAction<T, E>,
    second: LookupAction<T, E>,
    third: LookupAction<T, E>,
    fourth: LookupAction<T, E>,
) -> LookupAction<T, E> {
    if first is Reply {
        first
    } else if second is Reply {
        second
    } else if third is Reply {
        third
    } else {
        fourth
    }
}

/// Whether the cache served the record: it held a text that is not empty and
/// that could be decoded.
pub open spec fn served_by_cache<T>(cache: CacheReply, decoded: Option<T>) -> bool {
    payload_of(cache) is Some && decoded is Some
}

/// Whether the document store is among three actions in a row.
pub open spec fn asks_store<T, E>(
    first: LookupAction<T, E>,
    second: LookupAction<T, E>,
    third: LookupAction<T, E>,
) -> bool {
    first is AskStore || second is AskStore || third is AskStore
}

/// The first step of a read of the record cached under `key`: the cache is
/// asked.
pub fn begin_read<T>(key: String, ttl_seconds: u64) -> (first: (ReadState, ReadAction<T>))
    ensures
        first.0 matches ReadState::AwaitingCache { target } && target.key@ == key@
            && target.ttl_seconds == ttl_seconds,
        first.1 matches ReadAction::AskCache { key: k } && k@ == key@,
{
    let asked = key.clone();
    (
        ReadState::AwaitingCache { target: CacheTarget { key, ttl_seconds } },
        ReadAction::AskCache { key: asked },
    )
}

/// What the step of `state` leads to once `event` has come in.
///
/// A cached text that is not empty is decoded, and what it decodes to is
/// handed out. In every other case (nothing cached, an empty value, a failure
/// of the cache, a text that cannot be decoded) the document store is asked.
/// What the store holds is handed out and written back to the cache; what it
/// does not hold is not found; its failure fails the read. The cache never
/// fails a read. An answer that the step did not wait for ends the read.
pub fn advance_read<T>(state: ReadState, event: ReadEvent<T>) -> (next: (ReadState, ReadAction<T>))
    ensures
        match (state, event) {
            (ReadState::AwaitingCache { target }, ReadEvent::Cache(reply)) => match payload_of(
                reply,
            ) {
                Some(text) => {
                    &&& next.0 == ReadState::AwaitingDecoding { target }
                    &&& next.1 matches ReadAction::Decode { payload }
                    &&& payload@ == text
                },
                None => {
                    &&& next.0 == ReadState::AwaitingStore { target }
                    &&& next.1 is AskStore
                },
            },
            (ReadState::AwaitingDecoding { target }, ReadEvent::Decoded(decoded)) => match decoded {
                Some(value) => {
                    &&& next.0 is Finished
                    &&& next.1 == ReadAction::Serve { value, write_back: None }
                },
                None => {
                    &&& next.0 == ReadState::AwaitingStore { target }
                    &&& next.1 is AskStore
                },
            },
            (ReadState::AwaitingStore { target }, ReadEvent::Store(found)) => {
                &&& next.0 is Finished
                &&& match found {
                    Some(value) => next.1 == ReadAction::Serve { value, write_back: Some(target) },
                    None => next.1 is NotFound,
                }
            },
            (ReadState::AwaitingStore { target }, ReadEvent::StoreFailed(why)) => {
                &&& next.0 is Finished
                &&& next.1 == ReadAction::<T>::Fail(why)
            },
            _ => {
                &&& next.0 is Finished
                &&& next.1 is OutOfStep
            },
        },
{
    match state {
        ReadState::AwaitingCache { target } => match event {
            ReadEvent::Cache(reply) => match usable_payload(reply) {
                Some(payload) => (
                    ReadState::AwaitingDecoding { target },
                    ReadAction::Decode { payload },
                ),
                None => (ReadState::AwaitingStore { target }, ReadAction::AskStore),
            },
            _ => read_out_of_step(),
        },
        ReadState::AwaitingDecoding { target } => match event {
            ReadEvent::Decoded(Some(value)) => (
                ReadState::Finished,
                ReadAction::Serve { value, write_back: None },
            ),
            ReadEvent::Decoded(None) => (ReadState::AwaitingStore { target }, ReadAction::AskStore),
            _ => read_out_of_step(),
        },
        ReadState::AwaitingStore { target } => match event {
            ReadEvent::Store(Some(value)) => (
                ReadState::Finished,
                ReadAction::Serve { value, write_back: Some(target) },
            ),
            ReadEvent::Store(None) => (ReadState::Finished, ReadAction::NotFound),
            ReadEvent::StoreFailed(why) => (ReadState::Finished, ReadAction::Fail(why)),
            _ => read_out_of_step(),
        },
        ReadState::Finished => read_out_of_step(),
    }
}

/// The end of a read that was given an answer it did not wait for.
fn read_out_of_step<T>() -> (next: (ReadState, ReadAction<T>))
    ensures
        next.0 is Finished,
        next.1 is OutOfStep,
{
    (ReadState::Finished, ReadAction::OutOfStep)
}

/// What is stored under a key: the serialized value and the instant, in
/// seconds, at which it lapses.
pub struct StoredValue {
    pub value: Seq<char>,
    pub expires_at: int,
}

/// The contents of a key-value cache.
pub type CacheContents = Map<Seq<char>, StoredValue>;

/// What a read of `key` at the instant `now` returns: the value stored under
/// the key, unless it is empty or has lapsed.
pub open spec fn lookup(contents: CacheContents, key: Seq<char>, now: int) -> Option<Seq<char>> {
    if contents.dom().contains(key) && now < contents[key].expires_at && contents[key].value.len()
        > 0 {
        Some(contents[key].value)
    } else {
        None
    }
}

/// The instant at which a value written at `now` with `ttl_seconds` lapses.
pub open spec fn expiry(now: u64, ttl_seconds: u64) -> int {
    if now + ttl_seconds > u64::MAX {
        u64::MAX as int
    } else {
        now + ttl_seconds
    }
}

/// The contents after `value` was written under `key` at `now`.
pub open spec fn written(
    contents: CacheContents,
    key: Seq<char>,
    value: Seq<char>,
    ttl_seconds: u64,
    now: u64,
) -> CacheContents {
    contents.insert(key, StoredValue { value, expires_at: expiry(now, ttl_seconds) })
}

/// The contents after `keys` were deleted.
pub open spec fn invalidated(contents: CacheContents, keys: Set<Seq<char>>) -> CacheContents {
    contents.remove_keys(keys)
}

/// The keys that hold a value that has not lapsed at `now`.
pub open spec fn live_keys(contents: CacheContents, now: int) -> Set<Seq<char>> {
    Set::new(|key: Seq<char>| contents.dom().contains(key) && now < contents[key].expires_at)
}

/// Whether `reply` is what a cache with these contents answers to a read of
/// `key` at the instant `now`: the value under the key that is worth
/// decoding, where there is one.
pub open spec fn answers_from(
    contents: CacheContents,
    key: Seq<char>,
    now: int,
    reply: CacheReply,
) -> bool {
    payload_of(reply) == lookup(contents, key, now)
}

/// A read changes nothing, so a second read sees what the first one saw,
/// unless the value has lapsed in between: a miss stays a miss, and a hit is
/// either the same hit or, at or after the value's expiry, a miss.
pub proof fn law_repeated_read(contents: CacheContents, key: Seq<char>, first: int, second: int)
    requires
        first <= second,
    ensures
        lookup(contents, key, first) is None ==> lookup(contents, key, second) is None,
        lookup(contents, key, first) is Some ==> lookup(contents, key, second) == lookup(
            contents,
            key,
            first,
        ) || (lookup(contents, key, second) is None && second >= contents[key].expires_at),
        first == second ==> lookup(contents, key, second) == lookup(contents, key, first),
{
}

/// A value that is not empty is read back under its key from the instant at
/// which it was written until its time to live has passed.
pub proof fn law_read_your_write(
    contents: CacheContents,
    key: Seq<char>,
    value: Seq<char>,
    ttl_seconds: u64,
    written_at: u64,
    read_at: int,
)
    requires
        value.len() > 0,
        written_at <= read_at < expiry(written_at, ttl_seconds),
    ensures
        lookup(written(contents, key, value, ttl_seconds, written_at), key, read_at) == Some(value),
{
}

/// After keys were deleted, a read of any of them is a miss, at any instant.
pub proof fn law_invalidated_keys_miss(
    contents: CacheContents,
    keys: Set<Seq<char>>,
    key: Seq<char>,
    now: int,
)
    requires
        keys.contains(key),
    ensures
        lookup(invalidated(contents, keys), key, now) is None,
{
}

/// After a product was written and the keys under which it may be cached
/// were deleted, neither a read by its identifier nor a read by its barcode
/// is served from the cache.
pub proof fn law_written_product_misses(
    contents: CacheContents,
    id: Seq<char>,
    code: Seq<char>,
    now: int,
)
    ensures
        ({
            let keys = seq!["product:id:"@ + id, "product:code:"@ + code];
            let after = invalidated(contents, keys.to_set());
            &&& lookup(after, "product:id:"@ + id, now) is None
            &&& lookup(after, "product:code:"@ + code, now) is None
        }),
{
}

/// Writing or deleting under other keys leaves a read of `key` as it was.
pub proof fn law_other_keys_untouched(
    contents: CacheContents,
    key: Seq<char>,
    other: Seq<char>,
    value: Seq<char>,
    ttl_seconds: u64,
    written_at: u64,
    keys: Set<Seq<char>>,
    now: int,
)
    requires
        other != key,
        !keys.contains(key),
    ensures
        lookup(written(contents, other, value, ttl_seconds, written_at), key, now) == lookup(
            contents,
            key,
            now,
        ),
        lookup(invalidated(contents, keys), key, now) == lookup(contents, key, now),
{
}

/// One stored value.
struct Slot {
    key: String,
    value: String,
    expires_at: u64,
}

/// What a slot stores, as a mathematical value.
spec fn stored(slot: Slot) -> StoredValue {
    StoredValue { value: slot.value@, expires_at: slot.expires_at as int }
}

/// Whether some slot has the key.
spec fn holds_key(slots: Seq<Slot>, key: Seq<char>) -> bool {
    exists|i: int| 0 <= i < slots.len() && (#[trigger] slots[i]).key@ == key
}

/// The index of a slot with the key, where there is one.
spec fn slot_of(slots: Seq<Slot>, key: Seq<char>) -> int {
    choose|i: int| 0 <= i < slots.len() && (#[trigger] slots[i]).key@ == key
}

/// Whether no two slots have the same key.
spec fn distinct_keys(slots: Seq<Slot>) -> bool {
    forall|i: int, j: int|
        0 <= i < slots.len() && 0 <= j < slots.len() && i != j ==> (#[trigger] slots[i]).key@ != (
        #[trigger] slots[j]).key@
}

/// The contents that a list of slots stands for.
spec fn contents_of(slots: Seq<Slot>) -> CacheContents {
    Map::new(
        |key: Seq<char>| holds_key(slots, key),
        |key: Seq<char>| stored(slots[slot_of(slots, key)]),
    )
}

/// Under distinct keys, the contents hold each slot under its key.
proof fn lemma_slot(slots: Seq<Slot>, i: int)
    requires
        distinct_keys(slots),
        0 <= i < slots.len(),
    ensures
        contents_of(slots).dom().contains(slots[i].key@),
        contents_of(slots)[slots[i].key@] == stored(slots[i]),
{
}

/// A slot with a new key, appended, is an insertion into the contents.
proof fn lemma_push(slots: Seq<Slot>, slot: Slot)
    requires
        distinct_keys(slots),
        !holds_key(slots, slot.key@),
    ensures
        distinct_keys(slots.push(slot)),
        contents_of(slots.push(slot)) == contents_of(slots).insert(slot.key@, stored(slot)),
{
    let more = slots.push(slot);
    assert forall|i: int, j: int|
        0 <= i < more.len() && 0 <= j < more.len() && i != j implies (#[trigger] more[i]).key@ != (
    #[trigger] more[j]).key@ by {
    }
    let after = contents_of(slots).insert(slot.key@, stored(slot));
    assert forall|key: Seq<char>| contents_of(more).dom().contains(key) <==> after.dom().contains(
        key,
    ) by {
        if holds_key(slots, key) {
            let i = slot_of(slots, key);
            assert(more[i].key@ == key);
        }
        if key == slot.key@ {
            assert(more[slots.len() as int].key@ == key);
        }
    }
    assert forall|key: Seq<char>| contents_of(more).dom().contains(key) implies contents_of(
        more,
    )[key] == after[key] by {
        let i = slot_of(more, key);
        lemma_slot(more, i);
        if i < slots.len() {
            lemma_slot(slots, i);
        }
    }
}

/// A slot that takes the place of one with the same key is an insertion
/// into the contents.
proof fn lemma_update(slots: Seq<Slot>, i: int, slot: Slot)
    requires
        distinct_keys(slots),
        0 <= i < slots.len(),
        slots[i].key@ == slot.key@,
    ensures
        distinct_keys(slots.update(i, slot)),
        contents_of(slots.update(i, slot)) == contents_of(slots).insert(slot.key@, stored(slot)),
{
    let changed = slots.update(i, slot);
    assert forall|a: int, b: int|
        0 <= a < changed.len() && 0 <= b < changed.len() && a != b implies (
    #[trigger] changed[a]).key@ != (#[trigger] changed[b]).key@ by {
    }
    let after = contents_of(slots).insert(slot.key@, stored(slot));
    assert forall|key: Seq<char>| contents_of(changed).dom().contains(key) <==> after.dom().contains(
        key,
    ) by {
        if holds_key(slots, key) {
            let j = slot_of(slots, key);
            assert(changed[j].key@ == key);
        }
    }
    assert forall|key: Seq<char>| contents_of(changed).dom().contains(key) implies contents_of(
        changed,
    )[key] == after[key] by {
        let j = slot_of(changed, key);
        lemma_slot(changed, j);
        if j != i {
            lemma_slot(slots, j);
        }
    }
}

/// Taking a slot out removes its key from the contents.
proof fn lemma_remove(slots: Seq<Slot>, i: int)
    requires
        distinct_keys(slots),
        0 <= i < slots.len(),
    ensures
        distinct_keys(slots.remove(i)),
        contents_of(slots.remove(i)) == contents_of(slots).remove(slots[i].key@),
{
    let fewer = slots.remove(i);
    assert forall|a: int, b: int|
        0 <= a < fewer.len() && 0 <= b < fewer.len() && a != b implies (#[trigger] fewer[a]).key@
        != (#[trigger] fewer[b]).key@ by {
    }
    let after = contents_of(slots).remove(slots[i].key@);
    assert forall|key: Seq<char>| contents_of(fewer).dom().contains(key) <==> after.dom().contains(
        key,
    ) by {
        if holds_key(slots, key) && key != slots[i].key@ {
            let j = slot_of(slots, key);
            let j1 = if j < i {
                j
            } else {
                j - 1
            };
            assert(fewer[j1] == slots[j]);
        }
    }
    assert forall|key: Seq<char>| contents_of(fewer).dom().contains(key) implies contents_of(
        fewer,
    )[key] == after[key] by {
        let j = slot_of(fewer, key);
        lemma_slot(fewer, j);
        let j0 = if j < i {
            j
        } else {
            j + 1
        };
        lemma_slot(slots, j0);
    }
}

/// A key-value cache held in memory, with the contract of a cache-aside
/// store: values are read by key until they lapse, written with a time to
/// live, and deleted by key.
pub struct CacheAsideStore {
    slots: Vec<Slot>,
}

impl View for CacheAsideStore {
    type V = CacheContents;

    closed spec fn view(&self) -> CacheContents {
        contents_of(self.slots@)
    }
}

impl CacheAsideStore {
    /// No key is stored twice.
    #[verifier::type_invariant]
    pub closed spec fn wf(&self) -> bool {
        distinct_keys(self.slots@)
    }

    /// An empty cache.
    pub fn new() -> (store: Self)
        ensures
            store@ == Map::<Seq<char>, StoredValue>::empty(),
            store.wf(),
    {
        let store = CacheAsideStore { slots: Vec::new() };
        store
    }

    /// The index of the slot with `key`, if there is one.
    fn find(&self, key: &str) -> (found: Option<usize>)
        ensures
            found matches Some(i) ==> i < self.slots@.len() && self.slots@[i as int].key@ == key@,
            found is None ==> !holds_key(self.slots@, key@),
    {
        let probe = String::from_str(key);
        let mut i: usize = 0;
        while i < self.slots.len()
            invariant
                i <= self.slots@.len(),
                probe@ == key@,
                forall|j: int| 0 <= j < i ==> (#[trigger] self.slots@[j]).key@ != key@,
            decreases self.slots@.len() - i,
        {
            if self.slots[i].key == probe {
                return Some(i);
            }
            i = i + 1;
        }
        None
    }

    /// The value under `key` at the instant `now`. A key that holds nothing,
    /// an empty value and a value that has lapsed are misses.
    pub fn get(&self, key: &str, now: u64) -> (value: Option<String>)
        ensures
            value is Some <==> lookup(self@, key@, now as int) is Some,
            value matches Some(v) ==> lookup(self@, key@, now as int) == Some(v@),
    {
        proof {
            use_type_invariant(self);
        }
        match self.find(key) {
            Some(i) => {
                proof {
                    lemma_slot(self.slots@, i as int);
                }
                let slot = &self.slots[i];
                if now < slot.expires_at && !slot.value.as_str().is_empty() {
                    Some(slot.value.clone())
                } else {
                    None
                }
            },
            None => None,
        }
    }

    /// Stores `entry` at the instant `now`, in place of what its key held.
    pub fn put(&mut self, entry: CacheEntry, now: u64)
        ensures
            final(self)@ == written(
                old(self)@,
                entry.key@,
                entry.serialized_value@,
                entry.ttl_seconds,
                now,
            ),
            final(self).wf(),
    {
        proof {
            use_type_invariant(&*self);
        }
        let found = self.find(entry.key.as_str());
        let slot = Slot {
            key: entry.key,
            value: entry.serialized_value,
            expires_at: now.saturating_add(entry.ttl_seconds),
        };
        let mut slots: Vec<Slot> = Vec::new();
        std::mem::swap(&mut self.slots, &mut slots);
        match found {
            Some(i) => {
                proof {
                    lemma_update(slots@, i as int, slot);
                }
                slots.set(i, slot);
            },
            None => {
                proof {
                    lemma_push(slots@, slot);
                }
                slots.push(slot);
            },
        }
        self.slots = slots;
    }

    /// Deletes `keys` at the instant `now`. Returns how many of them held a
    /// value that had not lapsed.
    pub fn invalidate(&mut self, keys: &Vec<String>, now: u64) -> (count: usize)
        ensures
            final(self)@ == invalidated(old(self)@, name_set_of(keys@)),
            count == live_keys(old(self)@, now as int).intersect(name_set_of(keys@)).len(),
            final(self).wf(),
    {
        proof {
            use_type_invariant(&*self);
        }
        let ghost before = self@;
        let ghost live = live_keys(before, now as int);
        let mut slots: Vec<Slot> = Vec::new();
        std::mem::swap(&mut self.slots, &mut slots);
        let mut count: usize = 0;
        let mut i: usize = 0;
        proof {
            assert(keys@.take(0) =~= Seq::<String>::empty());
            crate::names::lemma_name_set_empty();
            assert(live.intersect(Set::<Seq<char>>::empty()) =~= Set::<Seq<char>>::empty());
        }
        while i < keys.len()
            invariant
                i <= keys@.len(),
                count <= i,
                distinct_keys(slots@),
                live == live_keys(before, now as int),
                contents_of(slots@) == before.remove_keys(name_set_of(keys@.take(i as int))),
                count == live.intersect(name_set_of(keys@.take(i as int))).len(),
            decreases keys@.len() - i,
        {
            let ghost deleted = name_set_of(keys@.take(i as int));
            let ghost key = keys@[i as int]@;
            proof {
                assert(keys@.take(i + 1) =~= keys@.take(i as int).push(keys@[i as int]));
                lemma_name_set_push(keys@.take(i as int), keys@[i as int]);
                broadcast use vstd::set::group_set_axioms;
                vstd::seq_lib::seq_to_set_is_finite(views_of(keys@.take(i as int)));
            }
            let probe = keys[i].clone();
            let mut j: usize = 0;
            let mut found: Option<usize> = None;
            while j < slots.len() && found.is_none()
                invariant
                    j <= slots@.len(),
                    probe@ == key,
                    found matches Some(f) ==> f < slots@.len() && slots@[f as int].key@ == key,
                    found is None ==> forall|k: int|
                        0 <= k < j ==> (#[trigger] slots@[k]).key@ != key,
                decreases slots@.len() - j + (if found is None { 1int } else { 0int }),
            {
                if slots[j].key == probe {
                    found = Some(j);
                } else {
                    j = j + 1;
                }
            }
            match found {
                Some(f) => {
                    proof {
                        lemma_slot(slots@, f as int);
                        lemma_remove(slots@, f as int);
                    }
                    let removed = slots.remove(f);
                    if now < removed.expires_at {
                        proof {
                            assert(live.intersect(deleted.insert(key)) =~= live.intersect(
                                deleted,
                            ).insert(key));
                        }
                        count = count + 1;
                    } else {
                        proof {
                            assert(live.intersect(deleted.insert(key)) =~= live.intersect(deleted));
                        }
                    }
                },
                None => {
                    proof {
                        assert(!contents_of(slots@).dom().contains(key));
                        if deleted.contains(key) {
                            assert(deleted.insert(key) =~= deleted);
                        } else {
                            assert(live.intersect(deleted.insert(key)) =~= live.intersect(deleted));
                        }
                    }
                },
            }
            i = i + 1;
        }
        assert(keys@.take(keys@.len() as int) =~= keys@);
        self.slots = slots;
        count
    }
}

} // verus!
