//! Where data keys, public keys, sealed logs and envelopes are kept, and the in-memory stores.
use vstd::prelude::*;

use std::collections::HashMap;

use crate::app_support::key_schedule::{key_id_for_timestamp, timestamp_key_id};
use crate::domain::Timestamp;
use crate::domain::data_key::{DataKey, DataKeyView};
use crate::domain::encrypted_log::{EncryptedLogData, EncryptedLogDataView};
use crate::domain::key_envelope::{KeyEnvelope, KeyEnvelopeView, OwnerType};
use crate::domain::timestamp::current_time;

verus! {

broadcast use vstd::std_specs::hash::group_hash_axioms;

/// Why a store could not be read or written: a description of the failure.
pub type RepositoryError = String;

/// Stores data keys by key id.
pub trait DataKeyRepository {
    /// The stored data keys, by key id.
    spec fn stored_data_keys(&self) -> Map<Seq<char>, DataKeyView>;

    /// Whether every read and write of this store succeeds. A store that does not say so
    /// may fail any of them.
    open spec fn never_fails(&self) -> bool {
        false
    }

    /// Stores `data_key` under its key id, replacing any key stored under that id.
    fn store_data_key(&mut self, data_key: &DataKey) -> (r: Result<(), RepositoryError>)
        ensures
            r is Ok ==> final(self).stored_data_keys() == old(self).stored_data_keys().insert(data_key.key_id@, data_key@),
            old(self).never_fails() ==> r is Ok && final(self).never_fails(),
    ;

    /// The data key stored under `key_id`, if any; it has that id.
    fn get_data_key_by_id(&self, key_id: &str) -> (r: Result<Option<DataKey>, RepositoryError>)
        ensures
            r matches Ok(found) ==> match found {
                Some(key) => self.stored_data_keys().contains_key(key_id@) && self.stored_data_keys()[key_id@] == key@
                    && key@.key_id == key_id@,
                None => !self.stored_data_keys().contains_key(key_id@),
            },
            self.never_fails() ==> r is Ok,
    ;

    /// The data key of the current day, if one is stored: the key stored under the key id of
    /// the day of the moment the store was read.
    fn get_todays_data_key(&self) -> (r: Result<Option<DataKey>, RepositoryError>)
        ensures
            r matches Ok(found) ==> exists|now: Timestamp| #![trigger timestamp_key_id(now)] match found {
                Some(key) => self.stored_data_keys().contains_key(timestamp_key_id(now))
                    && self.stored_data_keys()[timestamp_key_id(now)] == key@
                    && key@.key_id == timestamp_key_id(now),
                None => !self.stored_data_keys().contains_key(timestamp_key_id(now)),
            },
            self.never_fails() ==> r is Ok,
    ;
}

/// Stores the public keys of users and guardians.
pub trait KeyRepository {
    /// The stored public keys, by owner.
    spec fn stored_public_keys(&self) -> Map<(u64, OwnerType), Seq<u8>>;

    /// Stores the public key of an owner, replacing any earlier one.
    fn store_public_key(&mut self, owner_id: u64, owner_type: OwnerType, public_key: Vec<u8>) -> (r: Result<(), RepositoryError>)
        ensures
            r is Ok ==> final(self).stored_public_keys() == old(self).stored_public_keys().insert((owner_id, owner_type), public_key@),
    ;

    /// The public key of an owner, if one is stored.
    fn get_public_key(&self, owner_id: u64, owner_type: OwnerType) -> (r: Result<Option<Vec<u8>>, RepositoryError>)
        ensures
            r matches Ok(found) ==> match found {
                Some(key) => self.stored_public_keys().contains_key((owner_id, owner_type))
                    && self.stored_public_keys()[(owner_id, owner_type)] == key@,
                None => !self.stored_public_keys().contains_key((owner_id, owner_type)),
            },
    ;
}

/// Stores sealed logs by id.
pub trait EncryptedLogRepository {
    /// The stored logs, by id.
    spec fn stored_logs(&self) -> Map<u64, EncryptedLogDataView>;

    /// Stores a sealed log under its id, replacing any log stored under that id.
    fn store_encrypted_log(&mut self, encrypted_log: &EncryptedLogData) -> (r: Result<(), RepositoryError>)
        ensures
            r is Ok ==> final(self).stored_logs() == old(self).stored_logs().insert(encrypted_log.encrypted_log_id, encrypted_log@),
    ;

    /// The sealed log stored under `encrypted_log_id`, if any.
    fn get_encrypted_log_by_id(&self, encrypted_log_id: u64) -> (r: Result<Option<EncryptedLogData>, RepositoryError>)
        ensures
            r matches Ok(found) ==> match found {
                Some(log) => self.stored_logs().contains_key(encrypted_log_id) && self.stored_logs()[encrypted_log_id] == log@,
                None => !self.stored_logs().contains_key(encrypted_log_id),
            },
    ;
}

/// Whether `found` lists exactly the stored envelopes that satisfy `wanted`, each once.
pub open spec fn lists_envelopes(found: Seq<KeyEnvelopeView>, stored: Map<u64, KeyEnvelopeView>, wanted: spec_fn(KeyEnvelopeView) -> bool) -> bool {
    exists|ids: Seq<u64>| {
        &&& ids.no_duplicates()
        &&& forall|id: u64| ids.contains(id) <==> (stored.contains_key(id) && wanted(#[trigger] stored[id]))
        &&& found.len() == ids.len()
        &&& forall|i: int| 0 <= i < ids.len() ==> found[i] == stored[#[trigger] ids[i]]
    }
}

/// Stores envelopes by envelope id.
pub trait KeyEnvelopeRepository {
    /// The stored envelopes, by envelope id.
    spec fn stored_envelopes(&self) -> Map<u64, KeyEnvelopeView>;

    /// Stores an envelope under its id, replacing any envelope stored under that id.
    fn store_key_envelope(&mut self, envelope: &KeyEnvelope) -> (r: Result<(), RepositoryError>)
        ensures
            r is Ok ==> final(self).stored_envelopes() == old(self).stored_envelopes().insert(envelope.envelope_id, envelope@),
    ;

    /// The stored envelopes that carry the data key `key_id`, in no particular order.
    fn get_envelopes_by_key_id(&self, key_id: &str) -> (r: Result<Vec<KeyEnvelope>, RepositoryError>)
        ensures
            r matches Ok(found) ==> lists_envelopes(found@.map_values(|e: KeyEnvelope| e@), self.stored_envelopes(),
                |e: KeyEnvelopeView| e.key_id == key_id@),
    ;

    /// The stored envelopes addressed to `owner_id`, in no particular order.
    fn get_envelopes_by_owner_id(&self, owner_id: u64) -> (r: Result<Vec<KeyEnvelope>, RepositoryError>)
        ensures
            r matches Ok(found) ==> lists_envelopes(found@.map_values(|e: KeyEnvelope| e@), self.stored_envelopes(),
                |e: KeyEnvelopeView| e.owner_id == owner_id),
    ;
}

/// The key-id map that a list of stores builds: each store replaces the entry of its key id.
pub open spec fn data_key_map(entries: Seq<DataKeyView>) -> Map<Seq<char>, DataKeyView>
    decreases entries.len(),
{
    if entries.len() == 0 {
        Map::empty()
    } else {
        data_key_map(entries.drop_last()).insert(entries.last().key_id, entries.last())
    }
}

proof fn lemma_data_key_map_suffix(entries: Seq<DataKeyView>, k: int, key_id: Seq<char>)
    requires
        0 <= k <= entries.len(),
        forall|j: int| k <= j < entries.len() ==> entries[j].key_id != key_id,
    ensures
        data_key_map(entries).contains_key(key_id) == data_key_map(entries.take(k)).contains_key(key_id),
        data_key_map(entries).contains_key(key_id) ==> data_key_map(entries)[key_id] == data_key_map(entries.take(k))[key_id],
    decreases entries.len(),
{
    if entries.len() > k {
        assert(entries.drop_last().take(k) =~= entries.take(k));
        lemma_data_key_map_suffix(entries.drop_last(), k, key_id);
    } else {
        assert(entries.take(k) =~= entries);
    }
}

proof fn lemma_data_key_map_ids(entries: Seq<DataKeyView>, key_id: Seq<char>)
    ensures
        data_key_map(entries).contains_key(key_id) ==> data_key_map(entries)[key_id].key_id == key_id,
    decreases entries.len(),
{
    if entries.len() > 0 {
        lemma_data_key_map_ids(entries.drop_last(), key_id);
    }
}

/// Data keys kept in memory.
#[derive(Debug)]
pub struct InMemoryDataKeyRepository {
    entries: Vec<DataKey>,
}

impl InMemoryDataKeyRepository {
    closed spec fn entry_views(&self) -> Seq<DataKeyView> {
        self.entries@.map_values(|k: DataKey| k@)
    }

    /// The data key stored under `key_id`, if any: the latest entry with that id.
    fn find(&self, key_id: &String) -> (r: Option<DataKey>)
        ensures
            match r {
                Some(key) => data_key_map(self.entry_views()).contains_key(key_id@) && data_key_map(self.entry_views())[key_id@] == key@
                    && key@.key_id == key_id@,
                None => !data_key_map(self.entry_views()).contains_key(key_id@),
            },
    {
        proof { lemma_data_key_map_ids(self.entry_views(), key_id@); }
        let mut i: usize = self.entries.len();
        while i > 0
            invariant
                i <= self.entries@.len(),
                forall|j: int| i <= j < self.entries@.len() ==> self.entry_views()[j].key_id != key_id@,
            decreases i,
        {
            i = i - 1;
            if self.entries[i].key_id == *key_id {
                proof {
                    let views = self.entry_views();
                    lemma_data_key_map_suffix(views, i + 1, key_id@);
                    assert(views.take(i + 1).drop_last() =~= views.take(i as int));
                }
                return Some(self.entries[i].clone());
            }
        }
        proof {
            lemma_data_key_map_suffix(self.entry_views(), 0, key_id@);
        }
        None
    }
}

impl InMemoryDataKeyRepository {
    /// The data key of the day containing `timestamp`, if one is stored: the key stored under
    /// that day's key id, and no other day's key.
    pub fn data_key_of_day(&self, timestamp: Timestamp) -> (r: Option<DataKey>)
        ensures
            match r {
                Some(key) => self.stored_data_keys().contains_key(timestamp_key_id(timestamp))
                    && self.stored_data_keys()[timestamp_key_id(timestamp)] == key@
                    && key@.key_id == timestamp_key_id(timestamp),
                None => !self.stored_data_keys().contains_key(timestamp_key_id(timestamp)),
            },
    {
        let days_key_id = key_id_for_timestamp(timestamp);
        let found = self.find(&days_key_id);
        assert(timestamp_key_id(timestamp) == days_key_id@);
        found
    }
}

impl Default for InMemoryDataKeyRepository {
    fn default() -> (r: Self)
        ensures
            r.stored_data_keys() == Map::<Seq<char>, DataKeyView>::empty(),
    {
        let r = InMemoryDataKeyRepository { entries: Vec::new() };
        proof {
            assert(r.entry_views() =~= Seq::<DataKeyView>::empty());
        }
        r
    }
}

impl DataKeyRepository for InMemoryDataKeyRepository {
    closed spec fn stored_data_keys(&self) -> Map<Seq<char>, DataKeyView> {
        data_key_map(self.entry_views())
    }

    open spec fn never_fails(&self) -> bool {
        true
    }

    fn store_data_key(&mut self, data_key: &DataKey) -> (r: Result<(), RepositoryError>)
        ensures
            r is Ok,
    {
        let ghost before = self.entry_views();
        self.entries.push(data_key.clone());
        proof {
            assert(self.entry_views().drop_last() =~= before);
        }
        Ok(())
    }

    fn get_data_key_by_id(&self, key_id: &str) -> (r: Result<Option<DataKey>, RepositoryError>)
        ensures
            r is Ok,
    {
        Ok(self.find(&key_id.to_owned()))
    }

    fn get_todays_data_key(&self) -> (r: Result<Option<DataKey>, RepositoryError>)
        ensures
            r is Ok,
    {
        let now = current_time();
        Ok(self.data_key_of_day(now))
    }
}

/// Public keys kept in memory.
#[derive(Debug)]
pub struct InMemoryKeyRepository {
    user_keys: HashMap<u64, Vec<u8>>,
    guardian_keys: HashMap<u64, Vec<u8>>,
}

impl Default for InMemoryKeyRepository {
    fn default() -> (r: Self)
        ensures
            r.stored_public_keys() == Map::<(u64, OwnerType), Seq<u8>>::empty(),
    {
        let r = InMemoryKeyRepository { user_keys: HashMap::new(), guardian_keys: HashMap::new() };
        proof {
            assert(r.stored_public_keys() =~= Map::<(u64, OwnerType), Seq<u8>>::empty());
        }
        r
    }
}

impl KeyRepository for InMemoryKeyRepository {
    closed spec fn stored_public_keys(&self) -> Map<(u64, OwnerType), Seq<u8>> {
        Map::new(
            |owner: (u64, OwnerType)| match owner.1 {
                OwnerType::User => self.user_keys@.contains_key(owner.0),
                OwnerType::Guardian => self.guardian_keys@.contains_key(owner.0),
            },
            |owner: (u64, OwnerType)| match owner.1 {
                OwnerType::User => self.user_keys@[owner.0]@,
                OwnerType::Guardian => self.guardian_keys@[owner.0]@,
            },
        )
    }

    fn store_public_key(&mut self, owner_id: u64, owner_type: OwnerType, public_key: Vec<u8>) -> (r: Result<(), RepositoryError>)
        ensures
            r is Ok,
    {
        let ghost before = old(self).stored_public_keys();
        let ghost key = public_key@;
        match owner_type {
            OwnerType::User => {
                self.user_keys.insert(owner_id, public_key);
            },
            OwnerType::Guardian => {
                self.guardian_keys.insert(owner_id, public_key);
            },
        }
        proof {
            assert(self.stored_public_keys() =~= before.insert((owner_id, owner_type), key));
        }
        Ok(())
    }

    fn get_public_key(&self, owner_id: u64, owner_type: OwnerType) -> (r: Result<Option<Vec<u8>>, RepositoryError>)
        ensures
            r is Ok,
    {
        let found = match owner_type {
            OwnerType::User => self.user_keys.get(&owner_id),
            OwnerType::Guardian => self.guardian_keys.get(&owner_id),
        };
        match found {
            Some(key) => Ok(Some(key.clone())),
            None => Ok(None),
        }
    }
}

/// Sealed logs kept in memory.
#[derive(Debug)]
pub struct InMemoryEncryptedLogRepository {
    store: HashMap<u64, EncryptedLogData>,
}

impl Default for InMemoryEncryptedLogRepository {
    fn default() -> (r: Self)
        ensures
            r.stored_logs() == Map::<u64, EncryptedLogDataView>::empty(),
    {
        let r = InMemoryEncryptedLogRepository { store: HashMap::new() };
        proof {
            assert(r.stored_logs() =~= Map::<u64, EncryptedLogDataView>::empty());
        }
        r
    }
}

impl EncryptedLogRepository for InMemoryEncryptedLogRepository {
    closed spec fn stored_logs(&self) -> Map<u64, EncryptedLogDataView> {
        self.store@.map_values(|log: EncryptedLogData| log@)
    }

    fn store_encrypted_log(&mut self, encrypted_log: &EncryptedLogData) -> (r: Result<(), RepositoryError>)
        ensures
            r is Ok,
    {
        self.store.insert(encrypted_log.encrypted_log_id, encrypted_log.clone());
        proof {
            assert(self.stored_logs() =~= old(self).stored_logs().insert(encrypted_log.encrypted_log_id, encrypted_log@));
        }
        Ok(())
    }

    fn get_encrypted_log_by_id(&self, encrypted_log_id: u64) -> (r: Result<Option<EncryptedLogData>, RepositoryError>)
        ensures
            r is Ok,
    {
        match self.store.get(&encrypted_log_id) {
            Some(log) => Ok(Some(log.clone())),
            None => Ok(None),
        }
    }
}

/// Envelopes kept in memory.
#[derive(Debug)]
pub struct InMemoryKeyEnvelopeRepository {
    store: HashMap<u64, KeyEnvelope>,
}

impl Default for InMemoryKeyEnvelopeRepository {
    fn default() -> (r: Self)
        ensures
            r.stored_envelopes() == Map::<u64, KeyEnvelopeView>::empty(),
    {
        let r = InMemoryKeyEnvelopeRepository { store: HashMap::new() };
        proof {
            assert(r.stored_envelopes() =~= Map::<u64, KeyEnvelopeView>::empty());
        }
        r
    }
}

/// Whether an envelope carries the data key `key_id` (when `by_key_id`) or is addressed to
/// `owner_id` (otherwise).
pub open spec fn envelope_selected(e: KeyEnvelopeView, by_key_id: bool, key_id: Seq<char>, owner_id: u64) -> bool {
    if by_key_id { e.key_id == key_id } else { e.owner_id == owner_id }
}

impl InMemoryKeyEnvelopeRepository {
    /// The stored envelopes whose view satisfies `wanted`; `keep` decides it for a stored envelope.
    fn collect_matching(&self, key_id: &String, owner_id: u64, by_key_id: bool) -> (found: Vec<KeyEnvelope>)
        ensures
            lists_envelopes(found@.map_values(|e: KeyEnvelope| e@), self.stored_envelopes(),
                |e: KeyEnvelopeView| if by_key_id { e.key_id == key_id@ } else { e.owner_id == owner_id }),
    {
        let ghost stored = self.stored_envelopes();
        let mut found: Vec<KeyEnvelope> = Vec::new();
        let ghost mut ids: Seq<u64> = Seq::empty();
        let ghost keys = self.store@.dom();
        for id in iter: self.store.keys()
            invariant
                stored == self.stored_envelopes(),
                iter.seq().unref().no_duplicates(),
                iter.seq().unref().to_set() == self.store@.dom(),
                ids.no_duplicates(),
                found@.len() == ids.len(),
                forall|i: int| 0 <= i < ids.len() ==> found@[i]@ == stored[#[trigger] ids[i]],
                forall|x: u64| #[trigger] ids.contains(x) ==> stored.contains_key(x) && envelope_selected(stored[x], by_key_id, key_id@, owner_id),
                forall|x: u64| #[trigger] ids.contains(x) ==> !(exists|j: int| iter.index() <= j < iter.seq().len() && iter.seq()[j] == x),
                forall|x: u64| stored.contains_key(x) && envelope_selected(#[trigger] stored[x], by_key_id, key_id@, owner_id) ==> ids.contains(x)
                    || (exists|j: int| iter.index() <= j < iter.seq().len() && iter.seq()[j] == x),
        {
            let ghost k = iter.index();
            let ghost seq = iter.seq().unref();
            proof {
                assert(*id == seq[k]);
                assert(seq.contains(*id));
                assert(seq.to_set().contains(*id));
            }
            let ghost before = ids;
            let ghost before_len = found@.len();
            match self.store.get(id) {
                Some(envelope) => {
                    let keep = if by_key_id { envelope.key_id == *key_id } else { envelope.owner_id == owner_id };
                    proof {
                        assert(self.store@[*id] == *envelope);
                        assert(stored[*id] == envelope@);
                        assert(by_key_id ==> keep == (envelope.key_id@ == key_id@));
                        assert(!by_key_id ==> keep == (envelope.owner_id == owner_id));
                        assert(envelope_selected(envelope@, by_key_id, key_id@, owner_id) == (if by_key_id { envelope@.key_id == key_id@ } else { envelope@.owner_id == owner_id }));
                        assert(keep == envelope_selected(stored[*id], by_key_id, key_id@, owner_id));
                    }
                    if keep {
                        found.push(envelope.clone());
                        proof {
                            ids = ids.push(*id);
                            assert(ids[ids.len() - 1] == *id);
                            assert forall|x: u64| before.contains(x) implies ids.contains(x) by {
                                let i = choose|i: int| 0 <= i < before.len() && before[i] == x;
                                assert(ids[i] == x);
                            }
                            assert(ids.contains(*id));
                            assert(!before.contains(*id));
                            assert forall|x: u64| #[trigger] ids.contains(x) implies !(exists|j: int| k + 1 <= j < seq.len() && seq[j] == x) by {
                                if x == *id {
                                    assert forall|j: int| k + 1 <= j < seq.len() implies seq[j] != x by {
                                        assert(seq[j] != seq[k]);
                                    }
                                } else {
                                    assert(before.contains(x));
                                }
                            }
                            assert forall|x: u64| #[trigger] ids.contains(x) implies stored.contains_key(x)
                                && envelope_selected(stored[x], by_key_id, key_id@, owner_id) by {
                                if x != *id {
                                    assert(before.contains(x));
                                }
                            }
                        }
                    }
                    proof {
                        assert(!before.contains(*id));
                        assert(keep ==> ids.contains(*id));
                        assert(!keep ==> ids == before);
                        assert(forall|x: u64| before.contains(x) ==> ids.contains(x));
                        assert(ids.contains(*id) == envelope_selected(stored[*id], by_key_id, key_id@, owner_id));
                    }
                },
                None => {
                    proof {
                        assert(self.store@.dom().contains(*id));
                    }
                },
            }
            proof {
                assert forall|x: u64| stored.contains_key(x) && envelope_selected(#[trigger] stored[x], by_key_id, key_id@, owner_id) implies ids.contains(x)
                    || (exists|j: int| k + 1 <= j < seq.len() && seq[j] == x) by {
                    assert(before.contains(x) ==> ids.contains(x));
                    if !before.contains(x) {
                        assert(exists|j: int| k <= j < seq.len() && seq[j] == x);
                        let j = choose|j: int| k <= j < seq.len() && seq[j] == x;
                        if j == k {
                            assert(x == *id);
                            assert(ids.contains(x));
                        } else {
                            assert(k + 1 <= j < seq.len() && seq[j] == x);
                        }
                    }
                }
            }
        }
        proof {
            assert forall|x: u64| #[trigger] ids.contains(x) <==> (stored.contains_key(x) && envelope_selected(stored[x], by_key_id, key_id@, owner_id)) by {}
            assert(found@.map_values(|e: KeyEnvelope| e@).len() == ids.len());
            let wanted = |e: KeyEnvelopeView| if by_key_id { e.key_id == key_id@ } else { e.owner_id == owner_id };
            assert(forall|e: KeyEnvelopeView| #[trigger] wanted(e) == envelope_selected(e, by_key_id, key_id@, owner_id));
        }
        found
    }
}

impl KeyEnvelopeRepository for InMemoryKeyEnvelopeRepository {
    closed spec fn stored_envelopes(&self) -> Map<u64, KeyEnvelopeView> {
        self.store@.map_values(|envelope: KeyEnvelope| envelope@)
    }

    fn store_key_envelope(&mut self, envelope: &KeyEnvelope) -> (r: Result<(), RepositoryError>)
        ensures
            r is Ok,
    {
        self.store.insert(envelope.envelope_id, envelope.clone());
        proof {
            assert(self.stored_envelopes() =~= old(self).stored_envelopes().insert(envelope.envelope_id, envelope@));
        }
        Ok(())
    }

    fn get_envelopes_by_key_id(&self, key_id: &str) -> (r: Result<Vec<KeyEnvelope>, RepositoryError>)
        ensures
            r is Ok,
    {
        let wanted = key_id.to_owned();
        Ok(self.collect_matching(&wanted, 0, true))
    }

    fn get_envelopes_by_owner_id(&self, owner_id: u64) -> (r: Result<Vec<KeyEnvelope>, RepositoryError>)
        ensures
            r is Ok,
    {
        let unused = String::new();
        Ok(self.collect_matching(&unused, owner_id, false))
    }
}

/// A stored data key is found under its id afterwards; keys stored under other ids are as
/// they were.
pub proof fn lemma_data_key_read_after_write<R: DataKeyRepository>(before: R, after: R, data_key: DataKeyView, other_id: Seq<char>)
    requires
        after.stored_data_keys() == before.stored_data_keys().insert(data_key.key_id, data_key),
    ensures
        after.stored_data_keys().contains_key(data_key.key_id),
        after.stored_data_keys()[data_key.key_id] == data_key,
        other_id != data_key.key_id ==> after.stored_data_keys().contains_key(other_id) == before.stored_data_keys().contains_key(other_id)
            && after.stored_data_keys()[other_id] == before.stored_data_keys()[other_id],
{
}

/// A stored public key is found for its owner afterwards; the keys of other owners are as
/// they were.
pub proof fn lemma_public_key_read_after_write<R: KeyRepository>(
    before: R,
    after: R,
    owner_id: u64,
    owner_type: OwnerType,
    public_key: Seq<u8>,
    other: (u64, OwnerType),
)
    requires
        after.stored_public_keys() == before.stored_public_keys().insert((owner_id, owner_type), public_key),
    ensures
        after.stored_public_keys().contains_key((owner_id, owner_type)),
        after.stored_public_keys()[(owner_id, owner_type)] == public_key,
        other != (owner_id, owner_type) ==> after.stored_public_keys().contains_key(other) == before.stored_public_keys().contains_key(other)
            && after.stored_public_keys()[other] == before.stored_public_keys()[other],
{
}

/// A stored log is found under its id afterwards; logs stored under other ids are as they
/// were.
pub proof fn lemma_log_read_after_write<R: EncryptedLogRepository>(before: R, after: R, log: EncryptedLogDataView, other_id: u64)
    requires
        after.stored_logs() == before.stored_logs().insert(log.encrypted_log_id, log),
    ensures
        after.stored_logs().contains_key(log.encrypted_log_id),
        after.stored_logs()[log.encrypted_log_id] == log,
        other_id != log.encrypted_log_id ==> after.stored_logs().contains_key(other_id) == before.stored_logs().contains_key(other_id)
            && after.stored_logs()[other_id] == before.stored_logs()[other_id],
{
}

/// A stored envelope is listed afterwards among the envelopes of its data key and among
/// those of its owner.
pub proof fn lemma_envelope_listed_after_write<R: KeyEnvelopeRepository>(
    before: R,
    after: R,
    envelope: KeyEnvelopeView,
    by_key_id: Seq<KeyEnvelopeView>,
    by_owner_id: Seq<KeyEnvelopeView>,
)
    requires
        after.stored_envelopes() == before.stored_envelopes().insert(envelope.envelope_id, envelope),
        lists_envelopes(by_key_id, after.stored_envelopes(), |e: KeyEnvelopeView| e.key_id == envelope.key_id),
        lists_envelopes(by_owner_id, after.stored_envelopes(), |e: KeyEnvelopeView| e.owner_id == envelope.owner_id),
    ensures
        by_key_id.contains(envelope),
        by_owner_id.contains(envelope),
{
    lemma_listed_if_stored(by_key_id, after.stored_envelopes(), |e: KeyEnvelopeView| e.key_id == envelope.key_id, envelope.envelope_id);
    lemma_listed_if_stored(by_owner_id, after.stored_envelopes(), |e: KeyEnvelopeView| e.owner_id == envelope.owner_id, envelope.envelope_id);
}

proof fn lemma_listed_if_stored(found: Seq<KeyEnvelopeView>, stored: Map<u64, KeyEnvelopeView>, wanted: spec_fn(KeyEnvelopeView) -> bool, id: u64)
    requires
        lists_envelopes(found, stored, wanted),
        stored.contains_key(id),
        wanted(stored[id]),
    ensures
        found.contains(stored[id]),
{
    let ids = choose|ids: Seq<u64>| {
        &&& ids.no_duplicates()
        &&& forall|i: u64| ids.contains(i) <==> (stored.contains_key(i) && wanted(#[trigger] stored[i]))
        &&& found.len() == ids.len()
        &&& forall|i: int| 0 <= i < ids.len() ==> found[i] == stored[#[trigger] ids[i]]
    };
    assert(ids.contains(id));
    let k = choose|k: int| 0 <= k < ids.len() && ids[k] == id;
    assert(found[k] == stored[ids[k]]);
}

} // verus!
