use vstd::prelude::*;
use crate::laws::{law_deactivate_keeps_invariant, law_record_keeps_invariant};
use crate::model::{lemma_active_below_step, lemma_legacy_holders_step, RegistryModel};
use crate::types::{
    same_bytes, zero_hash, Principal, RegistryError, VerificationEntry, LEGACY_DOCUMENT,
    MAX_PRIMARY_TYPE,
};

verus! {

/// One written record together with its key.
#[derive(Clone, Copy, Debug)]
struct Slot {
    principal: Principal,
    kind: u8,
    entry: VerificationEntry,
}

impl Slot {
    /// The key under which the slot is found.
    spec fn key(self) -> (Principal, u8) {
        (self.principal, self.kind)
    }
}

/// No two slots carry the same key.
spec fn distinct_keys(slots: Seq<Slot>) -> bool {
    forall|i: int, j: int|
        0 <= i < slots.len() && 0 <= j < slots.len() && i != j ==> #[trigger] slots[i].key()
            != #[trigger] slots[j].key()
}

/// Whether some slot carries `key`.
spec fn has_key(slots: Seq<Slot>, key: (Principal, u8)) -> bool {
    exists|i: int| 0 <= i < slots.len() && #[trigger] slots[i].key() == key
}

/// The index of a slot that carries `key`.
spec fn index_of(slots: Seq<Slot>, key: (Principal, u8)) -> int {
    choose|i: int| 0 <= i < slots.len() && #[trigger] slots[i].key() == key
}

/// The records of a slot list as a map from key to record.
spec fn slots_map(slots: Seq<Slot>) -> Map<(Principal, u8), VerificationEntry> {
    Map::new(
        |key: (Principal, u8)| has_key(slots, key),
        |key: (Principal, u8)| slots[index_of(slots, key)].entry,
    )
}

/// In a list of distinct keys the map holds each slot's record under its key.
proof fn lemma_slot_in_map(slots: Seq<Slot>, i: int)
    requires
        distinct_keys(slots),
        0 <= i < slots.len(),
    ensures
        slots_map(slots).dom().contains(slots[i].key()),
        slots_map(slots)[slots[i].key()] == slots[i].entry,
{
    let key = slots[i].key();
    assert(has_key(slots, key));
    let j = index_of(slots, key);
    assert(slots[j].key() == key);
}

/// Replacing the record of a slot is an insertion under that slot's key.
proof fn lemma_map_after_update(slots: Seq<Slot>, i: int, entry: VerificationEntry)
    requires
        distinct_keys(slots),
        0 <= i < slots.len(),
    ensures
        distinct_keys(slots.update(i, Slot { entry, ..slots[i] })),
        slots_map(slots.update(i, Slot { entry, ..slots[i] })) == slots_map(slots).insert(
            slots[i].key(),
            entry,
        ),
{
    let after = slots.update(i, Slot { entry, ..slots[i] });
    assert forall|a: int| 0 <= a < slots.len() implies #[trigger] after[a].key()
        == slots[a].key() by {}
    assert(distinct_keys(after)) by {
        assert forall|a: int, b: int|
            0 <= a < after.len() && 0 <= b < after.len() && a != b implies #[trigger] after[a].key()
            != #[trigger] after[b].key() by {
            assert(slots[a].key() != slots[b].key());
        }
    }
    let want = slots_map(slots).insert(slots[i].key(), entry);
    assert forall|key: (Principal, u8)| slots_map(after).dom().contains(key) implies #[trigger]
        want.dom().contains(key) && want[key] == slots_map(after)[key] by {
        let j = index_of(after, key);
        assert(slots[j].key() == key);
        lemma_slot_in_map(after, j);
        lemma_slot_in_map(slots, j);
    }
    assert forall|key: (Principal, u8)| want.dom().contains(key) implies #[trigger] slots_map(
        after,
    ).dom().contains(key) by {
        if key == slots[i].key() {
            assert(after[i].key() == key);
        } else {
            let j = index_of(slots, key);
            assert(after[j].key() == key);
        }
    }
    assert(slots_map(after) =~= want);
}

/// Appending a slot with a fresh key is an insertion under that key.
proof fn lemma_map_after_push(slots: Seq<Slot>, slot: Slot)
    requires
        distinct_keys(slots),
        !has_key(slots, slot.key()),
    ensures
        distinct_keys(slots.push(slot)),
        slots_map(slots.push(slot)) == slots_map(slots).insert(slot.key(), slot.entry),
{
    let after = slots.push(slot);
    assert(distinct_keys(after)) by {
        assert forall|a: int, b: int|
            0 <= a < after.len() && 0 <= b < after.len() && a != b implies #[trigger] after[a].key()
            != #[trigger] after[b].key() by {
            if a < slots.len() && b < slots.len() {
                assert(slots[a].key() != slots[b].key());
            } else if a < slots.len() {
                assert(slots[a].key() != slot.key());
            } else {
                assert(slots[b].key() != slot.key());
            }
        }
    }
    let want = slots_map(slots).insert(slot.key(), slot.entry);
    assert forall|key: (Principal, u8)| slots_map(after).dom().contains(key) implies #[trigger]
        want.dom().contains(key) && want[key] == slots_map(after)[key] by {
        let j = index_of(after, key);
        lemma_slot_in_map(after, j);
        if j < slots.len() {
            assert(slots[j].key() == key);
            lemma_slot_in_map(slots, j);
        }
    }
    assert forall|key: (Principal, u8)| want.dom().contains(key) implies #[trigger] slots_map(
        after,
    ).dom().contains(key) by {
        if key == slot.key() {
            assert(after[slots.len() as int].key() == key);
        } else {
            let j = index_of(slots, key);
            assert(after[j].key() == key);
        }
    }
    assert(slots_map(after) =~= want);
}

/// The verification registry: the records of every principal, the log of
/// principals in the order in which they were first counted, and the count.
pub struct VerificationContract {
    slots: Vec<Slot>,
    total_users: u64,
    user_addresses: Vec<Principal>,
}

impl View for VerificationContract {
    type V = RegistryModel;

    closed spec fn view(&self) -> RegistryModel {
        RegistryModel {
            entries: slots_map(self.slots@),
            total_users: self.total_users as nat,
            user_addresses: self.user_addresses@,
        }
    }
}

impl VerificationContract {
    /// Well-formedness: every record is stored once, and the model's
    /// invariant holds.
    pub closed spec fn wf(&self) -> bool {
        &&& distinct_keys(self.slots@)
        &&& self@.inv()
    }

    /// A well-formed registry satisfies the model's invariant.
    pub proof fn lemma_wf_inv(&self)
        requires
            self.wf(),
        ensures
            self@.inv(),
    {
    }

    /// The registry in which nothing was ever stored.
    pub fn new() -> (registry: VerificationContract)
        ensures
            registry.wf(),
            registry@ == RegistryModel::empty(),
    {
        let registry = VerificationContract {
            slots: Vec::new(),
            total_users: 0,
            user_addresses: Vec::new(),
        };
        assert(registry@.entries =~= Map::empty());
        assert(registry@.user_addresses =~= Seq::empty());
        registry
    }

    /// The position of the slot of `principal` under `kind`, if it was written.
    fn find(&self, principal: &Principal, kind: u8) -> (found: Option<usize>)
        ensures
            match found {
                Some(i) => i < self.slots@.len() && self.slots@[i as int].key() == (
                    *principal,
                    kind,
                ),
                None => !has_key(self.slots@, (*principal, kind)),
            },
    {
        let mut i: usize = 0;
        while i < self.slots.len()
            invariant
                i <= self.slots@.len(),
                forall|j: int| 0 <= j < i ==> #[trigger] self.slots@[j].key() != (*principal, kind),
            decreases self.slots@.len() - i,
        {
            if self.slots[i].kind == kind && self.slots[i].principal.same(principal) {
                return Some(i);
            }
            i = i + 1;
        }
        None
    }

    /// The record of `principal` under `kind`, blank where none was written.
    fn lookup(&self, principal: &Principal, kind: u8) -> (entry: VerificationEntry)
        requires
            self.wf(),
        ensures
            entry == self@.entry(*principal, kind),
    {
        match self.find(principal, kind) {
            Some(i) => {
                proof {
                    lemma_slot_in_map(self.slots@, i as int);
                }
                self.slots[i].entry
            },
            None => VerificationEntry::blank(),
        }
    }

    /// Whether `user` holds a live record under any of the seven codes.
    fn has_any_verification(&self, user: Principal) -> (any: bool)
        requires
            self.wf(),
        ensures
            any == self@.has_any(user),
    {
        let mut kind: u8 = 0;
        while kind <= LEGACY_DOCUMENT
            invariant
                kind <= LEGACY_DOCUMENT + 1,
                self.wf(),
                forall|k: u8| k < kind ==> !#[trigger] self@.is_active(user, k),
            decreases LEGACY_DOCUMENT + 1 - kind,
        {
            if self.lookup(&user, kind).is_active {
                assert(self@.is_active(user, kind));
                return true;
            }
            kind = kind + 1;
        }
        false
    }

    /// Writes the record of `caller` under `kind` and does the bookkeeping
    /// of a first write.
    fn upsert(&mut self, caller: Principal, kind: u8, data_hash: [u8; 32], timestamp: u64)
        requires
            old(self).wf(),
            kind <= LEGACY_DOCUMENT,
            !old(self)@.has_any(caller) ==> old(self)@.total_users < u64::MAX,
        ensures
            final(self).wf(),
            final(self)@ == old(self)@.record(caller, kind, data_hash, timestamp),
    {
        let counted = self.has_any_verification(caller);
        let entry = VerificationEntry { data_hash, timestamp, is_active: true };
        let slot = Slot { principal: caller, kind, entry };
        match self.find(&caller, kind) {
            Some(i) => {
                proof {
                    lemma_map_after_update(self.slots@, i as int, entry);
                    assert(slot == Slot { entry, ..self.slots@[i as int] });
                }
                self.slots.set(i, slot);
            },
            None => {
                proof {
                    lemma_map_after_push(self.slots@, slot);
                }
                self.slots.push(slot);
            },
        }
        if !counted {
            self.user_addresses.push(caller);
            self.total_users = self.total_users + 1;
        }
        proof {
            law_record_keeps_invariant(old(self)@, caller, kind, data_hash, timestamp);
        }
    }

    /// Stores a record for `caller` under one of the six primary codes.
    ///
    /// A code above 5 is refused and the registry stays as it was.
    /// Otherwise the record is written and becomes live; a caller that held
    /// no live record before the write is appended to the log and counted.
    pub fn store_verification(
        &mut self,
        caller: Principal,
        verification_type: u8,
        data_hash: [u8; 32],
        timestamp: u64,
    ) -> (res: Result<(), RegistryError>)
        requires
            old(self).wf(),
            verification_type <= MAX_PRIMARY_TYPE && !old(self)@.has_any(caller) ==> old(
                self,
            )@.total_users < u64::MAX,
        ensures
            final(self).wf(),
            verification_type > MAX_PRIMARY_TYPE ==> res == Err::<(), RegistryError>(
                RegistryError::InvalidVerificationType,
            ) && final(self)@ == old(self)@,
            verification_type <= MAX_PRIMARY_TYPE ==> res.is_ok() && final(self)@ == old(
                self,
            )@.record(caller, verification_type, data_hash, timestamp),
    {
        if verification_type > MAX_PRIMARY_TYPE {
            return Err(RegistryError::InvalidVerificationType);
        }
        self.upsert(caller, verification_type, data_hash, timestamp);
        Ok(())
    }

    /// Stores the legacy document of `caller`: the same write and the same
    /// bookkeeping as for a primary code, under code 6.
    pub fn store_hash(&mut self, caller: Principal, hash: [u8; 32], timestamp: u64) -> (res: Result<
        (),
        RegistryError,
    >)
        requires
            old(self).wf(),
            !old(self)@.has_any(caller) ==> old(self)@.total_users < u64::MAX,
        ensures
            final(self).wf(),
            res.is_ok(),
            final(self)@ == old(self)@.record(caller, LEGACY_DOCUMENT, hash, timestamp),
    {
        self.upsert(caller, LEGACY_DOCUMENT, hash, timestamp);
        Ok(())
    }

    /// Clears the active flag of the record of `caller` under
    /// `verification_type`. A code above 6 is refused. Digest, timestamp,
    /// log and count stay as they were.
    pub fn deactivate_verification(&mut self, caller: Principal, verification_type: u8) -> (res:
        Result<(), RegistryError>)
        requires
            old(self).wf(),
        ensures
            final(self).wf(),
            verification_type > LEGACY_DOCUMENT ==> res == Err::<(), RegistryError>(
                RegistryError::InvalidVerificationType,
            ) && final(self)@ == old(self)@,
            verification_type <= LEGACY_DOCUMENT ==> res.is_ok() && final(self)@ == old(
                self,
            )@.deactivate(caller, verification_type),
    {
        if verification_type > LEGACY_DOCUMENT {
            return Err(RegistryError::InvalidVerificationType);
        }
        match self.find(&caller, verification_type) {
            Some(i) => {
                let previous = self.slots[i];
                let entry = VerificationEntry { is_active: false, ..previous.entry };
                proof {
                    lemma_slot_in_map(self.slots@, i as int);
                    lemma_map_after_update(self.slots@, i as int, entry);
                }
                self.slots.set(i, Slot { entry, ..previous });
            },
            None => {},
        }
        proof {
            law_deactivate_keeps_invariant(old(self)@, caller, verification_type);
        }
        Ok(())
    }

    /// The record of `user` under `verification_type`: digest, timestamp
    /// and active flag. A code above 6 and a slot never written both read
    /// as the blank record.
    pub fn get_user_verification(&self, user: Principal, verification_type: u8) -> (res: (
        [u8; 32],
        u64,
        bool,
    ))
        requires
            self.wf(),
        ensures
            verification_type > LEGACY_DOCUMENT ==> res == (zero_hash(), 0u64, false),
            verification_type <= LEGACY_DOCUMENT ==> res == (
                self@.entry(user, verification_type).data_hash,
                self@.entry(user, verification_type).timestamp,
                self@.entry(user, verification_type).is_active,
            ),
    {
        if verification_type > LEGACY_DOCUMENT {
            return ([0u8;32], 0, false);
        }
        let entry = self.lookup(&user, verification_type);
        (entry.data_hash, entry.timestamp, entry.is_active)
    }

    /// `get_user_verification` for the caller's own record.
    pub fn get_my_verification(&self, caller: Principal, verification_type: u8) -> (res: (
        [u8; 32],
        u64,
        bool,
    ))
        requires
            self.wf(),
        ensures
            verification_type > LEGACY_DOCUMENT ==> res == (zero_hash(), 0u64, false),
            verification_type <= LEGACY_DOCUMENT ==> res == (
                self@.entry(caller, verification_type).data_hash,
                self@.entry(caller, verification_type).timestamp,
                self@.entry(caller, verification_type).is_active,
            ),
    {
        self.get_user_verification(caller, verification_type)
    }

    /// Whether `user` holds a live record under `verification_type`; false
    /// for a code above 6.
    pub fn has_verification(&self, user: Principal, verification_type: u8) -> (live: bool)
        requires
            self.wf(),
        ensures
            live == self@.is_active(user, verification_type),
    {
        if verification_type > LEGACY_DOCUMENT {
            return false;
        }
        self.lookup(&user, verification_type).is_active
    }

    /// The legacy document of `caller`: its digest and timestamp while it
    /// is live, the zero digest and 0 otherwise.
    pub fn hash_document(&self, caller: Principal) -> (res: ([u8; 32], u64))
        requires
            self.wf(),
        ensures
            res == if self@.entry(caller, LEGACY_DOCUMENT).is_active {
                (
                    self@.entry(caller, LEGACY_DOCUMENT).data_hash,
                    self@.entry(caller, LEGACY_DOCUMENT).timestamp,
                )
            } else {
                (zero_hash(), 0u64)
            },
    {
        let entry = self.lookup(&caller, LEGACY_DOCUMENT);
        if entry.is_active {
            (entry.data_hash, entry.timestamp)
        } else {
            ([0u8;32], 0)
        }
    }

    /// Whether the legacy document of `caller` is live and carries exactly
    /// the expected digest and timestamp.
    pub fn verify_document(
        &self,
        caller: Principal,
        expected_hash: [u8; 32],
        expected_timestamp: u64,
    ) -> (matches: bool)
        requires
            self.wf(),
        ensures
            matches == (self@.entry(caller, LEGACY_DOCUMENT) == VerificationEntry {
                data_hash: expected_hash,
                timestamp: expected_timestamp,
                is_active: true,
            }),
    {
        let entry = self.lookup(&caller, LEGACY_DOCUMENT);
        if !entry.is_active {
            return false;
        }
        same_bytes(&entry.data_hash, &expected_hash) && entry.timestamp == expected_timestamp
    }

    /// The running count of logged principals.
    pub fn get_total_users(&self) -> (total: u64)
        ensures
            total == self@.total_users,
    {
        self.total_users
    }

    /// Stores the identity record of `caller` (code 0).
    pub fn store_identity_verification(&mut self, caller: Principal, data_hash: [u8; 32], timestamp: u64) -> (res:
        Result<(), RegistryError>)
        requires
            old(self).wf(),
            !old(self)@.has_any(caller) ==> old(self)@.total_users < u64::MAX,
        ensures
            final(self).wf(),
            res.is_ok(),
            final(self)@ == old(self)@.record(caller, 0u8, data_hash, timestamp),
    {
        self.store_verification(caller, 0, data_hash, timestamp)
    }

    /// Stores the address record of `caller` (code 1).
    pub fn store_address_verification(&mut self, caller: Principal, data_hash: [u8; 32], timestamp: u64) -> (res:
        Result<(), RegistryError>)
        requires
            old(self).wf(),
            !old(self)@.has_any(caller) ==> old(self)@.total_users < u64::MAX,
        ensures
            final(self).wf(),
            res.is_ok(),
            final(self)@ == old(self)@.record(caller, 1u8, data_hash, timestamp),
    {
        self.store_verification(caller, 1, data_hash, timestamp)
    }

    /// Stores the device record of `caller` (code 2).
    pub fn store_device_verification(&mut self, caller: Principal, data_hash: [u8; 32], timestamp: u64) -> (res:
        Result<(), RegistryError>)
        requires
            old(self).wf(),
            !old(self)@.has_any(caller) ==> old(self)@.total_users < u64::MAX,
        ensures
            final(self).wf(),
            res.is_ok(),
            final(self)@ == old(self)@.record(caller, 2u8, data_hash, timestamp),
    {
        self.store_verification(caller, 2, data_hash, timestamp)
    }

    /// Stores the email record of `caller` (code 3).
    pub fn store_email_verification(&mut self, caller: Principal, data_hash: [u8; 32], timestamp: u64) -> (res:
        Result<(), RegistryError>)
        requires
            old(self).wf(),
            !old(self)@.has_any(caller) ==> old(self)@.total_users < u64::MAX,
        ensures
            final(self).wf(),
            res.is_ok(),
            final(self)@ == old(self)@.record(caller, 3u8, data_hash, timestamp),
    {
        self.store_verification(caller, 3, data_hash, timestamp)
    }

    /// Stores the community record of `caller` (code 4).
    pub fn store_community_verification(&mut self, caller: Principal, data_hash: [u8; 32], timestamp: u64) -> (res:
        Result<(), RegistryError>)
        requires
            old(self).wf(),
            !old(self)@.has_any(caller) ==> old(self)@.total_users < u64::MAX,
        ensures
            final(self).wf(),
            res.is_ok(),
            final(self)@ == old(self)@.record(caller, 4u8, data_hash, timestamp),
    {
        self.store_verification(caller, 4, data_hash, timestamp)
    }

    /// Stores the trust score record of `caller` (code 5).
    pub fn store_trust_score(&mut self, caller: Principal, data_hash: [u8; 32], timestamp: u64) -> (res:
        Result<(), RegistryError>)
        requires
            old(self).wf(),
            !old(self)@.has_any(caller) ==> old(self)@.total_users < u64::MAX,
        ensures
            final(self).wf(),
            res.is_ok(),
            final(self)@ == old(self)@.record(caller, 5u8, data_hash, timestamp),
    {
        self.store_verification(caller, 5, data_hash, timestamp)
    }

    /// The live records of `user`, by ascending code: the codes, the
    /// digests, the timestamps and the flags. A record that is not live is
    /// left out, so every flag is true.
    pub fn get_user_all_verifications(&self, user: Principal) -> (res: (
        Vec<u8>,
        Vec<[u8; 32]>,
        Vec<u64>,
        Vec<bool>,
    ))
        requires
            self.wf(),
        ensures
            res.0@ == self@.active_kinds(user),
            res.1@ == self@.active_hashes(user),
            res.2@ == self@.active_timestamps(user),
            res.3@ == Seq::new(self@.active_kinds(user).len(), |i: int| true),
    {
        let mut types: Vec<u8> = Vec::new();
        let mut hashes: Vec<[u8; 32]> = Vec::new();
        let mut timestamps: Vec<u64> = Vec::new();
        let mut statuses: Vec<bool> = Vec::new();
        let mut kind: u8 = 0;
        proof {
            reveal(Seq::filter);
            assert(self@.active_below(user, 0) =~= Seq::<u8>::empty());
        }
        while kind <= LEGACY_DOCUMENT
            invariant
                kind <= LEGACY_DOCUMENT + 1,
                self.wf(),
                types@ == self@.active_below(user, kind as nat),
                hashes@.len() == types@.len(),
                timestamps@.len() == types@.len(),
                statuses@.len() == types@.len(),
                forall|i: int|
                    0 <= i < types@.len() ==> hashes@[i] == self@.entry(user, types@[i]).data_hash,
                forall|i: int|
                    0 <= i < types@.len() ==> timestamps@[i] == self@.entry(
                        user,
                        types@[i],
                    ).timestamp,
                forall|i: int| 0 <= i < types@.len() ==> statuses@[i],
            decreases LEGACY_DOCUMENT + 1 - kind,
        {
            let entry = self.lookup(&user, kind);
            proof {
                lemma_active_below_step(self@, user, kind as nat);
            }
            if entry.is_active {
                types.push(kind);
                hashes.push(entry.data_hash);
                timestamps.push(entry.timestamp);
                statuses.push(true);
            }
            kind = kind + 1;
        }
        assert(hashes@ =~= self@.active_hashes(user));
        assert(timestamps@ =~= self@.active_timestamps(user));
        assert(statuses@ =~= Seq::new(self@.active_kinds(user).len(), |i: int| true));
        (types, hashes, timestamps, statuses)
    }

    /// `get_user_all_verifications` for the caller's own records.
    pub fn get_my_all_verifications(&self, caller: Principal) -> (res: (
        Vec<u8>,
        Vec<[u8; 32]>,
        Vec<u64>,
        Vec<bool>,
    ))
        requires
            self.wf(),
        ensures
            res.0@ == self@.active_kinds(caller),
            res.1@ == self@.active_hashes(caller),
            res.2@ == self@.active_timestamps(caller),
            res.3@ == Seq::new(self@.active_kinds(caller).len(), |i: int| true),
    {
        self.get_user_all_verifications(caller)
    }

    /// Whether `user` completed each of the six primary codes, in the order
    /// identity, address, device, email, community, trust score.
    pub fn get_verification_status(&self, user: Principal) -> (res: (
        bool,
        bool,
        bool,
        bool,
        bool,
        bool,
    ))
        requires
            self.wf(),
        ensures
            res == (
                self@.is_active(user, 0),
                self@.is_active(user, 1),
                self@.is_active(user, 2),
                self@.is_active(user, 3),
                self@.is_active(user, 4),
                self@.is_active(user, 5),
            ),
    {
        (
            self.has_verification(user, 0),
            self.has_verification(user, 1),
            self.has_verification(user, 2),
            self.has_verification(user, 3),
            self.has_verification(user, 4),
            self.has_verification(user, 5),
        )
    }

    /// The share of the six primary codes that `user` completed, in
    /// percent, truncated. The legacy document does not count.
    pub fn get_completion_percentage(&self, user: Principal) -> (percent: u8)
        requires
            self.wf(),
        ensures
            percent == self@.completion_percentage(user),
    {
        let mut completed: u16 = 0;
        let mut kind: u8 = 0;
        proof {
            reveal(Seq::filter);
            assert(self@.active_below(user, 0) =~= Seq::<u8>::empty());
        }
        while kind <= MAX_PRIMARY_TYPE
            invariant
                kind <= MAX_PRIMARY_TYPE + 1,
                self.wf(),
                completed <= kind,
                completed == self@.active_below(user, kind as nat).len(),
            decreases MAX_PRIMARY_TYPE + 1 - kind,
        {
            proof {
                lemma_active_below_step(self@, user, kind as nat);
            }
            if self.has_verification(user, kind) {
                completed = completed + 1;
            }
            kind = kind + 1;
        }
        let percent: u16 = completed * 100 / 6;
        percent as u8
    }

    /// The legacy view of the whole registry: for every logged principal
    /// whose legacy document is live, in log order, the principal, the
    /// digest and the timestamp.
    pub fn get_all_stored_hashes_and_timestamps(&self) -> (res: (
        Vec<Principal>,
        Vec<[u8; 32]>,
        Vec<u64>,
    ))
        requires
            self.wf(),
        ensures
            res.0@ == self@.legacy_holders(),
            res.1@ == self@.legacy_hashes(),
            res.2@ == self@.legacy_timestamps(),
    {
        let mut addresses: Vec<Principal> = Vec::new();
        let mut hashes: Vec<[u8; 32]> = Vec::new();
        let mut timestamps: Vec<u64> = Vec::new();
        let mut i: usize = 0;
        proof {
            reveal(Seq::filter);
            assert(self@.legacy_holders_among(0) =~= Seq::<Principal>::empty());
        }
        while i < self.user_addresses.len()
            invariant
                i <= self.user_addresses@.len(),
                self.wf(),
                addresses@ == self@.legacy_holders_among(i as int),
                hashes@.len() == addresses@.len(),
                timestamps@.len() == addresses@.len(),
                forall|j: int|
                    0 <= j < addresses@.len() ==> hashes@[j] == self@.entry(
                        addresses@[j],
                        LEGACY_DOCUMENT,
                    ).data_hash,
                forall|j: int|
                    0 <= j < addresses@.len() ==> timestamps@[j] == self@.entry(
                        addresses@[j],
                        LEGACY_DOCUMENT,
                    ).timestamp,
            decreases self.user_addresses@.len() - i,
        {
            let user = self.user_addresses[i];
            let entry = self.lookup(&user, LEGACY_DOCUMENT);
            proof {
                lemma_legacy_holders_step(self@, i as int);
            }
            if entry.is_active {
                addresses.push(user);
                hashes.push(entry.data_hash);
                timestamps.push(entry.timestamp);
            }
            i = i + 1;
        }
        proof {
            assert(self@.user_addresses.take(i as int) =~= self@.user_addresses);
        }
        assert(hashes@ =~= self@.legacy_hashes());
        assert(timestamps@ =~= self@.legacy_timestamps());
        (addresses, hashes, timestamps)
    }
}

} // verus!
