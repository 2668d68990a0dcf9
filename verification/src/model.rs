use vstd::prelude::*;
use crate::types::{blank_entry, Principal, VerificationEntry, LEGACY_DOCUMENT};

verus! {

/// The type codes below `n`, in ascending order.
pub open spec fn kinds_below(n: nat) -> Seq<u8> {
    Seq::new(n, |i: int| i as u8)
}

/// The registry as a mathematical value.
///
/// `entries` holds the records that were written, keyed by principal and
/// type code; a key that is absent reads as the blank record.
pub struct RegistryModel {
    pub entries: Map<(Principal, u8), VerificationEntry>,
    pub total_users: nat,
    pub user_addresses: Seq<Principal>,
}

impl RegistryModel {
    /// The registry in which nothing was ever stored.
    pub open spec fn empty() -> RegistryModel {
        RegistryModel { entries: Map::empty(), total_users: 0, user_addresses: Seq::empty() }
    }

    /// The record of `principal` under `kind`, blank where none was written.
    pub open spec fn entry(self, principal: Principal, kind: u8) -> VerificationEntry {
        if self.entries.dom().contains((principal, kind)) {
            self.entries[(principal, kind)]
        } else {
            blank_entry()
        }
    }

    /// Whether `kind` is a type code that exists and `principal` holds a
    /// live record under it.
    pub open spec fn is_active(self, principal: Principal, kind: u8) -> bool {
        kind <= LEGACY_DOCUMENT && self.entry(principal, kind).is_active
    }

    /// Whether `principal` holds a live record under any of the seven codes.
    pub open spec fn has_any(self, principal: Principal) -> bool {
        exists|kind: u8| #[trigger] self.is_active(principal, kind)
    }

    /// The test "`principal` holds a live record under this code".
    pub open spec fn live_kinds(self, principal: Principal) -> spec_fn(u8) -> bool {
        |kind: u8| self.entry(principal, kind).is_active
    }

    /// The test "the legacy document of this principal is live".
    pub open spec fn legacy_live(self) -> spec_fn(Principal) -> bool {
        |principal: Principal| self.entry(principal, LEGACY_DOCUMENT).is_active
    }

    /// The codes below `n` under which `principal` holds a live record,
    /// ascending.
    pub open spec fn active_below(self, principal: Principal, n: nat) -> Seq<u8> {
        kinds_below(n).filter(self.live_kinds(principal))
    }

    /// The codes of all live records of `principal`, ascending.
    pub open spec fn active_kinds(self, principal: Principal) -> Seq<u8> {
        self.active_below(principal, 7)
    }

    /// How many of the six primary codes `principal` has completed.
    pub open spec fn completed(self, principal: Principal) -> nat {
        self.active_below(principal, 6).len()
    }

    /// The completion share in percent, truncated.
    pub open spec fn completion_percentage(self, principal: Principal) -> nat {
        self.completed(principal) * 100 / 6
    }

    /// The digests of the live records of `principal`, by ascending code.
    pub open spec fn active_hashes(self, principal: Principal) -> Seq<[u8; 32]> {
        self.active_kinds(principal).map_values(
            |kind: u8| self.entry(principal, kind).data_hash,
        )
    }

    /// The timestamps of the live records of `principal`, by ascending code.
    pub open spec fn active_timestamps(self, principal: Principal) -> Seq<u64> {
        self.active_kinds(principal).map_values(
            |kind: u8| self.entry(principal, kind).timestamp,
        )
    }

    /// Those of the first `n` logged principals whose legacy document is
    /// live, in log order.
    pub open spec fn legacy_holders_among(self, n: int) -> Seq<Principal> {
        self.user_addresses.take(n).filter(self.legacy_live())
    }

    /// The logged principals whose legacy document is live, in log order.
    /// A principal that was logged twice and holds a live document is
    /// listed twice.
    pub open spec fn legacy_holders(self) -> Seq<Principal> {
        self.user_addresses.filter(self.legacy_live())
    }

    /// The legacy digests of `legacy_holders`, in the same order.
    pub open spec fn legacy_hashes(self) -> Seq<[u8; 32]> {
        self.legacy_holders().map_values(
            |principal: Principal| self.entry(principal, LEGACY_DOCUMENT).data_hash,
        )
    }

    /// The legacy timestamps of `legacy_holders`, in the same order.
    pub open spec fn legacy_timestamps(self) -> Seq<u64> {
        self.legacy_holders().map_values(
            |principal: Principal| self.entry(principal, LEGACY_DOCUMENT).timestamp,
        )
    }

    /// The registry after `caller` stored a record under `kind`.
    ///
    /// The record is overwritten in place and becomes live. A caller that
    /// held no live record before the write is appended to the log and
    /// counted.
    pub open spec fn record(
        self,
        caller: Principal,
        kind: u8,
        data_hash: [u8; 32],
        timestamp: u64,
    ) -> RegistryModel {
        let entries = self.entries.insert(
            (caller, kind),
            VerificationEntry { data_hash, timestamp, is_active: true },
        );
        if self.has_any(caller) {
            RegistryModel { entries, ..self }
        } else {
            RegistryModel {
                entries,
                total_users: self.total_users + 1,
                user_addresses: self.user_addresses.push(caller),
            }
        }
    }

    /// The registry after `caller` deactivated its record under `kind`:
    /// the flag is cleared, digest and timestamp stay, and neither the log
    /// nor the count moves.
    pub open spec fn deactivate(self, caller: Principal, kind: u8) -> RegistryModel {
        if self.entries.dom().contains((caller, kind)) {
            let previous = self.entries[(caller, kind)];
            RegistryModel {
                entries: self.entries.insert(
                    (caller, kind),
                    VerificationEntry { is_active: false, ..previous },
                ),
                ..self
            }
        } else {
            self
        }
    }

    /// What holds of every registry that the operations can reach: the
    /// count is the length of the log, only the seven codes carry live
    /// records, and whoever holds a live record is in the log.
    pub open spec fn inv(self) -> bool {
        &&& self.total_users == self.user_addresses.len()
        &&& forall|principal: Principal, kind: u8|
            #[trigger] self.entry(principal, kind).is_active ==> kind <= LEGACY_DOCUMENT
        &&& forall|principal: Principal|
            #[trigger] self.has_any(principal) ==> self.user_addresses.contains(principal)
    }
}

/// Filtering a sequence with one more item keeps that item exactly when it
/// passes the test.
pub proof fn lemma_filter_push<A>(items: Seq<A>, item: A, pred: spec_fn(A) -> bool)
    ensures
        items.push(item).filter(pred) == if pred(item) {
            items.filter(pred).push(item)
        } else {
            items.filter(pred)
        },
{
    reveal(Seq::filter);
    assert(items.push(item).drop_last() =~= items);
}

/// One more code: it joins the live codes exactly when its record is live.
pub proof fn lemma_active_below_step(model: RegistryModel, principal: Principal, n: nat)
    requires
        n < 256,
    ensures
        model.active_below(principal, n + 1) == if model.entry(principal, n as u8).is_active {
            model.active_below(principal, n).push(n as u8)
        } else {
            model.active_below(principal, n)
        },
{
    assert(kinds_below(n + 1) =~= kinds_below(n).push(n as u8));
    lemma_filter_push(kinds_below(n), n as u8, model.live_kinds(principal));
}

/// One more logged principal: it joins the legacy holders exactly when its
/// legacy document is live.
pub proof fn lemma_legacy_holders_step(model: RegistryModel, n: int)
    requires
        0 <= n < model.user_addresses.len(),
    ensures
        model.legacy_holders_among(n + 1) == if model.entry(
            model.user_addresses[n],
            LEGACY_DOCUMENT,
        ).is_active {
            model.legacy_holders_among(n).push(model.user_addresses[n])
        } else {
            model.legacy_holders_among(n)
        },
{
    let log = model.user_addresses;
    assert(log.take(n + 1) =~= log.take(n).push(log[n]));
    lemma_filter_push(log.take(n), log[n], model.legacy_live());
}

} // verus!
