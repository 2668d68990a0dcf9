use vstd::prelude::*;
use crate::model::{lemma_active_below_step, RegistryModel};
use crate::types::{blank_entry, Principal, VerificationEntry, LEGACY_DOCUMENT};

verus! {

/// Storing a record under one of the seven codes keeps the registry's
/// invariant.
pub proof fn law_record_keeps_invariant(
    model: RegistryModel,
    caller: Principal,
    kind: u8,
    data_hash: [u8; 32],
    timestamp: u64,
)
    requires
        model.inv(),
        kind <= LEGACY_DOCUMENT,
    ensures
        model.record(caller, kind, data_hash, timestamp).inv(),
{
    let after = model.record(caller, kind, data_hash, timestamp);
    assert forall|p: Principal, k: u8| #[trigger] after.entry(p, k).is_active implies k
        <= LEGACY_DOCUMENT by {
        if (p, k) != (caller, kind) {
            assert(after.entry(p, k) == model.entry(p, k));
        }
    }
    assert forall|p: Principal| #[trigger] after.has_any(p) implies after.user_addresses.contains(
        p,
    ) by {
        let k = choose|k: u8| #[trigger] after.is_active(p, k);
        if model.has_any(p) {
            assert(model.user_addresses.contains(p));
            let i = choose|i: int|
                0 <= i < model.user_addresses.len() && model.user_addresses[i] == p;
            assert(after.user_addresses[i] == p);
        } else {
            if p != caller {
                assert(after.entry(p, k) == model.entry(p, k));
                assert(model.is_active(p, k));
            }
            assert(after.user_addresses[model.user_addresses.len() as int] == caller);
        }
    }
}

/// Deactivating a record keeps the registry's invariant.
pub proof fn law_deactivate_keeps_invariant(model: RegistryModel, caller: Principal, kind: u8)
    requires
        model.inv(),
    ensures
        model.deactivate(caller, kind).inv(),
{
    let after = model.deactivate(caller, kind);
    assert forall|p: Principal, k: u8| #[trigger] after.entry(p, k).is_active implies
        model.entry(p, k).is_active by {}
    assert forall|p: Principal| #[trigger] after.has_any(p) implies after.user_addresses.contains(
        p,
    ) by {
        let k = choose|k: u8| #[trigger] after.is_active(p, k);
        assert(after.entry(p, k).is_active);
        assert(model.is_active(p, k));
        assert(model.has_any(p));
        assert(model.user_addresses.contains(p));
        assert(after.user_addresses == model.user_addresses);
    }
}

/// The registry in which nothing was stored satisfies the invariant, and
/// every slot of it reads as the blank record.
pub proof fn law_empty_registry(principal: Principal, kind: u8)
    ensures
        RegistryModel::empty().inv(),
        RegistryModel::empty().entry(principal, kind) == blank_entry(),
        !RegistryModel::empty().has_any(principal),
{
    let empty = RegistryModel::empty();
    assert forall|p: Principal, k: u8| !#[trigger] empty.entry(p, k).is_active by {}
    assert forall|p: Principal| !#[trigger] empty.has_any(p) by {
        if empty.has_any(p) {
            let k = choose|k: u8| #[trigger] empty.is_active(p, k);
            assert(empty.entry(p, k).is_active);
        }
    }
}

/// A record that was stored reads back as it was given, and live; every
/// other slot reads as before.
pub proof fn law_store_then_read(
    model: RegistryModel,
    caller: Principal,
    kind: u8,
    data_hash: [u8; 32],
    timestamp: u64,
    other: Principal,
    other_kind: u8,
)
    ensures
        model.record(caller, kind, data_hash, timestamp).entry(caller, kind) == (VerificationEntry {
            data_hash,
            timestamp,
            is_active: true,
        }),
        (other, other_kind) != (caller, kind) ==> model.record(
            caller,
            kind,
            data_hash,
            timestamp,
        ).entry(other, other_kind) == model.entry(other, other_kind),
{
}

/// After a store under one of the seven codes the caller holds a live
/// record.
pub proof fn law_store_makes_active(
    model: RegistryModel,
    caller: Principal,
    kind: u8,
    data_hash: [u8; 32],
    timestamp: u64,
)
    requires
        kind <= LEGACY_DOCUMENT,
    ensures
        model.record(caller, kind, data_hash, timestamp).has_any(caller),
{
    let after = model.record(caller, kind, data_hash, timestamp);
    assert(after.is_active(caller, kind));
}

/// A store by a principal that already holds a live record neither counts
/// it again nor logs it again.
pub proof fn law_later_store_counts_nothing(
    model: RegistryModel,
    caller: Principal,
    kind: u8,
    data_hash: [u8; 32],
    timestamp: u64,
)
    requires
        model.has_any(caller),
    ensures
        model.record(caller, kind, data_hash, timestamp).total_users == model.total_users,
        model.record(caller, kind, data_hash, timestamp).user_addresses == model.user_addresses,
{
}

/// Of two stores in a row by one principal, the second neither counts nor
/// logs, whatever the codes.
pub proof fn law_second_store_counts_nothing(
    model: RegistryModel,
    caller: Principal,
    first_kind: u8,
    first_hash: [u8; 32],
    first_timestamp: u64,
    second_kind: u8,
    second_hash: [u8; 32],
    second_timestamp: u64,
)
    requires
        first_kind <= LEGACY_DOCUMENT,
    ensures
        ({
            let once = model.record(caller, first_kind, first_hash, first_timestamp);
            let twice = once.record(caller, second_kind, second_hash, second_timestamp);
            twice.total_users == once.total_users && twice.user_addresses == once.user_addresses
        }),
{
    law_store_makes_active(model, caller, first_kind, first_hash, first_timestamp);
}

/// A store by a principal that holds no live record counts it once and
/// appends it once to the log.
pub proof fn law_first_store_counts_once(
    model: RegistryModel,
    caller: Principal,
    kind: u8,
    data_hash: [u8; 32],
    timestamp: u64,
)
    requires
        !model.has_any(caller),
    ensures
        model.record(caller, kind, data_hash, timestamp).total_users == model.total_users + 1,
        model.record(caller, kind, data_hash, timestamp).user_addresses
            == model.user_addresses.push(caller),
{
}

/// Deactivation moves neither the count nor the log; it clears the flag of
/// the one record and keeps its digest and timestamp; every other slot
/// reads as before.
pub proof fn law_deactivate_keeps_log(
    model: RegistryModel,
    caller: Principal,
    kind: u8,
    other: Principal,
    other_kind: u8,
)
    ensures
        model.deactivate(caller, kind).total_users == model.total_users,
        model.deactivate(caller, kind).user_addresses == model.user_addresses,
        model.deactivate(caller, kind).entry(caller, kind) == (VerificationEntry {
            is_active: false,
            ..model.entry(caller, kind)
        }),
        (other, other_kind) != (caller, kind) ==> model.deactivate(caller, kind).entry(
            other,
            other_kind,
        ) == model.entry(other, other_kind),
{
}

/// A record that was deactivated and then stored again is live and carries
/// the new digest and timestamp.
pub proof fn law_store_after_deactivate(
    model: RegistryModel,
    caller: Principal,
    kind: u8,
    data_hash: [u8; 32],
    timestamp: u64,
)
    ensures
        model.deactivate(caller, kind).record(caller, kind, data_hash, timestamp).entry(
            caller,
            kind,
        ) == (VerificationEntry { data_hash, timestamp, is_active: true }),
{
}

/// The live codes below `n` are codes below `n` with a live record, they
/// ascend strictly, and none is missing.
pub proof fn law_active_below_exact(model: RegistryModel, principal: Principal, n: nat)
    requires
        n <= 256,
    ensures
        model.active_below(principal, n).len() <= n,
        forall|i: int|
            0 <= i < model.active_below(principal, n).len() ==> {
                let kind = #[trigger] model.active_below(principal, n)[i];
                kind < n && model.entry(principal, kind).is_active
            },
        forall|i: int, j: int|
            0 <= i < j < model.active_below(principal, n).len() ==> model.active_below(
                principal,
                n,
            )[i] < model.active_below(principal, n)[j],
        forall|kind: u8|
            kind < n && #[trigger] model.entry(principal, kind).is_active ==> model.active_below(
                principal,
                n,
            ).contains(kind),
    decreases n,
{
    let now = model.active_below(principal, n);
    if n == 0 {
        reveal(Seq::filter);
        assert(now =~= Seq::<u8>::empty());
    } else {
        let m = (n - 1) as nat;
        let before = model.active_below(principal, m);
        law_active_below_exact(model, principal, m);
        lemma_active_below_step(model, principal, m);
        assert forall|kind: u8|
            kind < n && #[trigger] model.entry(principal, kind).is_active implies now.contains(
            kind,
        ) by {
            if kind < m {
                assert(before.contains(kind));
                let i = choose|i: int| 0 <= i < before.len() && before[i] == kind;
                assert(now[i] == kind);
            } else {
                assert(now[before.len() as int] == kind);
            }
        }
    }
}

/// The bulk view lists live records only, in strictly ascending order of
/// their codes, and lists every live record.
pub proof fn law_active_kinds_exact(model: RegistryModel, principal: Principal)
    ensures
        forall|i: int|
            0 <= i < model.active_kinds(principal).len() ==> model.is_active(
                principal,
                #[trigger] model.active_kinds(principal)[i],
            ),
        forall|i: int, j: int|
            0 <= i < j < model.active_kinds(principal).len() ==> model.active_kinds(principal)[i]
                < model.active_kinds(principal)[j],
        forall|kind: u8| #[trigger]
            model.is_active(principal, kind) ==> model.active_kinds(principal).contains(kind),
{
    law_active_below_exact(model, principal, 7);
}

/// The completion share takes exactly the values 0, 16, 33, 50, 66, 83 and
/// 100, for 0 to 6 completed primary codes.
pub proof fn law_completion_values(model: RegistryModel, principal: Principal)
    ensures
        model.completed(principal) <= 6,
        model.completed(principal) == 0 ==> model.completion_percentage(principal) == 0,
        model.completed(principal) == 1 ==> model.completion_percentage(principal) == 16,
        model.completed(principal) == 2 ==> model.completion_percentage(principal) == 33,
        model.completed(principal) == 3 ==> model.completion_percentage(principal) == 50,
        model.completed(principal) == 4 ==> model.completion_percentage(principal) == 66,
        model.completed(principal) == 5 ==> model.completion_percentage(principal) == 83,
        model.completed(principal) == 6 ==> model.completion_percentage(principal) == 100,
{
    law_active_below_exact(model, principal, 6);
}

/// The legacy view lists logged principals only, each with a live legacy
/// document.
pub proof fn law_legacy_holders_live(model: RegistryModel, i: int)
    requires
        0 <= i < model.legacy_holders().len(),
    ensures
        model.user_addresses.contains(model.legacy_holders()[i]),
        model.entry(model.legacy_holders()[i], LEGACY_DOCUMENT).is_active,
{
    broadcast use vstd::seq_lib::group_filter_ensures;

    let holder = model.legacy_holders()[i];
    assert(model.legacy_holders().contains(holder));
    model.user_addresses.lemma_filter_contains_rev(model.legacy_live(), holder);
}

/// A principal whose legacy document was deactivated stays in the log and
/// in the count, and is no longer listed by the legacy view.
pub proof fn law_deactivated_document_unlisted(model: RegistryModel, caller: Principal)
    ensures
        model.deactivate(caller, LEGACY_DOCUMENT).user_addresses == model.user_addresses,
        model.deactivate(caller, LEGACY_DOCUMENT).total_users == model.total_users,
        !model.deactivate(caller, LEGACY_DOCUMENT).legacy_holders().contains(caller),
{
    let after = model.deactivate(caller, LEGACY_DOCUMENT);
    if after.legacy_holders().contains(caller) {
        let i = choose|i: int|
            0 <= i < after.legacy_holders().len() && after.legacy_holders()[i] == caller;
        law_legacy_holders_live(after, i);
        assert(!after.entry(caller, LEGACY_DOCUMENT).is_active);
    }
}

} // verus!
