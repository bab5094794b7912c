//! What holds of the directory across several operations.
use vstd::prelude::*;
use crate::bdev_desc::{lemma_close_wf, lemma_open_wf, LbaRange};
use crate::registry::{
    lemma_device_named,
    lemma_push_built_wf,
    lemma_register_wf,
    DeviceView,
    Phase,
    RegistryView,
};
use crate::bdev_builder::BuilderView;

verus! {

/// A device that a complete builder makes is well formed.
pub proof fn lemma_built_device_wf<D>(b: BuilderView<D>)
    requires
        b.complete(),
    ensures
        b.device().wf(),
        b.device().phase == Phase::Built,
        b.device().claim.is_none(),
        b.device().size() == b.num_blocks.unwrap() * b.block_len.unwrap(),
{
}

/// A device that was built and then registered is the device that its name
/// finds, and the device that each of its aliases finds.
pub proof fn lemma_registered_device_is_found(v: RegistryView, d: DeviceView, n: Seq<char>)
    requires
        v.wf(),
        d.wf(),
        d.phase == Phase::Built,
        v.devices.len() + 1 < u64::MAX,
        (RegistryView { devices: v.devices.push(d), ..v }).can_register(v.devices.len() as int),
        d.holds_name(n),
    ensures
        (RegistryView { devices: v.devices.push(d), ..v }).register(v.devices.len() as int).wf(),
        (RegistryView { devices: v.devices.push(d), ..v }).register(
            v.devices.len() as int,
        ).name_in_use(n),
        (RegistryView { devices: v.devices.push(d), ..v }).register(
            v.devices.len() as int,
        ).device_named(n) == v.devices.len(),
{
    let i = v.devices.len() as int;
    let built = RegistryView { devices: v.devices.push(d), ..v };
    lemma_push_built_wf(v, d);
    lemma_register_wf(built, i);
    let w = built.register(i);
    assert(w.devices[i].published());
    assert(w.devices[i].holds_name(n));
    lemma_device_named(w, n, i);
}

/// Adding an alias a second time changes nothing.
pub proof fn lemma_add_alias_idempotent(v: RegistryView, i: int, n: Seq<char>)
    requires
        v.wf(),
        0 <= i < v.devices.len(),
    ensures
        v.add_alias(i, n).add_alias(i, n) == v.add_alias(i, n),
{
    let w = v.add_alias(i, n);
    if !v.alias_taken(i, n) {
        assert(w.devices[i].aliases[v.devices[i].aliases.len() as int] == n);
        assert(w.devices[i].aliases.contains(n));
        assert(w.devices[i].holds_name(n));
        assert(w.alias_taken(i, n));
    }
}

/// An alias that was free and is added, once or twice, stands in the list of
/// aliases exactly once: at its end.
pub proof fn lemma_added_alias_once(v: RegistryView, i: int, n: Seq<char>)
    requires
        v.wf(),
        0 <= i < v.devices.len(),
        !v.alias_taken(i, n),
    ensures
        v.add_alias(i, n).add_alias(i, n).devices[i].aliases == v.devices[i].aliases.push(n),
        forall|k: int|
            0 <= k < v.devices[i].aliases.len() ==> #[trigger] v.add_alias(i, n).add_alias(
                i,
                n,
            ).devices[i].aliases[k] != n,
{
    lemma_add_alias_idempotent(v, i, n);
    let old_aliases = v.devices[i].aliases;
    assert forall|k: int| 0 <= k < old_aliases.len() implies old_aliases[k] != n by {
        if old_aliases[k] == n {
            assert(old_aliases.contains(n));
            assert(v.devices[i].holds_name(n));
        }
    }
}

/// After a claim by the module `m`, the device is claimed by `n` exactly
/// where it was before, or where it was not claimed at all and `m` is `n`.
pub proof fn lemma_claimed_only_by_claim(v: RegistryView, i: int, m: Seq<char>, n: Seq<char>)
    requires
        0 <= i < v.devices.len(),
    ensures
        v.claim(i, m).devices[i].claimed_by(n) <==> (v.devices[i].claimed_by(n) || (
        v.devices[i].claim.is_none() && m == n)),
{
}

/// Registering a device does not claim it.
pub proof fn lemma_register_keeps_claim(v: RegistryView, i: int, n: Seq<char>)
    requires
        0 <= i < v.devices.len(),
    ensures
        v.register(i).devices[i].claimed_by(n) == v.devices[i].claimed_by(n),
{
}

/// After the claim was let go, no module has the device.
pub proof fn lemma_release_unclaims(v: RegistryView, i: int, n: Seq<char>)
    requires
        0 <= i < v.devices.len(),
    ensures
        !v.release_claim(i).devices[i].claimed_by(n),
        v.release_claim(i).devices[i].claim.is_none(),
{
}

/// Where a session can be opened on a device, a second one can be opened
/// after it; and when the first is closed, the second is still open, on a
/// device that names still find.
pub proof fn lemma_two_sessions(v: RegistryView, n: Seq<char>, first_rw: bool, second_rw: bool)
    requires
        v.wf(),
        v.descs.len() + 2 < u64::MAX,
        v.can_open(n, first_rw),
        v.can_open(n, second_rw),
    ensures
        v.open(n, first_rw).can_open(n, second_rw),
        v.open(n, first_rw).open(n, second_rw).wf(),
        v.open(n, first_rw).open(n, second_rw).close(v.descs.len() as int).wf(),
        v.open(n, first_rw).open(n, second_rw).close(v.descs.len() as int).descs[(v.descs.len() + 1) as int].open,
        v.open(n, first_rw).open(n, second_rw).close(v.descs.len() as int).descs[(v.descs.len() + 1) as int].bdev == v.device_named(n),
        v.open(n, first_rw).open(n, second_rw).close(v.descs.len() as int).devices[v.device_named(
            n,
        )].published(),
{
    let dev = v.device_named(n);
    let one = v.open(n, first_rw);
    assert(one.devices == v.devices);
    assert(one.name_in_use(n)) by {
        let i = choose|i: int|
            0 <= i < v.devices.len() && (#[trigger] v.devices[i]).published()
                && v.devices[i].holds_name(n);
        assert(one.devices[i].published() && one.devices[i].holds_name(n));
    }
    assert(one.device_named(n) == dev);
    lemma_open_wf(v, one.descs[v.descs.len() as int]);
    assert(one =~= (RegistryView { descs: v.descs.push(one.descs[v.descs.len() as int]), ..v }));
    let two = one.open(n, second_rw);
    lemma_open_wf(one, two.descs[one.descs.len() as int]);
    assert(two =~= (RegistryView {
        descs: one.descs.push(two.descs[one.descs.len() as int]),
        ..one
    }));
    let j = v.descs.len() as int;
    lemma_close_wf(two, j);
    let c = two.mark_closed(j);
    assert(c.descs[j + 1].open && c.descs[j + 1].bdev == dev);
    assert(c.has_open_desc(dev));
}

/// A range that is locked on a device without locks, with a channel to be
/// had, can be unlocked again, and the directory is then as it was before.
pub proof fn lemma_lock_then_unlock(v: RegistryView, j: int, r: LbaRange)
    requires
        v.wf(),
        0 <= j < v.descs.len(),
        v.devices[v.descs[j].bdev].locks.len() == 0,
        v.channels_out < v.channel_capacity,
    ensures
        v.can_lock(j, r),
        v.lock(j, r).can_unlock(j, j, r),
        v.lock(j, r).unlock(j, r) == v,
{
    let dev = v.descs[j].bdev;
    assert(0 <= dev < v.devices.len());
    let w = v.lock(j, r);
    let locks = w.devices[dev].locks;
    assert(locks =~= seq![r]);
    assert(locks[0] == r);
    assert(locks.contains(r));
    locks.index_of_first_ensures(r);
    assert(locks.index_of_first(r) == Some(0int));
    assert(locks.remove_value(r) =~= v.devices[dev].locks);
    let u = w.unlock(j, r);
    assert(u.devices =~= v.devices);
    assert(u == v);
}

/// A lock that was not taken cannot be given back: where the range is not
/// locked on the device of the session, or the lock was taken through
/// another session, unlocking is turned down.
pub proof fn lemma_unlock_needs_lock(v: RegistryView, j: int, taken: int, r: LbaRange)
    requires
        0 <= j < v.descs.len(),
        !v.devices[v.descs[j].bdev].locks.contains(r) || taken != j,
    ensures
        !v.can_unlock(j, taken, r),
{
}

} // verus!
