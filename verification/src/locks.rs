//! Which printers are busy.
//!
//! Two jobs for the same printer must not run at the same time: the second
//! claim would fail, or the two payloads would mix on the wire. A job
//! therefore takes the printer's entry in this registry before it starts
//! discovering and gives it back when it is over. Jobs for different
//! printers do not wait for each other.

use vstd::prelude::*;
use crate::usb::DeviceId;

verus! {

/// The set of printers that a job currently holds.
#[derive(Debug)]
pub struct DeviceLocks {
    held: Vec<DeviceId>,
}

impl View for DeviceLocks {
    type V = Set<DeviceId>;

    closed spec fn view(&self) -> Set<DeviceId> {
        self.held@.to_set()
    }
}

impl DeviceLocks {
    /// A registry in which no printer is held.
    pub fn new() -> (locks: DeviceLocks)
        ensures
            locks@ == Set::<DeviceId>::empty(),
    {
        let locks = DeviceLocks { held: Vec::new() };
        assert(locks.held@.to_set() =~= Set::<DeviceId>::empty());
        locks
    }

    /// Whether a job holds `device`.
    pub fn is_held(&self, device: DeviceId) -> (held: bool)
        ensures
            held == self@.contains(device),
    {
        let mut i: usize = 0;
        while i < self.held.len()
            invariant
                i <= self.held@.len(),
                forall|k: int| 0 <= k < i ==> self.held@[k] != device,
            decreases self.held@.len() - i,
        {
            if self.held[i].vid == device.vid && self.held[i].pid == device.pid {
                return true;
            }
            i += 1;
        }
        false
    }

    /// Takes `device` for a job if no job holds it. Returns whether the
    /// caller now holds it; a printer that is held stays with its holder.
    pub fn try_acquire(&mut self, device: DeviceId) -> (acquired: bool)
        ensures
            acquired == !old(self)@.contains(device),
            final(self)@ == old(self)@.insert(device),
    {
        if self.is_held(device) {
            assert(self@.insert(device) =~= self@);
            false
        } else {
            let ghost before = self.held@;
            self.held.push(device);
            assert(self.held@.to_set() =~= before.to_set().insert(device)) by {
                assert forall|d: DeviceId| self.held@.contains(d) <==> before.contains(d) || d
                    == device by {
                    if before.contains(d) {
                        let k = choose|k: int| 0 <= k < before.len() && before[k] == d;
                        assert(self.held@[k] == d);
                    }
                    if d == device {
                        assert(self.held@[before.len() as int] == d);
                    }
                }
            }
            true
        }
    }

    /// Gives `device` back. Other printers stay as they are.
    pub fn release(&mut self, device: DeviceId)
        ensures
            final(self)@ == old(self)@.remove(device),
    {
        let mut kept: Vec<DeviceId> = Vec::new();
        let mut i: usize = 0;
        while i < self.held.len()
            invariant
                i <= self.held@.len(),
                forall|d: DeviceId|
                    kept@.contains(d) <==> self.held@.take(i as int).contains(d) && d != device,
            decreases self.held@.len() - i,
        {
            let entry = self.held[i];
            let ghost kept_before = kept@;
            let ghost seen = self.held@.take(i as int);
            if !(entry.vid == device.vid && entry.pid == device.pid) {
                kept.push(entry);
            }
            proof {
                let seen_after = self.held@.take(i + 1);
                assert(seen_after =~= seen.push(entry));
                assert forall|d: DeviceId|
                    kept@.contains(d) <==> seen_after.contains(d) && d != device by {
                    if kept_before.contains(d) {
                        let k = choose|k: int| 0 <= k < kept_before.len() && kept_before[k] == d;
                        assert(kept@[k] == d);
                    }
                    if seen.contains(d) {
                        let k = choose|k: int| 0 <= k < seen.len() && seen[k] == d;
                        assert(seen_after[k] == d);
                    }
                    if d == entry {
                        assert(seen_after[i as int] == d);
                        if d != device {
                            assert(kept@[kept_before.len() as int] == d);
                        }
                    }
                    if seen_after.contains(d) {
                        let k = choose|k: int| 0 <= k < seen_after.len() && seen_after[k] == d;
                        if k < i {
                            assert(seen[k] == d);
                        }
                    }
                    if kept@.contains(d) {
                        let k = choose|k: int| 0 <= k < kept@.len() && kept@[k] == d;
                        if k < kept_before.len() {
                            assert(kept_before[k] == d);
                        }
                    }
                }
            }
            i += 1;
        }
        proof {
            assert(self.held@.take(i as int) =~= self.held@);
            assert(kept@.to_set() =~= self.held@.to_set().remove(device));
        }
        self.held = kept;
    }
}

/// A printer serves one job at a time: whoever takes a printer keeps others
/// from taking it until it is given back, and taking or giving back one
/// printer changes nothing for another.
pub proof fn one_job_per_device(held: Set<DeviceId>, device: DeviceId, other: DeviceId)
    requires
        other != device,
    ensures
        held.insert(device).contains(device),
        !held.insert(device).remove(device).contains(device),
        held.insert(device).contains(other) == held.contains(other),
        held.remove(device).contains(other) == held.contains(other),
{
}

} // verus!
