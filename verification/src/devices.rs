//! The device registry: maps raw-input device handles to stable,
//! printable descriptors. Descriptors are only ever appended, so a
//! handle that has resolved once resolves to the same descriptor for
//! the rest of the session.

use vstd::prelude::*;
use vstd::string::StringExecFns;

verus! {

/// A physical input device: its OS handle and its printable name.
pub struct Device {
    pub hdevice: u64,
    pub device_name: String,
}

impl Device {
    /// A field-for-field copy.
    pub fn duplicate(&self) -> (r: Device)
        ensures
            r == *self,
    {
        Device { hdevice: self.hdevice, device_name: self.device_name.clone() }
    }
}

/// The first registry entry with a given handle, scanning front to back.
pub open spec fn spec_lookup(devices: Seq<Device>, hdevice: u64) -> Option<Device>
    decreases devices.len(),
{
    if devices.len() == 0 {
        None
    } else if devices[0].hdevice == hdevice {
        Some(devices[0])
    } else {
        spec_lookup(devices.drop_first(), hdevice)
    }
}

/// Skipping a non-matching prefix does not change what a lookup finds.
proof fn lemma_lookup_skip(devices: Seq<Device>, hdevice: u64, i: int)
    requires
        0 <= i <= devices.len(),
        forall|j: int| 0 <= j < i ==> devices[j].hdevice != hdevice,
    ensures
        spec_lookup(devices, hdevice) == spec_lookup(
            devices.subrange(i, devices.len() as int),
            hdevice,
        ),
    decreases i,
{
    if i == 0 {
        assert(devices.subrange(0, devices.len() as int) =~= devices);
    } else {
        lemma_lookup_skip(devices, hdevice, i - 1);
        let tail = devices.subrange(i - 1, devices.len() as int);
        assert(tail[0] == devices[i - 1]);
        assert(tail.drop_first() =~= devices.subrange(i, devices.len() as int));
    }
}

/// A resolved handle stays resolved to the same descriptor, however the
/// registry grows afterwards: lookups scan front to back and entries
/// are only appended.
pub proof fn lemma_lookup_stable(devices: Seq<Device>, more: Seq<Device>, hdevice: u64)
    requires
        spec_lookup(devices, hdevice) is Some,
    ensures
        spec_lookup(devices + more, hdevice) == spec_lookup(devices, hdevice),
    decreases devices.len(),
{
    assert(devices.len() > 0);
    let all = devices + more;
    assert(all[0] == devices[0]);
    if devices[0].hdevice == hdevice {
    } else {
        lemma_lookup_stable(devices.drop_first(), more, hdevice);
        assert(all.drop_first() =~= devices.drop_first() + more);
    }
}

/// The session-wide registry of devices seen so far.
pub struct DeviceRegistry {
    pub devices: Vec<Device>,
}

impl DeviceRegistry {
    pub fn new() -> (r: DeviceRegistry)
        ensures
            r.devices@ =~= Seq::<Device>::empty(),
    {
        DeviceRegistry { devices: Vec::new() }
    }

    /// Scans for the first entry with the handle.
    fn scan(&self, hdevice: u64) -> (r: Option<usize>)
        ensures
            match r {
                Some(i) => i < self.devices@.len() && spec_lookup(self.devices@, hdevice) == Some(
                    self.devices@[i as int],
                ) && self.devices@[i as int].hdevice == hdevice,
                None => spec_lookup(self.devices@, hdevice) is None,
            },
    {
        let n = self.devices.len();
        let mut i: usize = 0;
        while i < n
            invariant
                n == self.devices@.len(),
                i <= n,
                forall|j: int| 0 <= j < i ==> self.devices@[j].hdevice != hdevice,
            decreases n - i,
        {
            if self.devices[i].hdevice == hdevice {
                proof {
                    lemma_lookup_skip(self.devices@, hdevice, i as int);
                    let tail = self.devices@.subrange(i as int, n as int);
                    assert(tail[0] == self.devices@[i as int]);
                }
                return Some(i);
            }
            i = i + 1;
        }
        proof {
            lemma_lookup_skip(self.devices@, hdevice, n as int);
            assert(self.devices@.subrange(n as int, n as int) =~= Seq::<Device>::empty());
        }
        None
    }

    /// Looks a handle up without touching the registry.
    pub fn resolve(&self, hdevice: u64) -> (r: Option<Device>)
        ensures
            r == spec_lookup(self.devices@, hdevice),
    {
        match self.scan(hdevice) {
            Some(i) => Some(self.devices[i].duplicate()),
            None => None,
        }
    }

    /// Resolves a handle to its descriptor. A handle already known
    /// resolves without touching the registry. An unknown one first has
    /// the freshly enumerated OS devices appended and is scanned again;
    /// if it is still unknown, an "Unknown" descriptor is recorded for
    /// it. Either way the registry only grows, never loses or changes
    /// an entry, and afterwards the handle resolves.
    pub fn find_device(&mut self, hdevice: u64, fresh: &Vec<Device>) -> (r: Device)
        ensures
            spec_lookup(old(self).devices@, hdevice) is Some ==> *final(self) == *old(self) && Some(
                r,
            ) == spec_lookup(old(self).devices@, hdevice),
            spec_lookup(old(self).devices@, hdevice) is None && spec_lookup(
                old(self).devices@ + fresh@,
                hdevice,
            ) is Some ==> final(self).devices@ == old(self).devices@ + fresh@ && Some(r)
                == spec_lookup(old(self).devices@ + fresh@, hdevice),
            spec_lookup(old(self).devices@ + fresh@, hdevice) is None ==> final(self).devices@
                == (old(self).devices@ + fresh@).push(r) && r.device_name@ == "Unknown"@,
            old(self).devices@.is_prefix_of(final(self).devices@),
            Some(r) == spec_lookup(final(self).devices@, hdevice),
            r.hdevice == hdevice,
    {
        if let Some(i) = self.scan(hdevice) {
            proof {
                lemma_lookup_stable(self.devices@, fresh@, hdevice);
            }
            return self.devices[i].duplicate();
        }
        let ghost orig = self.devices@;
        let mut k: usize = 0;
        while k < fresh.len()
            invariant
                k <= fresh@.len(),
                self.devices@ =~= orig + fresh@.subrange(0, k as int),
            decreases fresh@.len() - k,
        {
            self.devices.push(fresh[k].duplicate());
            proof {
                assert(orig + fresh@.subrange(0, k as int) + seq![fresh@[k as int]] =~= orig
                    + fresh@.subrange(0, k + 1));
            }
            k = k + 1;
        }
        proof {
            assert(fresh@.subrange(0, fresh@.len() as int) =~= fresh@);
            assert(self.devices@ =~= orig + fresh@);
        }
        if let Some(i) = self.scan(hdevice) {
            proof {
                assert(orig.is_prefix_of(self.devices@));
            }
            return self.devices[i].duplicate();
        }
        let unknown = Device { hdevice, device_name: String::from_str("Unknown") };
        let ghost before = self.devices@;
        self.devices.push(unknown.duplicate());
        proof {
            lemma_lookup_none_push(before, hdevice, unknown);
            assert(before.push(unknown) =~= before + seq![unknown]);
            assert(orig.is_prefix_of(self.devices@));
            assert(self.devices@ =~= (orig + fresh@).push(unknown));
        }
        unknown
    }
}

/// Appending an entry for a handle that was absent makes the lookup
/// find exactly that entry.
proof fn lemma_lookup_none_push(devices: Seq<Device>, hdevice: u64, d: Device)
    requires
        spec_lookup(devices, hdevice) is None,
        d.hdevice == hdevice,
    ensures
        spec_lookup(devices.push(d), hdevice) == Some(d),
    decreases devices.len(),
{
    if devices.len() == 0 {
        assert(devices.push(d)[0] == d);
    } else {
        assert(devices.push(d)[0] == devices[0]);
        lemma_lookup_none_push(devices.drop_first(), hdevice, d);
        assert(devices.push(d).drop_first() =~= devices.drop_first().push(d));
    }
}

} // verus!
