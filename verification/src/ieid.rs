use vstd::prelude::*;

verus! {

/// Incremental event id: a boot id paired with a per-boot serial number.
/// Events compare lexicographically: first by boot id, then by serial.
/// A boot id of zero marks a phantom event (one that never really happened).
#[derive(Debug, Clone, Copy, PartialEq, Eq, Structural)]
pub struct IEID(u64, u64);

impl IEID {
    /// The boot id, as contracts see it.
    pub closed spec fn spec_boot(&self) -> u64 {
        self.0
    }

    /// The serial number, as contracts see it.
    pub closed spec fn spec_serial(&self) -> u64 {
        self.1
    }

    #[inline]
    pub fn new(b: u64, i: u64) -> (r: Self)
        ensures
            r.spec_boot() == b,
            r.spec_serial() == i,
    {
        Self(b, i)
    }

    #[inline]
    pub fn boot_id(&self) -> (r: u64)
        ensures
            r == self.spec_boot(),
    {
        self.0
    }

    #[inline]
    pub fn is_phantom(&self) -> (r: bool)
        ensures
            r == (self.spec_boot() == 0),
    {
        self.0 == 0
    }

    #[inline]
    pub fn mark_phantom(&mut self)
        ensures
            final(self).spec_boot() == 0,
            final(self).spec_serial() == 0,
    {
        self.0 = 0;
        self.1 = 0;
    }

    /// The other event is strictly newer than this one.
    #[inline]
    pub fn other_is_newer(&self, other: &IEID) -> (r: bool)
        ensures
            r == (other.spec_boot() > self.spec_boot() || (other.spec_boot() == self.spec_boot()
                && other.spec_serial() > self.spec_serial())),
    {
        other.0 > self.0 || (other.0 == self.0 && other.1 > self.1)
    }

    /// The other event is older than this one or the same.
    #[inline]
    pub fn other_is_less_or_equal(&self, other: &IEID) -> (r: bool)
        ensures
            r == (other.spec_boot() < self.spec_boot() || (other.spec_boot() == self.spec_boot()
                && other.spec_serial() <= self.spec_serial())),
    {
        other.0 < self.0 || (other.0 == self.0 && other.1 <= self.1)
    }
}

impl PartialOrd for IEID {
    fn partial_cmp(&self, other: &Self) -> (r: Option<core::cmp::Ordering>) {
        if self.0 < other.0 {
            Some(core::cmp::Ordering::Less)
        } else if self.0 > other.0 {
            Some(core::cmp::Ordering::Greater)
        } else if self.1 < other.1 {
            Some(core::cmp::Ordering::Less)
        } else if self.1 > other.1 {
            Some(core::cmp::Ordering::Greater)
        } else {
            Some(core::cmp::Ordering::Equal)
        }
    }
}

impl vstd::std_specs::cmp::PartialOrdSpecImpl for IEID {
    open spec fn obeys_partial_cmp_spec() -> bool {
        true
    }

    open spec fn partial_cmp_spec(&self, other: &Self) -> Option<core::cmp::Ordering> {
        if self.spec_boot() < other.spec_boot() {
            Some(core::cmp::Ordering::Less)
        } else if self.spec_boot() > other.spec_boot() {
            Some(core::cmp::Ordering::Greater)
        } else if self.spec_serial() < other.spec_serial() {
            Some(core::cmp::Ordering::Less)
        } else if self.spec_serial() > other.spec_serial() {
            Some(core::cmp::Ordering::Greater)
        } else {
            Some(core::cmp::Ordering::Equal)
        }
    }
}

} // verus!
