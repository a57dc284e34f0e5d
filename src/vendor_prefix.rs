//! Sets of vendor prefixes.
use vstd::prelude::*;

verus! {

/// A set of vendor prefixes, one flag per prefix.
///
/// The set carries no order: which declaration wins is decided by its position
/// in the source, never by its prefix.
#[derive(Clone, Copy, Debug, PartialEq, Eq, Structural)]
pub struct VendorPrefix {
    /// The unprefixed form.
    pub none: bool,
    /// `-webkit-`.
    pub webkit: bool,
    /// `-moz-`.
    pub moz: bool,
    /// `-ms-`.
    pub ms: bool,
    /// `-o-`.
    pub o: bool,
}

impl VendorPrefix {
    pub open spec fn spec_empty() -> VendorPrefix {
        VendorPrefix { none: false, webkit: false, moz: false, ms: false, o: false }
    }

    pub open spec fn spec_union(self, other: VendorPrefix) -> VendorPrefix {
        VendorPrefix {
            none: self.none || other.none,
            webkit: self.webkit || other.webkit,
            moz: self.moz || other.moz,
            ms: self.ms || other.ms,
            o: self.o || other.o,
        }
    }

    pub open spec fn spec_intersect(self, other: VendorPrefix) -> VendorPrefix {
        VendorPrefix {
            none: self.none && other.none,
            webkit: self.webkit && other.webkit,
            moz: self.moz && other.moz,
            ms: self.ms && other.ms,
            o: self.o && other.o,
        }
    }

    pub open spec fn spec_difference(self, other: VendorPrefix) -> VendorPrefix {
        VendorPrefix {
            none: self.none && !other.none,
            webkit: self.webkit && !other.webkit,
            moz: self.moz && !other.moz,
            ms: self.ms && !other.ms,
            o: self.o && !other.o,
        }
    }

    pub open spec fn spec_is_empty(self) -> bool {
        !self.none && !self.webkit && !self.moz && !self.ms && !self.o
    }

    /// Every prefix of `other` is in `self`.
    pub open spec fn spec_contains(self, other: VendorPrefix) -> bool {
        (other.none ==> self.none) && (other.webkit ==> self.webkit) && (other.moz ==> self.moz)
            && (other.ms ==> self.ms) && (other.o ==> self.o)
    }

    /// The empty set.
    pub fn empty() -> (r: VendorPrefix)
        ensures
            r == VendorPrefix::spec_empty(),
    {
        VendorPrefix { none: false, webkit: false, moz: false, ms: false, o: false }
    }

    /// The set that holds only the unprefixed form.
    pub fn unprefixed() -> (r: VendorPrefix)
        ensures
            r == (VendorPrefix { none: true, ..VendorPrefix::spec_empty() }),
    {
        VendorPrefix { none: true, webkit: false, moz: false, ms: false, o: false }
    }

    /// The set that holds only `-webkit-`.
    pub fn webkit() -> (r: VendorPrefix)
        ensures
            r == (VendorPrefix { webkit: true, ..VendorPrefix::spec_empty() }),
    {
        VendorPrefix { none: false, webkit: true, moz: false, ms: false, o: false }
    }

    /// The set that holds only `-moz-`.
    pub fn moz() -> (r: VendorPrefix)
        ensures
            r == (VendorPrefix { moz: true, ..VendorPrefix::spec_empty() }),
    {
        VendorPrefix { none: false, webkit: false, moz: true, ms: false, o: false }
    }

    pub fn union(self, other: VendorPrefix) -> (r: VendorPrefix)
        ensures
            r == self.spec_union(other),
    {
        VendorPrefix {
            none: self.none || other.none,
            webkit: self.webkit || other.webkit,
            moz: self.moz || other.moz,
            ms: self.ms || other.ms,
            o: self.o || other.o,
        }
    }

    pub fn intersect(self, other: VendorPrefix) -> (r: VendorPrefix)
        ensures
            r == self.spec_intersect(other),
    {
        VendorPrefix {
            none: self.none && other.none,
            webkit: self.webkit && other.webkit,
            moz: self.moz && other.moz,
            ms: self.ms && other.ms,
            o: self.o && other.o,
        }
    }

    pub fn difference(self, other: VendorPrefix) -> (r: VendorPrefix)
        ensures
            r == self.spec_difference(other),
    {
        VendorPrefix {
            none: self.none && !other.none,
            webkit: self.webkit && !other.webkit,
            moz: self.moz && !other.moz,
            ms: self.ms && !other.ms,
            o: self.o && !other.o,
        }
    }

    pub fn is_empty(self) -> (r: bool)
        ensures
            r == self.spec_is_empty(),
    {
        !self.none && !self.webkit && !self.moz && !self.ms && !self.o
    }

    pub fn contains(self, other: VendorPrefix) -> (r: bool)
        ensures
            r == self.spec_contains(other),
    {
        (!other.none || self.none) && (!other.webkit || self.webkit) && (!other.moz || self.moz)
            && (!other.ms || self.ms) && (!other.o || self.o)
    }
}

/// The prefixes to write for a declaration tagged `vp`: where `vp` holds the
/// unprefixed form and the browser targets are known, the prefixes that the
/// targets need (`targets`) replace it.
pub open spec fn spec_expand(vp: VendorPrefix, targets: Option<VendorPrefix>) -> VendorPrefix {
    if vp.none && targets.is_some() {
        targets.unwrap()
    } else {
        vp
    }
}

pub fn expand(vp: VendorPrefix, targets: Option<VendorPrefix>) -> (r: VendorPrefix)
    ensures
        r == spec_expand(vp, targets),
{
    match targets {
        Some(t) if vp.none => t,
        _ => vp,
    }
}

} // verus!
