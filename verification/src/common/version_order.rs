//! Ordering of semantic versions: by major, then minor, then patch.

use vstd::prelude::*;
use vstd::std_specs::cmp::PartialOrdSpecImpl;
use core::cmp::Ordering;
use crate::common::version::SemanticVersion;

verus! {

/// Lexicographic comparison of two versions over (major, minor, patch).
pub open spec fn version_order(a: SemanticVersion, b: SemanticVersion) -> Ordering {
    if a.major < b.major {
        Ordering::Less
    } else if a.major > b.major {
        Ordering::Greater
    } else if a.minor < b.minor {
        Ordering::Less
    } else if a.minor > b.minor {
        Ordering::Greater
    } else if a.patch < b.patch {
        Ordering::Less
    } else if a.patch > b.patch {
        Ordering::Greater
    } else {
        Ordering::Equal
    }
}

/// `a` comes strictly before `b`.
pub open spec fn version_lt(a: SemanticVersion, b: SemanticVersion) -> bool {
    version_order(a, b) == Ordering::Less
}

impl PartialOrd for SemanticVersion {
    fn partial_cmp(&self, other: &Self) -> (r: Option<Ordering>) {
        if self.major < other.major {
            Some(Ordering::Less)
        } else if self.major > other.major {
            Some(Ordering::Greater)
        } else if self.minor < other.minor {
            Some(Ordering::Less)
        } else if self.minor > other.minor {
            Some(Ordering::Greater)
        } else if self.patch < other.patch {
            Some(Ordering::Less)
        } else if self.patch > other.patch {
            Some(Ordering::Greater)
        } else {
            Some(Ordering::Equal)
        }
    }
}

impl PartialOrdSpecImpl for SemanticVersion {
    open spec fn obeys_partial_cmp_spec() -> bool {
        true
    }

    open spec fn partial_cmp_spec(&self, other: &Self) -> Option<Ordering> {
        Some(version_order(*self, *other))
    }
}

/// Version order is a strict total order: exactly one of `a < b`, `a == b`,
/// `b < a` holds, and `<` is transitive.
pub proof fn law_version_order_total(a: SemanticVersion, b: SemanticVersion, c: SemanticVersion)
    ensures
        version_order(a, b) == Ordering::Equal <==> a == b,
        version_lt(a, b) <==> version_order(b, a) == Ordering::Greater,
        version_lt(a, b) || a == b || version_lt(b, a),
        version_lt(a, b) && version_lt(b, c) ==> version_lt(a, c),
{
}

/// Each increment yields a strictly later version.
pub proof fn law_increment_is_later(v: SemanticVersion)
    ensures
        v.major < u32::MAX ==> version_lt(
            v,
            SemanticVersion { major: (v.major + 1) as u32, minor: 0, patch: 0 },
        ),
        v.minor < u32::MAX ==> version_lt(
            v,
            SemanticVersion { major: v.major, minor: (v.minor + 1) as u32, patch: 0 },
        ),
        v.patch < u32::MAX ==> version_lt(
            v,
            SemanticVersion { major: v.major, minor: v.minor, patch: (v.patch + 1) as u32 },
        ),
{
}

} // verus!
