//! Stable node identity.
//!
//! An [`Identity`] is the join key that matches nodes across frames: two
//! construction calls at the same logical construction site, with the same
//! disambiguation key, must yield the same identity.  The construction site
//! is carried explicitly as a number chosen by the caller (for example a
//! hash of the source location, threaded down by the tree-building code),
//! and the key disambiguates nodes built in a loop, such as list items.

use vstd::prelude::*;

verus! {

/// A stable, copyable node identity: construction site plus disambiguation
/// key.  Equality is the sole join criterion across frames.
#[derive(Debug, Clone, Copy, PartialEq, Eq, Structural, Hash)]
pub struct Identity {
    /// The logical construction site of the node.
    pub site: u64,
    /// The explicit disambiguation key; 0 when none was given.
    pub key: u64,
}

impl Identity {
    /// An identity for a construction site with no disambiguation key.
    pub fn new(site: u64) -> (r: Identity)
        ensures
            r == (Identity { site, key: 0u64 }),
    {
        Identity { site, key: 0 }
    }

    /// An identity for a construction site with an explicit key.
    pub fn keyed(site: u64, key: u64) -> (r: Identity)
        ensures
            r == (Identity { site, key }),
    {
        Identity { site, key }
    }
}

/// Re-keys an identity: the same construction site under a different
/// disambiguation key, for nodes built in a loop.
pub fn context(id: Identity, key: u64) -> (r: Identity)
    ensures
        r == (Identity { site: id.site, key }),
{
    Identity { site: id.site, key }
}

/// Identity stability: constructing an identity twice from the same
/// construction site and disambiguation key yields equal values, and
/// differing keys at the same site always yield different values.
pub proof fn lemma_identity_stable(site: u64, key: u64, other_key: u64)
    ensures
        (Identity { site, key }) == (Identity { site, key }),
        key != other_key ==> (Identity { site, key }) != (Identity { site, key: other_key }),
{
}

} // verus!
