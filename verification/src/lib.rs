//! Safe core of a binding to the Vulkan Profiles library.
//!
//! The native library is an external collaborator reached through a fixed set
//! of entry points; everything the binding itself decides is here. The heart is
//! the enumeration protocol in [`fetch`]: the two-call "query count, then query
//! data" exchange with its retry-until-stable loop. [`sources`] holds in-memory
//! sources that exercise that protocol, [`vp`] the profile identities and the
//! marshalling rules for the fixed-width name field, and [`flags`] the
//! decomposition of flag words into known bits.

pub mod fetch;
pub mod flags;
pub mod sources;
pub mod vp;

use vstd::prelude::*;

verus! {

/// Access to the entry points of the Vulkan Profiles library, held as a
/// capability: one value is made when the statically linked table is resolved,
/// and everything that queries the library is handed that value explicitly.
#[derive(Clone)]
pub struct VulkanProfiles {
    profiles_fn: crate::vp::ProfilesFn,
}

impl VulkanProfiles {
    /// Resolves the entry points of the statically linked profiles library
    /// (currently the only way the library can be reached).
    pub fn linked() -> (r: Self) {
        VulkanProfiles { profiles_fn: crate::vp::ProfilesFn::load_static() }
    }

    /// The entry-point table this capability wraps.
    pub closed spec fn table(&self) -> crate::vp::ProfilesFn {
        self.profiles_fn
    }

    /// The raw entry-point table.
    pub fn profiles_fn(&self) -> (r: &crate::vp::ProfilesFn)
        ensures
            *r == self.table(),
    {
        &self.profiles_fn
    }
}

} // verus!
