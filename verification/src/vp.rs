//! Profile identities and the marshalling rules of the profiles ABI.
//!
//! A profile is identified to the native library by a record holding its name
//! and the version of its definition. On the wire the name is a fixed-width,
//! NUL-padded C character array; here it is a plain string, and
//! [`c_name_field`] gives the wire layout.

use vstd::prelude::*;

verus! {

/// Width in bytes of the fixed profile-name field of the C ABI.
pub const PROFILE_NAME_FIELD_WIDTH: usize = 256;

/// The fixed-width layout of a name in a C character array of `width` bytes:
/// the name's bytes followed by zero padding, whose first byte is the NUL
/// terminator.
pub open spec fn c_name_field_spec(name: Seq<u8>, width: int) -> Seq<u8> {
    name + Seq::new((width - name.len()) as nat, |i: int| 0u8)
}

/// Lays `name` out as a fixed-width C string field of `width` bytes: the
/// name's bytes, then zero padding that begins with the NUL terminator. `None`
/// when the name together with its terminator does not fit the field.
pub fn c_name_field(name: &[u8], width: usize) -> (r: Option<Vec<u8>>)
    ensures
        r is Some <==> name@.len() < width,
        r matches Some(a) ==> a@ == c_name_field_spec(name@, width as int),
{
    if name.len() >= width {
        return None;
    }
    let mut out: Vec<u8> = Vec::new();
    let mut i: usize = 0;
    while i < name.len()
        invariant
            i <= name@.len(),
            out@ == name@.take(i as int),
        decreases name@.len() - i,
    {
        out.push(name[i]);
        assert(name@.take(i as int).push(name@[i as int]) =~= name@.take(i + 1));
        i = i + 1;
    }
    assert(name@.take(name@.len() as int) =~= name@);
    assert(out@ =~= c_name_field_spec(name@, out@.len() as int));
    while out.len() < width
        invariant
            name@.len() <= out@.len() <= width,
            out@ == c_name_field_spec(name@, out@.len() as int),
        decreases width - out@.len(),
    {
        out.push(0);
        assert(out@ =~= c_name_field_spec(name@, out@.len() as int));
    }
    Some(out)
}

/// Status code of the plain-success reply of the profiles API.
pub const STATUS_SUCCESS: i32 = 0;

/// Reads the reply of a yes-or-no support query: on a plain-success status the
/// 32-bit boolean is nonzero exactly when the profile is supported, and any
/// other status is a hard error handed back verbatim.
pub fn support_query_reply(status: i32, supported: u32) -> (r: Result<bool, i32>)
    ensures
        status == STATUS_SUCCESS ==> r == Ok::<bool, i32>(supported != 0),
        status != STATUS_SUCCESS ==> r == Err::<bool, i32>(status),
{
    if status == STATUS_SUCCESS {
        Ok(supported != 0)
    } else {
        Err(status)
    }
}

/// The packed 32-bit Vulkan version number with the given variant, major,
/// minor and patch parts.
pub open spec fn api_version_spec(variant: u32, major: u32, minor: u32, patch: u32) -> u32 {
    (variant << 29) | (major << 22) | (minor << 12) | patch
}

/// Packs a Vulkan version number from its four parts.
pub fn make_api_version(variant: u32, major: u32, minor: u32, patch: u32) -> (r: u32)
    ensures
        r == api_version_spec(variant, major, minor, patch),
{
    (variant << 29) | (major << 22) | (minor << 12) | patch
}

/// A profile identity: the profile's name and the version of its definition.
#[derive(Clone, Debug)]
pub struct ProfileProperties {
    pub profile_name: String,
    pub spec_version: u32,
}

impl Default for ProfileProperties {
    /// The all-zero identity of the ABI: an empty name field and version zero.
    fn default() -> (r: Self)
        ensures
            r.profile_name@ == Seq::<char>::empty(),
            r.spec_version == 0,
    {
        ProfileProperties { profile_name: String::new(), spec_version: 0 }
    }
}

/// The `VP_ANDROID_baseline_2021` profile.
pub struct AndroidBaseline2021;

impl AndroidBaseline2021 {
    /// Version of the profile's definition.
    pub const SPEC_VERSION: u32 = 1;

    /// The profile's name.
    pub fn name() -> (r: &'static str)
        ensures
            r@ == "VP_ANDROID_baseline_2021"@,
    {
        "VP_ANDROID_baseline_2021"
    }

    /// Lowest Vulkan API version the profile can be used with.
    pub fn min_api_version() -> (r: u32)
        ensures
            r == api_version_spec(0, 1, 0, 68),
    {
        make_api_version(0, 1, 0, 68)
    }

    /// The profile's identity, as handed to the profiles library.
    pub fn profile_properties() -> (r: ProfileProperties)
        ensures
            r.profile_name@ == "VP_ANDROID_baseline_2021"@,
            r.spec_version == Self::SPEC_VERSION,
    {
        ProfileProperties {
            profile_name: Self::name().to_owned(),
            spec_version: Self::SPEC_VERSION,
        }
    }
}

/// The `VP_KHR_roadmap_2022` profile.
pub struct KhrRoadmap2022;

impl KhrRoadmap2022 {
    /// Version of the profile's definition.
    pub const SPEC_VERSION: u32 = 1;

    /// The profile's name.
    pub fn name() -> (r: &'static str)
        ensures
            r@ == "VP_KHR_roadmap_2022"@,
    {
        "VP_KHR_roadmap_2022"
    }

    /// Lowest Vulkan API version the profile can be used with.
    pub fn min_api_version() -> (r: u32)
        ensures
            r == api_version_spec(0, 1, 3, 204),
    {
        make_api_version(0, 1, 3, 204)
    }

    /// The profile's identity, as handed to the profiles library.
    pub fn profile_properties() -> (r: ProfileProperties)
        ensures
            r.profile_name@ == "VP_KHR_roadmap_2022"@,
            r.spec_version == Self::SPEC_VERSION,
    {
        ProfileProperties {
            profile_name: Self::name().to_owned(),
            spec_version: Self::SPEC_VERSION,
        }
    }
}

/// The `VP_LUNARG_desktop_portability_2021` profile.
pub struct LunargDesktopPortability2021;

impl LunargDesktopPortability2021 {
    /// Version of the profile's definition.
    pub const SPEC_VERSION: u32 = 1;

    /// The profile's name.
    pub fn name() -> (r: &'static str)
        ensures
            r@ == "VP_LUNARG_desktop_portability_2021"@,
    {
        "VP_LUNARG_desktop_portability_2021"
    }

    /// Lowest Vulkan API version the profile can be used with.
    pub fn min_api_version() -> (r: u32)
        ensures
            r == api_version_spec(0, 1, 1, 142),
    {
        make_api_version(0, 1, 1, 142)
    }

    /// The profile's identity, as handed to the profiles library.
    pub fn profile_properties() -> (r: ProfileProperties)
        ensures
            r.profile_name@ == "VP_LUNARG_desktop_portability_2021"@,
            r.spec_version == Self::SPEC_VERSION,
    {
        ProfileProperties {
            profile_name: Self::name().to_owned(),
            spec_version: Self::SPEC_VERSION,
        }
    }
}

/// The `VP_LUNARG_desktop_portability_2021_subset` profile.
pub struct LunargDesktopPortability2021Subset;

impl LunargDesktopPortability2021Subset {
    /// Version of the profile's definition.
    pub const SPEC_VERSION: u32 = 1;

    /// The profile's name.
    pub fn name() -> (r: &'static str)
        ensures
            r@ == "VP_LUNARG_desktop_portability_2021_subset"@,
    {
        "VP_LUNARG_desktop_portability_2021_subset"
    }

    /// Lowest Vulkan API version the profile can be used with.
    pub fn min_api_version() -> (r: u32)
        ensures
            r == api_version_spec(0, 1, 1, 154),
    {
        make_api_version(0, 1, 1, 154)
    }

    /// The profile's identity, as handed to the profiles library.
    pub fn profile_properties() -> (r: ProfileProperties)
        ensures
            r.profile_name@ == "VP_LUNARG_desktop_portability_2021_subset"@,
            r.spec_version == Self::SPEC_VERSION,
    {
        ProfileProperties {
            profile_name: Self::name().to_owned(),
            spec_version: Self::SPEC_VERSION,
        }
    }
}

/// The fixed set of entry points of the statically linked profiles library.
/// The table is a capability: holding a value of it stands for the symbols
/// having been resolved, which for a statically linked library cannot fail.
#[derive(Clone)]
pub struct ProfilesFn {
    linked: bool,
}

impl ProfilesFn {
    /// Resolves the table from the statically linked library.
    pub fn load_static() -> (r: Self) {
        ProfilesFn { linked: true }
    }
}

} // verus!
