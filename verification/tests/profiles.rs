//! Profile identities, version packing, and the fixed-width name field.

use vk_profiles_rs::vp::{
    c_name_field, make_api_version, support_query_reply, AndroidBaseline2021, KhrRoadmap2022,
    LunargDesktopPortability2021, LunargDesktopPortability2021Subset, ProfileProperties,
    PROFILE_NAME_FIELD_WIDTH,
};
use vk_profiles_rs::VulkanProfiles;

#[test]
fn profile_names_and_versions() {
    let p = AndroidBaseline2021::profile_properties();
    assert_eq!(p.profile_name, "VP_ANDROID_baseline_2021");
    assert_eq!(p.spec_version, 1);

    let p = KhrRoadmap2022::profile_properties();
    assert_eq!(p.profile_name, "VP_KHR_roadmap_2022");
    assert_eq!(p.spec_version, 1);

    let p = LunargDesktopPortability2021::profile_properties();
    assert_eq!(p.profile_name, "VP_LUNARG_desktop_portability_2021");
    assert_eq!(p.spec_version, 1);

    let p = LunargDesktopPortability2021Subset::profile_properties();
    assert_eq!(p.profile_name, "VP_LUNARG_desktop_portability_2021_subset");
    assert_eq!(p.spec_version, 1);
}

#[test]
fn minimum_api_versions_pack_as_documented() {
    assert_eq!(make_api_version(0, 1, 0, 68), (1 << 22) | 68);
    assert_eq!(AndroidBaseline2021::min_api_version(), (1 << 22) | 68);
    assert_eq!(KhrRoadmap2022::min_api_version(), (1 << 22) | (3 << 12) | 204);
    assert_eq!(
        LunargDesktopPortability2021::min_api_version(),
        (1 << 22) | (1 << 12) | 142
    );
    assert_eq!(
        LunargDesktopPortability2021Subset::min_api_version(),
        (1 << 22) | (1 << 12) | 154
    );
    assert_eq!(make_api_version(1, 2, 3, 4), (1 << 29) | (2 << 22) | (3 << 12) | 4);
}

#[test]
fn default_profile_properties_are_all_zero() {
    let p = ProfileProperties::default();
    assert_eq!(p.profile_name, "");
    assert_eq!(p.spec_version, 0);
}

#[test]
fn name_field_is_nul_padded_to_width() {
    let laid_out = c_name_field(b"AB", 6).expect("two bytes fit a six byte field");
    assert_eq!(laid_out, vec![b'A', b'B', 0, 0, 0, 0]);

    let exact = c_name_field(b"ABC", 4).expect("name plus terminator exactly fits");
    assert_eq!(exact, vec![b'A', b'B', b'C', 0]);

    let empty = c_name_field(b"", 3).expect("an empty name fits any nonempty field");
    assert_eq!(empty, vec![0, 0, 0]);
}

#[test]
fn name_field_refuses_a_name_that_does_not_fit() {
    assert!(c_name_field(b"ABC", 3).is_none());
    assert!(c_name_field(b"ABCD", 3).is_none());
    assert!(c_name_field(b"", 0).is_none());
}

#[test]
fn profile_names_fit_the_abi_name_field() {
    for name in [
        AndroidBaseline2021::name(),
        KhrRoadmap2022::name(),
        LunargDesktopPortability2021::name(),
        LunargDesktopPortability2021Subset::name(),
    ] {
        let field = c_name_field(name.as_bytes(), PROFILE_NAME_FIELD_WIDTH)
            .expect("every shipped profile name fits the ABI field");
        assert_eq!(field.len(), PROFILE_NAME_FIELD_WIDTH);
        assert_eq!(&field[..name.len()], name.as_bytes());
        assert!(field[name.len()..].iter().all(|&b| b == 0));
    }
}

#[test]
fn support_reply_reads_the_wide_boolean() {
    assert_eq!(support_query_reply(0, 1), Ok(true));
    assert_eq!(support_query_reply(0, 7), Ok(true));
    assert_eq!(support_query_reply(0, 0), Ok(false));
}

#[test]
fn support_reply_hands_back_any_other_status() {
    assert_eq!(support_query_reply(-4, 1), Err(-4));
    assert_eq!(support_query_reply(-1, 0), Err(-1));
    // Even a positive, non-success status is not a support verdict.
    assert_eq!(support_query_reply(5, 1), Err(5));
}

#[test]
fn linked_table_is_available() {
    let profiles = VulkanProfiles::linked();
    let _table = profiles.profiles_fn();
    let cloned = profiles.clone();
    let _table_again = cloned.profiles_fn();
}
