use std::cmp::Ordering;

use fast_version::NewVersionError;
use fast_version::Version;
use fast_version::serial_compare;

#[test]
fn new_succeeds_on_interior_values() {
    let v = Version::new(1u32, 2, 3).unwrap();
    assert_eq!(v.major, 1);
    assert_eq!(v.minor, 2);
    assert_eq!(v.patch, 3);
}

#[test]
fn new_reports_first_offending_field_in_order() {
    // Major is checked first, maximum before minimum.
    assert!(matches!(
        Version::new(u32::MAX, u32::MAX, u32::MAX),
        Err(NewVersionError::MajorIsMax)
    ));
    assert!(matches!(Version::new(u32::MIN, u32::MAX, u32::MIN), Err(NewVersionError::MajorIsMin)));
    // Then minor, maximum before minimum.
    assert!(matches!(Version::new(5u32, u32::MAX, u32::MIN), Err(NewVersionError::MinorIsMax)));
    assert!(matches!(Version::new(5u32, u32::MIN, u32::MAX), Err(NewVersionError::MinorIsMin)));
    // Then patch.
    assert!(matches!(Version::new(5u32, 5, u32::MAX), Err(NewVersionError::PatchIsMax)));
    assert!(matches!(Version::new(5u32, 5, u32::MIN), Err(NewVersionError::PatchIsMin)));
}

#[test]
fn new_succeeds_iff_no_field_is_a_sentinel() {
    for major in [i8::MIN, -5, 1, i8::MAX] {
        for minor in [i8::MIN, 0, 7, i8::MAX] {
            for patch in [i8::MIN, -1, 3, i8::MAX] {
                let sentinel_free = major != i8::MIN && major != i8::MAX && minor != i8::MIN
                    && minor != i8::MAX && patch != i8::MIN && patch != i8::MAX;
                assert_eq!(Version::new(major, minor, patch).is_ok(), sentinel_free);
                assert_eq!(Version::try_new(major, minor, patch).is_some(), sentinel_free);
            }
        }
    }
}

#[test]
fn constructed_version_revalidates_as_valid() {
    let v = Version::new(3u16, 9, 27).unwrap();
    assert!(serial_compare(v.major, v.minor, v.patch));
    assert!(fast_version::simd::fast_compare_simd(v.major, v.minor, v.patch));
}

#[test]
fn version_equality_is_field_wise() {
    let a = Version::new(1u64, 2, 3).unwrap();
    let b = Version::new(1u64, 2, 3).unwrap();
    let c = Version::new(1u64, 2, 4).unwrap();
    assert!(a == b);
    assert!(a != c);
}

#[test]
fn version_ordering_is_lexicographic() {
    let base = Version::new(2i32, 2, 2).unwrap();
    let bigger_major = Version::new(3i32, 1, 1).unwrap();
    let bigger_minor = Version::new(2i32, 3, 1).unwrap();
    let bigger_patch = Version::new(2i32, 2, 3).unwrap();
    let equal = Version::new(2i32, 2, 2).unwrap();

    assert_eq!(base.partial_cmp(&bigger_major), Some(Ordering::Less));
    assert_eq!(bigger_major.partial_cmp(&base), Some(Ordering::Greater));
    assert_eq!(base.partial_cmp(&bigger_minor), Some(Ordering::Less));
    assert_eq!(base.partial_cmp(&bigger_patch), Some(Ordering::Less));
    assert_eq!(base.partial_cmp(&equal), Some(Ordering::Equal));
    assert!(base < bigger_major);
    assert!(bigger_patch > base);
}

#[test]
fn ordering_is_defined_on_raw_unvalidated_triples() {
    // Raw triples may be compared before construction, so ordering is total
    // over invalid instances too.
    let invalid_low = Version { major: u8::MIN, minor: u8::MIN, patch: u8::MIN };
    let invalid_high = Version { major: u8::MAX, minor: u8::MAX, patch: u8::MAX };
    assert_eq!(invalid_low.partial_cmp(&invalid_high), Some(Ordering::Less));
    assert_eq!(invalid_high.partial_cmp(&invalid_low), Some(Ordering::Greater));
    assert!(invalid_low == invalid_low);
}
