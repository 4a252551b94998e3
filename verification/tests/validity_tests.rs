use std::fmt::Debug;
use std::fmt::Display;

use rand::Rng;
use rand::distributions::uniform::SampleUniform;
use rand::thread_rng;

use fast_version::Version;
use fast_version::VersionNumber;
use fast_version::serial_compare;
use fast_version::simd::fast_compare_simd;

const SAMPLE_SIZE: usize = 1_000;

fn generate_version_part<N: VersionNumber + SampleUniform + PartialEq + PartialOrd>() -> (N, bool) {
    let min = N::min();
    let max = N::max();

    let mut rng = thread_rng();

    let ret_num: N = rng.gen_range(min..=max);

    (ret_num, ret_num == max || ret_num == min)
}

fn validity_test<N: VersionNumber + SampleUniform + PartialEq + PartialOrd + Display + Debug>() {
    let (major, major_valid): (N, bool) = generate_version_part();
    let (minor, minor_valid): (N, bool) = generate_version_part();
    let (patch, patch_valid): (N, bool) = generate_version_part();

    let expected_result = (!major_valid) && (!minor_valid) && (!patch_valid);

    let simd_result = fast_compare_simd(major, minor, patch);

    let serial_result = serial_compare(major, minor, patch);

    assert_eq!(expected_result, simd_result, "SIMD doesn't perform as expected");

    assert_eq!(
        expected_result, serial_result,
        "Serial doesn't perform as expected; Major: {}, Minor: {}, Patch: {}",
        major, minor, patch
    );

    let try_version_result = Version::try_new(major, minor, patch);
    let version_result = Version::new(major, minor, patch);

    if expected_result {
        assert!(version_result.is_ok());
        assert!(try_version_result.is_some());
    } else {
        assert!(version_result.is_err());
        assert!(
            try_version_result.is_none(),
            "Try Version Result: {:?}, Major: {}, Minor: {}, Patch: {}",
            try_version_result,
            major,
            minor,
            patch
        );
    }
}

fn simd_test<N: VersionNumber>(min: N, max: N) {
    let mut simd_result = fast_compare_simd(min, min, min);

    assert!(!simd_result);

    simd_result = fast_compare_simd(max, max, max);

    assert!(!simd_result);
}

fn whole_test<N: VersionNumber + SampleUniform + PartialEq + PartialOrd + Display + Debug>() {
    (0..SAMPLE_SIZE).for_each(|_| {
        validity_test::<N>();
    });

    let min = N::min();
    let max = N::max();

    simd_test(min, max);

    let mut serial_result = serial_compare(min, min, min);

    assert!(!serial_result);

    serial_result = serial_compare(max, max, max);

    assert!(!serial_result);
}

#[test]
fn validity_u8_test() {
    whole_test::<u8>();
}

#[test]
fn validity_u16_test() {
    whole_test::<u16>();
}

#[test]
fn validity_u32_test() {
    whole_test::<u32>();
}

#[test]
fn validity_u64_test() {
    whole_test::<u64>();
}

#[test]
fn validity_usize_test() {
    whole_test::<usize>();
}

#[test]
fn validity_i8_test() {
    whole_test::<i8>();
}

#[test]
fn validity_i16_test() {
    whole_test::<i16>();
}

#[test]
fn validity_i32_test() {
    whole_test::<i32>();
}

#[test]
fn validity_i64_test() {
    whole_test::<i64>();
}

#[test]
fn validity_isize_test() {
    whole_test::<isize>();
}
