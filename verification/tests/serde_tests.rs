use fast_version::Version;
use fast_version::VersionReq;
use fast_version::serde::VersionReqSerde;
use fast_version::serde::VersionSerde;
use fast_version::serde::VersionSerdeError;
use fast_version::version_req::VersionRegCompType;
use fast_version::version_req::VersionRegType;

#[test]
fn version_u64_round_trips_through_wire_form() {
    let v = Version::new(10u64, 20, 30).unwrap();
    let wire = VersionSerde::from(v);
    assert_eq!(wire.major, 10);
    assert_eq!(wire.minor, 20);
    assert_eq!(wire.patch, 30);
    let back = Version::<u64>::from(wire);
    assert_eq!(back, v);
}

#[test]
fn version_u32_widens_and_narrows() {
    let v = Version::new(1u32, 2, 3).unwrap();
    let wire = VersionSerde::from(v);
    let back = Version::<u32>::try_from(wire).unwrap();
    assert_eq!(back, v);
}

#[test]
fn narrowing_to_u32_fails_on_too_large_values() {
    let wire = VersionSerde { major: u32::MAX as u64 + 1, minor: 2, patch: 3 };
    let r = Version::<u32>::try_from(wire);
    assert!(matches!(r, Err(VersionSerdeError::NumberToBig)));
    // The failing field may be any of the three.
    let wire = VersionSerde { major: 1, minor: 2, patch: u64::MAX };
    let r = Version::<u32>::try_from(wire);
    assert!(matches!(r, Err(VersionSerdeError::NumberToBig)));
}

#[test]
fn version_usize_widens_and_narrows() {
    let v = Version::new(7usize, 8, 9).unwrap();
    let wire = VersionSerde::from(v);
    let back = Version::<usize>::try_from(wire).unwrap();
    assert_eq!(back, v);
}

#[test]
fn requirement_round_trips_through_wire_form() {
    let req = VersionReq::try_from(
        VersionRegCompType::Composite {
            lower: VersionRegType::GreaterEqPatch { major: 1u64, minor: 2, patch: 3 },
            higher: VersionRegType::LesserPatch { major: 4u64, minor: 5, patch: 6 },
        },
    )
    .unwrap();
    let wire = VersionReqSerde::from(req);
    let back = VersionReq::<u64>::from(wire);
    // Containment is preserved across the round trip.
    assert!(back.fits(Version::new(1u64, 2, 3).unwrap()));
    assert!(back.fits(Version::new(3u64, 4, 5).unwrap()));
    assert!(!back.fits(Version::new(4u64, 5, 6).unwrap()));
    assert!(!back.fits(Version::new(1u64, 2, 2).unwrap()));
}
