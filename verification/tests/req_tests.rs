use fast_version::Version;
use fast_version::VersionReq;
use fast_version::version_req::VersionRegCompType;
use fast_version::version_req::VersionRegError;
use fast_version::version_req::VersionRegType;
use fast_version::version_req::serial_version_req;
use fast_version::simd::simd_version_req;

fn v(major: i64, minor: i64, patch: i64) -> Version<i64> {
    Version::new(major, minor, patch).unwrap()
}

#[test]
fn strict_requirement_matches_exactly() {
    let pinned = v(1, 1, 1);
    let req = VersionReq::try_from(VersionRegCompType::Pure(VersionRegType::Strict(pinned)))
        .unwrap();
    assert!(req.fits(v(1, 1, 1)));
    assert!(!req.fits(v(1, 1, 2)));
    assert!(!req.fits(v(1, 0, 1)));
    assert!(!req.fits(v(2, 1, 1)));
}

#[test]
fn composite_major_bounds_accepts_and_applies_major_range() {
    // A greater-or-equal clause belongs in the lower slot and a lesser
    // clause in the higher slot: construction must succeed.
    let req = VersionReq::try_from(
        VersionRegCompType::Composite {
            lower: VersionRegType::GreaterEqMajor { major: 5i64 },
            higher: VersionRegType::LesserMajor { major: 10i64 },
        },
    )
    .unwrap();
    // Versions outside the major range are rejected.
    assert!(!req.fits(v(4, 9, 9)));
    assert!(!req.fits(v(10, 0, 0)));
    // Major-granularity clauses leave the minor and patch bounds at the
    // unsatisfiable empty-range default, so even a version with the major
    // field in range is rejected.
    assert!(!req.fits(v(7, 0, 0)));
}

#[test]
fn pure_greater_major_alone_rejects_everything() {
    // Cascading flows only from coarser to finer granularity within one
    // clause, so a lone major-granularity lower bound leaves the minor and
    // patch lower bounds at the unsatisfiable default.
    let req = VersionReq::try_from(
        VersionRegCompType::Pure(VersionRegType::GreaterMajor { major: 5i64 }),
    )
    .unwrap();
    assert!(!req.fits(v(6, 0, 0)));
    assert!(!req.fits(v(6, 1, 1)));
    assert!(!req.fits(v(i64::MAX - 1, i64::MAX - 1, i64::MAX - 1)));
}

#[test]
fn greater_patch_cascade_rederives_coarser_bounds() {
    // A patch-granularity clause re-derives the major and minor bounds too.
    let req = VersionReq::try_from(
        VersionRegCompType::Composite {
            lower: VersionRegType::GreaterPatch { major: 1i64, minor: 2, patch: 3 },
            higher: VersionRegType::LesserEqPatch { major: 100i64, minor: 100, patch: 100 },
        },
    )
    .unwrap();
    assert!(req.fits(v(2, 3, 4)));
    assert!(!req.fits(v(1, 3, 4)));
    assert!(!req.fits(v(2, 2, 4)));
    assert!(!req.fits(v(2, 3, 3)));
}

#[test]
fn greater_major_at_sentinels_fails_with_value_errors() {
    for (major, expected) in [
        (i64::MAX, VersionRegError::MaxValueNotAllowed),
        (i64::MIN, VersionRegError::MinValueNotAllowed),
    ] {
        let r = VersionReq::try_from(
            VersionRegCompType::Pure(VersionRegType::GreaterMajor { major }),
        );
        assert_eq!(r.err().unwrap(), expected);
    }
    let r = VersionReq::try_from(
        VersionRegCompType::Pure(VersionRegType::GreaterMajor { major: u8::MAX }),
    );
    assert_eq!(r.err().unwrap(), VersionRegError::MaxValueNotAllowed);
    let r = VersionReq::try_from(
        VersionRegCompType::Pure(VersionRegType::GreaterMajor { major: u8::MIN }),
    );
    assert_eq!(r.err().unwrap(), VersionRegError::MinValueNotAllowed);
    let r = VersionReq::try_from(
        VersionRegCompType::Pure(VersionRegType::GreaterMajor { major: usize::MAX }),
    );
    assert_eq!(r.err().unwrap(), VersionRegError::MaxValueNotAllowed);
}

#[test]
fn composite_rejects_strict_in_either_slot() {
    let pinned = v(1, 1, 1);
    // Strict in the lower slot, any clause in the higher slot.
    let r = VersionReq::try_from(
        VersionRegCompType::Composite {
            lower: VersionRegType::Strict(pinned),
            higher: VersionRegType::LesserMajor { major: 10i64 },
        },
    );
    assert_eq!(r.err().unwrap(), VersionRegError::StrictNotAllowedInComposite);
    // Strict in the higher slot, a well-placed clause in the lower slot.
    let r = VersionReq::try_from(
        VersionRegCompType::Composite {
            lower: VersionRegType::GreaterEqMajor { major: 5i64 },
            higher: VersionRegType::Strict(pinned),
        },
    );
    assert_eq!(r.err().unwrap(), VersionRegError::StrictNotAllowedInComposite);
    // Strict in both slots.
    let r = VersionReq::try_from(
        VersionRegCompType::Composite {
            lower: VersionRegType::Strict(pinned),
            higher: VersionRegType::Strict(pinned),
        },
    );
    assert_eq!(r.err().unwrap(), VersionRegError::StrictNotAllowedInComposite);
    // A misplaced lesser clause in the lower slot is reported before the
    // strict check.
    let r = VersionReq::try_from(
        VersionRegCompType::Composite {
            lower: VersionRegType::LesserMajor { major: 10i64 },
            higher: VersionRegType::Strict(pinned),
        },
    );
    assert_eq!(r.err().unwrap(), VersionRegError::LowerOnPlaceOfGreater);
}

#[test]
fn composite_role_polarity_is_pinned() {
    // The lower slot must hold a directionally greater clause.
    let r = VersionReq::try_from(
        VersionRegCompType::Composite {
            lower: VersionRegType::LesserEqMajor { major: 5i64 },
            higher: VersionRegType::LesserMajor { major: 10i64 },
        },
    );
    assert_eq!(r.err().unwrap(), VersionRegError::LowerOnPlaceOfGreater);
    // The higher slot must hold a directionally lesser clause.
    let r = VersionReq::try_from(
        VersionRegCompType::Composite {
            lower: VersionRegType::GreaterEqMajor { major: 5i64 },
            higher: VersionRegType::GreaterMajor { major: 10i64 },
        },
    );
    assert_eq!(r.err().unwrap(), VersionRegError::GreaterOnPlaceOfLower);
}

#[test]
fn composite_patch_granularity_gives_a_usable_range() {
    let req = VersionReq::try_from(
        VersionRegCompType::Composite {
            lower: VersionRegType::GreaterEqPatch { major: 1i64, minor: 0, patch: 0 },
            higher: VersionRegType::LesserEqPatch { major: 2i64, minor: 5, patch: 9 },
        },
    )
    .unwrap();
    assert!(req.fits(v(1, 0, 0)));
    assert!(req.fits(v(2, 3, 4)));
    assert!(req.fits(v(2, 5, 9)));
    assert!(!req.fits(v(0, 9, 9)));
    assert!(!req.fits(v(2, 6, 0)));
    assert!(!req.fits(v(2, 5, 10)));
}

#[test]
fn default_requirement_matches_nothing() {
    let req = VersionReq::<i32>::default();
    assert!(!req.fits(v32(0, 0, 0)));
    assert!(!req.fits(v32(1, 2, 3)));
    assert!(!req.fits(v32(i32::MAX - 1, i32::MAX - 1, i32::MAX - 1)));
    assert!(!req.fits(v32(i32::MIN + 1, i32::MIN + 1, i32::MIN + 1)));
}

fn v32(major: i32, minor: i32, patch: i32) -> Version<i32> {
    Version::new(major, minor, patch).unwrap()
}

#[test]
fn lesser_minor_cascade_validates_minor_before_major() {
    // The finer boundary value is validated before the cascade runs, so a
    // sentinel minor is reported even when the major is also a sentinel.
    let r = VersionReq::try_from(
        VersionRegCompType::Pure(VersionRegType::LesserMinor { major: i16::MAX, minor: i16::MIN }),
    );
    assert_eq!(r.err().unwrap(), VersionRegError::MinValueNotAllowed);
    // With a clean minor, the cascaded major validation reports next.
    let r = VersionReq::try_from(
        VersionRegCompType::Pure(VersionRegType::LesserMinor { major: i16::MAX, minor: 3 }),
    );
    assert_eq!(r.err().unwrap(), VersionRegError::MaxValueNotAllowed);
}

#[test]
fn range_backends_agree_on_samples() {
    let samples: [[i64; 3]; 5] = [
        [1, 2, 3],
        [i64::MIN, 0, i64::MAX],
        [5, 5, 5],
        [0, -1, 1],
        [i64::MAX, i64::MAX, i64::MAX],
    ];
    for ver in samples {
        for lower in samples {
            for upper in samples {
                assert_eq!(
                    serial_version_req(ver, lower, upper),
                    simd_version_req(ver, lower, upper)
                );
            }
        }
    }
}

#[test]
fn fits_checks_each_field_independently() {
    let req = VersionReq::try_from(
        VersionRegCompType::Composite {
            lower: VersionRegType::GreaterEqPatch { major: 2i64, minor: 2, patch: 2 },
            higher: VersionRegType::LesserEqPatch { major: 4i64, minor: 4, patch: 4 },
        },
    )
    .unwrap();
    // Fields are bounded independently: a lexicographically larger version
    // with one field out of range is rejected.
    assert!(req.fits(v(3, 3, 3)));
    assert!(!req.fits(v(3, 5, 3)));
    assert!(!req.fits(v(3, 3, 1)));
    assert!(!req.fits(v(5, 2, 2)));
}
