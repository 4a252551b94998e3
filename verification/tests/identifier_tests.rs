use fast_version::Version;
use fast_version::VersionReq;
use fast_version::protocol_identifier::GenericProtocol;
use fast_version::protocol_identifier::ProtocolIdentifier;
use fast_version::protocol_identifier::ProtocolIdentifierSerde;
use fast_version::protocol_identifier::ProtocolIdentifierSerdeError;
use fast_version::protocol_name::ProtocolName;
use fast_version::protocol_name::ProtocolNameError;
use fast_version::serde::VersionReqSerde;
use fast_version::serde::VersionSerde;
use fast_version::version_req::VersionRegCompType;
use fast_version::version_req::VersionRegType;

fn sample_req() -> VersionReq<u64> {
    let pinned = Version::new(1u64, 1, 1).unwrap();
    VersionReq::try_from(VersionRegCompType::Pure(VersionRegType::Strict(pinned))).unwrap()
}

#[test]
fn identifier_bundles_its_parts() {
    let name = ProtocolName::new("pingp".to_string()).unwrap();
    let version = Version::new(1u64, 1, 1).unwrap();
    let id = ProtocolIdentifier::new(name, version, sample_req());
    assert_eq!(id.name.to_str(), "pingp");
    assert_eq!(id.version, version);
    assert!(id.version_req.fits(version));
}

struct SampleProtocol;

impl GenericProtocol for SampleProtocol {
    fn version() -> Version<u64> {
        Version::new(1u64, 1, 1).unwrap()
    }

    fn version_req() -> VersionReq<u64> {
        sample_req()
    }

    fn name() -> ProtocolName {
        ProtocolName::new("pingp".to_string()).unwrap()
    }
}

#[test]
fn version_identifier_assembles_the_declared_parts() {
    let id = SampleProtocol::version_identifier();
    assert_eq!(id.name.to_str(), "pingp");
    assert_eq!(id.version, Version::new(1u64, 1, 1).unwrap());
    assert!(id.version_req.fits(id.version));
    assert!(!id.version_req.fits(Version::new(2u64, 1, 1).unwrap()));
}

#[test]
fn identifier_round_trips_through_its_wire_form() {
    let id = SampleProtocol::version_identifier();
    let wire = ProtocolIdentifierSerde::from(id);
    let back = ProtocolIdentifier::try_from(wire).unwrap();
    assert_eq!(back.name.to_str(), "pingp");
    assert_eq!(back.version, Version::new(1u64, 1, 1).unwrap());
    assert!(back.version_req.fits(back.version));
}

#[test]
fn reading_back_a_bad_name_fails_with_the_name_error() {
    let version = VersionSerde { major: 1, minor: 1, patch: 1 };
    let version_req = VersionReqSerde::from(sample_req());
    let wire = ProtocolIdentifierSerde::new("toolong".to_string(), version, version_req);
    let r = ProtocolIdentifier::try_from(wire);
    assert!(matches!(
        r,
        Err(ProtocolIdentifierSerdeError::ProtocolNameError(ProtocolNameError::NameToShort(7)))
    ));
}
