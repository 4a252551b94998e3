//! Protocol identification: the versioned identity a protocol presents to
//! its peers, and its flat wire form.

use vstd::prelude::*;

use crate::protocol_name::{
    PROTOCOL_NAME_MIN_LENGTH, ProtocolName, ProtocolNameError, invalid_chars_of, spec_byte_len,
};
use crate::serde::{VersionReqSerde, VersionSerde, VersionSerdeError};
use crate::version::Version;
use crate::version_req::{ReqView, VersionReq};

verus! {

/// The numeric domain protocol identities are declared over.
pub type DefaultVersionNumber = u64;

/// A protocol's identity: its name, the version it speaks and the versions
/// it accepts from a peer.
pub struct ProtocolIdentifier {
    pub name: ProtocolName,
    pub version: Version<DefaultVersionNumber>,
    pub version_req: VersionReq<DefaultVersionNumber>,
}

impl ProtocolIdentifier {
    /// Bundles a name, a version and a requirement into an identity.
    pub fn new(
        name: ProtocolName,
        version: Version<DefaultVersionNumber>,
        version_req: VersionReq<DefaultVersionNumber>,
    ) -> (r: Self)
        ensures
            r.name@ == name@,
            r.version == version,
            r.version_req@ == version_req@,
    {
        Self { name, version, version_req }
    }
}

/// A protocol's compile-time identity, for its implementors to supply: the
/// version it speaks, the versions it accepts, and its name.
pub trait GenericProtocol {
    fn version() -> Version<DefaultVersionNumber>;

    fn version_req() -> VersionReq<DefaultVersionNumber>;

    fn name() -> ProtocolName;

    /// The bundled identity, assembled from the three parts.
    fn version_identifier() -> ProtocolIdentifier {
        let version = Self::version();
        let version_req = Self::version_req();
        let name = Self::name();
        ProtocolIdentifier::new(name, version, version_req)
    }
}

/// The reasons a wire-form identity cannot be read back: a failed version
/// narrowing, a rejected name, or a failed requirement conversion.
#[derive(Debug)]
pub enum ProtocolIdentifierSerdeError {
    VersionSerde(VersionSerdeError),
    ProtocolNameError(ProtocolNameError),
    VersionReqSerde,
}

/// The wire form of a protocol identity: the raw name and the widened
/// version and requirement.
pub struct ProtocolIdentifierSerde {
    name: String,
    version: VersionSerde,
    version_req: VersionReqSerde,
}

impl ProtocolIdentifierSerde {
    /// The characters of the carried name.
    pub closed spec fn name_view(&self) -> Seq<char> {
        self.name@
    }

    /// The three widened version fields, as (major, minor, patch).
    pub closed spec fn version_view(&self) -> (u64, u64, u64) {
        (self.version.major, self.version.minor, self.version.patch)
    }

    /// The carried requirement's bounds and tags.
    pub closed spec fn req_view(&self) -> ReqView {
        self.version_req@
    }

    /// Assembles a wire-form identity from received parts; the name is not
    /// validated until it is read back.
    pub fn new(name: String, version: VersionSerde, version_req: VersionReqSerde) -> (r: Self)
        ensures
            r.name_view() == name@,
            r.version_view() == (version.major, version.minor, version.patch),
            r.req_view() == version_req@,
    {
        Self { name, version, version_req }
    }

    /// Widens a protocol identity into its wire form; nothing is lost.
    pub fn from(pi: ProtocolIdentifier) -> (r: Self)
        ensures
            r.name_view() == pi.name@,
            r.version_view() == (pi.version.major, pi.version.minor, pi.version.patch),
            r.req_view() == pi.version_req@,
    {
        let name = pi.name.to_string();
        let version = VersionSerde::from(pi.version);
        let version_req = VersionReqSerde::from(pi.version_req);
        Self { name, version, version_req }
    }
}

impl ProtocolIdentifier {
    /// Reads a wire-form identity back, re-validating the name; the version
    /// and the requirement come from the 64-bit domain, so their conversions
    /// are lossless and only the name checks can fail.
    pub fn try_from(value: ProtocolIdentifierSerde) -> (r: Result<
        Self,
        ProtocolIdentifierSerdeError,
    >)
        ensures
            ({
                let length_ok = spec_byte_len(value.name_view()) <= PROTOCOL_NAME_MIN_LENGTH;
                let invalid = invalid_chars_of(value.name_view());
                match r {
                    Ok(pi) => {
                        &&& length_ok
                        &&& invalid.len() == 0
                        &&& pi.name@ == value.name_view()
                        &&& (pi.version.major, pi.version.minor, pi.version.patch)
                            == value.version_view()
                        &&& pi.version_req@ == value.req_view()
                    },
                    Err(e) => match e {
                        ProtocolIdentifierSerdeError::ProtocolNameError(ne) => match ne {
                            ProtocolNameError::NameToShort(l) => !length_ok && l == spec_byte_len(
                                value.name_view(),
                            ),
                            ProtocolNameError::InvalidCharacter(s) => length_ok && invalid.len()
                                != 0 && s@ == invalid,
                        },
                        _ => false,
                    },
                }
            }),
    {
        let name = match ProtocolName::new(value.name) {
            Ok(n) => n,
            Err(e) => {
                return Err(ProtocolIdentifierSerdeError::ProtocolNameError(e));
            },
        };
        let version = Version::<DefaultVersionNumber>::from(value.version);
        let version_req = VersionReq::<DefaultVersionNumber>::from(value.version_req);
        let ret = Self { name, version, version_req };
        Ok(ret)
    }
}

} // verus!
