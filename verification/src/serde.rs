//! The flat numeric serialization boundary.
//!
//! Versions and concrete requirements can be represented with a single
//! widened unsigned 64-bit encoding per field, portable across all ten
//! domains, with an explicit range-checked narrowing conversion back to a
//! target domain that fails when a stored value exceeds the target domain's
//! maximum. This is the only place width-narrowing failures can occur; the
//! core never silently truncates or wraps.

use vstd::prelude::*;

use crate::version::Version;
use crate::version_req::{ReqView, VersionReq};

verus! {

/// A numeric domain representable at the serialization boundary.
pub trait SerdeNumber {

}

impl SerdeNumber for u8 {

}

impl SerdeNumber for u16 {

}

impl SerdeNumber for u32 {

}

impl SerdeNumber for u64 {

}

impl SerdeNumber for usize {

}

impl SerdeNumber for i8 {

}

impl SerdeNumber for i16 {

}

impl SerdeNumber for i32 {

}

impl SerdeNumber for i64 {

}

impl SerdeNumber for isize {

}

/// The widened wire form of a version triple: one unsigned 64-bit value per
/// field.
pub struct VersionSerde {
    pub major: u64,
    pub minor: u64,
    pub patch: u64,
}

impl From<Version<u64>> for VersionSerde {
    /// Widening a 64-bit version is field-for-field.
    fn from(v: Version<u64>) -> (r: Self) {
        Self { major: v.major, minor: v.minor, patch: v.patch }
    }
}

impl vstd::std_specs::convert::FromSpecImpl<Version<u64>> for VersionSerde {
    open spec fn obeys_from_spec() -> bool {
        true
    }

    open spec fn from_spec(v: Version<u64>) -> Self {
        VersionSerde { major: v.major, minor: v.minor, patch: v.patch }
    }
}

impl From<VersionSerde> for Version<u64> {
    /// Narrowing to the 64-bit domain never loses width.
    fn from(v: VersionSerde) -> (r: Self) {
        Self { major: v.major, minor: v.minor, patch: v.patch }
    }
}

impl vstd::std_specs::convert::FromSpecImpl<VersionSerde> for Version<u64> {
    open spec fn obeys_from_spec() -> bool {
        true
    }

    open spec fn from_spec(v: VersionSerde) -> Self {
        Version { major: v.major, minor: v.minor, patch: v.patch }
    }
}

impl From<Version<u32>> for VersionSerde {
    fn from(v: Version<u32>) -> (r: Self) {
        let major = v.major as u64;
        let minor = v.minor as u64;
        let patch = v.patch as u64;
        Self { major, minor, patch }
    }
}

impl vstd::std_specs::convert::FromSpecImpl<Version<u32>> for VersionSerde {
    open spec fn obeys_from_spec() -> bool {
        true
    }

    open spec fn from_spec(v: Version<u32>) -> Self {
        VersionSerde { major: v.major as u64, minor: v.minor as u64, patch: v.patch as u64 }
    }
}

/// The one failure of the serialization boundary: a stored value exceeds the
/// target domain's maximum.
#[derive(Debug, PartialEq, Eq, Structural)]
pub enum VersionSerdeError {
    NumberToBig,
}

/// Range-checked narrowing of one widened field to the 32-bit domain.
fn convert_to_u32(input: u64) -> (r: Result<u32, VersionSerdeError>)
    ensures
        input <= u32::MAX ==> r == Ok::<u32, VersionSerdeError>(input as u32),
        input > u32::MAX ==> r == Err::<u32, VersionSerdeError>(VersionSerdeError::NumberToBig),
{
    if input > u32::MAX as u64 {
        return Err(VersionSerdeError::NumberToBig);
    }
    Ok(input as u32)
}

impl TryFrom<VersionSerde> for Version<u32> {
    type Error = VersionSerdeError;

    /// Narrowing to the 32-bit domain, checked field by field in major,
    /// minor, patch order.
    fn try_from(value: VersionSerde) -> (r: Result<Self, VersionSerdeError>) {
        let major = match convert_to_u32(value.major) {
            Ok(m) => m,
            Err(e) => {
                return Err(e);
            },
        };
        let minor = match convert_to_u32(value.minor) {
            Ok(m) => m,
            Err(e) => {
                return Err(e);
            },
        };
        let patch = match convert_to_u32(value.patch) {
            Ok(p) => p,
            Err(e) => {
                return Err(e);
            },
        };
        Ok(Self { major, minor, patch })
    }
}

impl vstd::std_specs::convert::TryFromSpecImpl<VersionSerde> for Version<u32> {
    open spec fn obeys_try_from_spec() -> bool {
        true
    }

    open spec fn try_from_spec(v: VersionSerde) -> Result<Self, VersionSerdeError> {
        if v.major > u32::MAX || v.minor > u32::MAX || v.patch > u32::MAX {
            Err(VersionSerdeError::NumberToBig)
        } else {
            Ok(Version { major: v.major as u32, minor: v.minor as u32, patch: v.patch as u32 })
        }
    }
}

impl From<Version<usize>> for VersionSerde {
    fn from(v: Version<usize>) -> (r: Self) {
        let major = v.major as u64;
        let minor = v.minor as u64;
        let patch = v.patch as u64;
        Self { major, minor, patch }
    }
}

impl vstd::std_specs::convert::FromSpecImpl<Version<usize>> for VersionSerde {
    open spec fn obeys_from_spec() -> bool {
        true
    }

    open spec fn from_spec(v: Version<usize>) -> Self {
        VersionSerde { major: v.major as u64, minor: v.minor as u64, patch: v.patch as u64 }
    }
}

/// Range-checked narrowing of one widened field to the pointer-sized domain.
fn convert_to_usize(input: u64) -> (r: Result<usize, VersionSerdeError>)
    ensures
        input <= usize::MAX ==> r == Ok::<usize, VersionSerdeError>(input as usize),
        input > usize::MAX ==> r == Err::<usize, VersionSerdeError>(
            VersionSerdeError::NumberToBig,
        ),
{
    if input > usize::MAX as u64 {
        return Err(VersionSerdeError::NumberToBig);
    }
    Ok(input as usize)
}

impl TryFrom<VersionSerde> for Version<usize> {
    type Error = VersionSerdeError;

    /// Narrowing to the pointer-sized domain, checked field by field in
    /// major, minor, patch order.
    fn try_from(value: VersionSerde) -> (r: Result<Self, VersionSerdeError>) {
        let major = match convert_to_usize(value.major) {
            Ok(m) => m,
            Err(e) => {
                return Err(e);
            },
        };
        let minor = match convert_to_usize(value.minor) {
            Ok(m) => m,
            Err(e) => {
                return Err(e);
            },
        };
        let patch = match convert_to_usize(value.patch) {
            Ok(p) => p,
            Err(e) => {
                return Err(e);
            },
        };
        Ok(Self { major, minor, patch })
    }
}

impl vstd::std_specs::convert::TryFromSpecImpl<VersionSerde> for Version<usize> {
    open spec fn obeys_try_from_spec() -> bool {
        true
    }

    open spec fn try_from_spec(v: VersionSerde) -> Result<Self, VersionSerdeError> {
        if v.major > usize::MAX || v.minor > usize::MAX || v.patch > usize::MAX {
            Err(VersionSerdeError::NumberToBig)
        } else {
            Ok(
                Version {
                    major: v.major as usize,
                    minor: v.minor as usize,
                    patch: v.patch as usize,
                },
            )
        }
    }
}

/// The widened wire form of a concrete requirement: the two tags and one
/// unsigned 64-bit value per bound scalar.
pub struct VersionReqSerde {
    pub(crate) comperator_lower: crate::version_req::VersionComperatorLower,
    pub(crate) comperator_higher: crate::version_req::VersionComperatorUpper,
    pub(crate) major_lower: u64,
    pub(crate) minor_lower: u64,
    pub(crate) patch_lower: u64,
    pub(crate) major_upper: u64,
    pub(crate) minor_upper: u64,
    pub(crate) patch_upper: u64,
}

impl View for VersionReqSerde {
    type V = ReqView;

    open(crate) spec fn view(&self) -> ReqView {
        ReqView {
            comperator_lower: self.comperator_lower,
            comperator_higher: self.comperator_higher,
            major_lower: self.major_lower as int,
            minor_lower: self.minor_lower as int,
            patch_lower: self.patch_lower as int,
            major_upper: self.major_upper as int,
            minor_upper: self.minor_upper as int,
            patch_upper: self.patch_upper as int,
        }
    }
}

impl VersionReqSerde {
    /// Widens a 64-bit concrete requirement into its wire form,
    /// field-for-field: bounds, tags and therefore containment are kept.
    pub fn from(v: VersionReq<u64>) -> (r: Self)
        ensures
            r@ == v@,
    {
        Self {
            comperator_lower: v.comperator_lower,
            comperator_higher: v.comperator_higher,
            major_lower: v.major_lower,
            minor_lower: v.minor_lower,
            patch_lower: v.patch_lower,
            major_upper: v.major_upper,
            minor_upper: v.minor_upper,
            patch_upper: v.patch_upper,
        }
    }
}

impl VersionReq<u64> {
    /// Reads a wire-form requirement back into the 64-bit domain,
    /// field-for-field: bounds, tags and therefore containment are kept.
    pub fn from(v: VersionReqSerde) -> (r: Self)
        ensures
            r@ == v@,
    {
        Self {
            comperator_lower: v.comperator_lower,
            comperator_higher: v.comperator_higher,
            major_lower: v.major_lower,
            minor_lower: v.minor_lower,
            patch_lower: v.patch_lower,
            major_upper: v.major_upper,
            minor_upper: v.minor_upper,
            patch_upper: v.patch_upper,
        }
    }
}

} // verus!
