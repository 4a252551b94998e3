//! Versioned-component identification: numeric (major, minor, patch) version
//! triples over ten integer domains, a sentinel-based validity engine with
//! scalar and vectorized backends that provably agree, and a range-requirement
//! builder that resolves bound clauses into concrete acceptance ranges.

use vstd::prelude::*;

pub mod pingpong;
pub mod protocol_identifier;
pub mod protocol_name;
pub mod serde;
pub mod simd;
pub mod version_req;
pub mod version;

pub use version::NewVersionError;
pub use version::Version;
pub use version::VersionNumber;
pub use version::serial_compare;
pub use version_req::VersionReq;

verus! {

/// Whether each of the three fields of a version triple avoids both domain
/// sentinels (the domain maximum and the domain minimum).
pub open spec fn spec_triple_valid(major: int, minor: int, patch: int, min: int, max: int) -> bool {
    major != max && major != min && minor != max && minor != min && patch != max && patch != min
}

/// Whether each of the three fields of a version triple lies between its
/// lower and its upper bound, both inclusive, independently per field.
pub open spec fn spec_triple_in_range(
    v_major: int,
    v_minor: int,
    v_patch: int,
    l_major: int,
    l_minor: int,
    l_patch: int,
    u_major: int,
    u_minor: int,
    u_patch: int,
) -> bool {
    l_major <= v_major <= u_major && l_minor <= v_minor <= u_minor && l_patch <= v_patch
        <= u_patch
}

} // verus!
