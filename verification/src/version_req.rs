//! Range clauses and the requirement builder.
//!
//! A clause asserts one one-sided bound at major, minor or patch granularity
//! (or a strict pin). The builder resolves one clause (pure) or two clauses
//! (composite: one lower, one upper) into a concrete requirement of six
//! scalars, starting from the empty requirement whose lower bounds sit at the
//! domain maximum and whose upper bounds sit at the domain minimum — a range
//! no valid version can ever satisfy.

use vstd::prelude::*;

use crate::spec_triple_in_range;
use crate::version::{Version, VersionNumber};

verus! {

/// The scalar range backend: true iff, independently for each of major,
/// minor and patch, `lower_bound <= field <= upper_bound`. Short-circuits on
/// the first failing field.
pub fn serial_version_req<N: VersionNumber>(ver: [N; 3], lower: [N; 3], upper: [N; 3]) -> (r: bool)
    ensures
        r == spec_triple_in_range(
            ver[0].as_int(),
            ver[1].as_int(),
            ver[2].as_int(),
            lower[0].as_int(),
            lower[1].as_int(),
            lower[2].as_int(),
            upper[0].as_int(),
            upper[1].as_int(),
            upper[2].as_int(),
        ),
{
    let mut i: usize = 0;
    while i < 3
        invariant
            0 <= i <= 3,
            forall|j: int|
                0 <= j < i ==> #[trigger] lower[j].as_int() <= ver[j].as_int()
                    <= upper[j].as_int(),
        decreases 3 - i,
    {
        let v = ver[i];
        let l = lower[i];
        let u = upper[i];
        let res = l.le_value(&v) && v.le_value(&u);
        if !res {
            return false;
        }
        i += 1;
    }
    true
}

/// One labeled bound rule. A clause at minor granularity carries both major
/// and minor scalars; one at patch granularity carries all three — each finer
/// clause internally re-derives the coarser bound too.
#[derive(Debug, Copy, Clone)]
pub enum VersionRegType<N: VersionNumber> {
    Strict(Version<N>),
    GreaterMajor { major: N },
    GreaterMinor { major: N, minor: N },
    GreaterPatch { major: N, minor: N, patch: N },
    GreaterEqMajor { major: N },
    GreaterEqMinor { major: N, minor: N },
    GreaterEqPatch { major: N, minor: N, patch: N },
    LesserMajor { major: N },
    LesserMinor { major: N, minor: N },
    LesserPatch { major: N, minor: N, patch: N },
    LesserEqMajor { major: N },
    LesserEqMinor { major: N, minor: N },
    LesserEqPatch { major: N, minor: N, patch: N },
}

/// Whether a clause is directionally greater: it asserts a lower bound.
pub open spec fn spec_is_greater<N: VersionNumber>(c: VersionRegType<N>) -> bool {
    match c {
        VersionRegType::GreaterMajor { .. } => true,
        VersionRegType::GreaterMinor { .. } => true,
        VersionRegType::GreaterPatch { .. } => true,
        VersionRegType::GreaterEqMajor { .. } => true,
        VersionRegType::GreaterEqMinor { .. } => true,
        VersionRegType::GreaterEqPatch { .. } => true,
        _ => false,
    }
}

/// Whether a clause is directionally lesser: it asserts an upper bound.
pub open spec fn spec_is_lower<N: VersionNumber>(c: VersionRegType<N>) -> bool {
    match c {
        VersionRegType::LesserMajor { .. } => true,
        VersionRegType::LesserMinor { .. } => true,
        VersionRegType::LesserPatch { .. } => true,
        VersionRegType::LesserEqMajor { .. } => true,
        VersionRegType::LesserEqMinor { .. } => true,
        VersionRegType::LesserEqPatch { .. } => true,
        _ => false,
    }
}

/// Whether a clause is a strict pin.
pub open spec fn spec_is_strict<N: VersionNumber>(c: VersionRegType<N>) -> bool {
    c is Strict
}

impl<N: VersionNumber> VersionRegType<N> {
    fn is_greater(&self) -> (r: bool)
        ensures
            r == spec_is_greater(*self),
    {
        match self {
            VersionRegType::GreaterMajor { .. } => true,
            VersionRegType::GreaterMinor { .. } => true,
            VersionRegType::GreaterPatch { .. } => true,
            VersionRegType::GreaterEqMajor { .. } => true,
            VersionRegType::GreaterEqMinor { .. } => true,
            VersionRegType::GreaterEqPatch { .. } => true,
            _ => false,
        }
    }

    fn is_lower(&self) -> (r: bool)
        ensures
            r == spec_is_lower(*self),
    {
        match self {
            VersionRegType::LesserMajor { .. } => true,
            VersionRegType::LesserMinor { .. } => true,
            VersionRegType::LesserPatch { .. } => true,
            VersionRegType::LesserEqMajor { .. } => true,
            VersionRegType::LesserEqMinor { .. } => true,
            VersionRegType::LesserEqPatch { .. } => true,
            _ => false,
        }
    }

    fn is_strict(&self) -> (r: bool)
        ensures
            r == spec_is_strict(*self),
    {
        match self {
            VersionRegType::Strict(_) => true,
            _ => false,
        }
    }
}

/// A requirement description: either one clause (pure) or two clauses
/// (composite: one for the lower slot, one for the higher slot).
pub enum VersionRegCompType<N: VersionNumber> {
    Pure(VersionRegType<N>),
    Composite { lower: VersionRegType<N>, higher: VersionRegType<N> },
}

/// Which clause kind produced the lower bound; recorded for introspection
/// and serialization only — it does not affect containment.
#[derive(Debug, Clone, Copy, PartialEq, Eq, Structural)]
pub enum VersionComperatorLower {
    Strict,
    GreaterMajor,
    GreaterMinor,
    GreaterPatch,
    GreaterEqMajor,
    GreaterEqMinor,
    GreaterEqPatch,
    Unset,
}

impl Default for VersionComperatorLower {
    fn default() -> (r: Self)
        ensures
            r == VersionComperatorLower::Unset,
    {
        Self::Unset
    }
}

/// Which clause kind produced the upper bound; recorded for introspection
/// and serialization only — it does not affect containment.
#[derive(Debug, Clone, Copy, PartialEq, Eq, Structural)]
pub enum VersionComperatorUpper {
    LesserMajor,
    LesserMinor,
    LesserPatch,
    LesserEqMajor,
    LesserEqMinor,
    LesserEqPatch,
    Unset,
}

impl Default for VersionComperatorUpper {
    fn default() -> (r: Self)
        ensures
            r == VersionComperatorUpper::Unset,
    {
        Self::Unset
    }
}

/// The mathematical content of a concrete requirement: the six bound scalars
/// and the two tags.
pub ghost struct ReqView {
    pub comperator_lower: VersionComperatorLower,
    pub comperator_higher: VersionComperatorUpper,
    pub major_lower: int,
    pub minor_lower: int,
    pub patch_lower: int,
    pub major_upper: int,
    pub minor_upper: int,
    pub patch_upper: int,
}

/// A resolved, concrete requirement: six scalars (major/minor/patch, lower
/// and upper bound) of one domain, plus the two tags recording which clause
/// kinds produced the bounds. Built once by a fallible conversion from a
/// requirement description, then read-only.
pub struct VersionReq<N: VersionNumber> {
    pub(crate) comperator_lower: VersionComperatorLower,
    pub(crate) comperator_higher: VersionComperatorUpper,
    pub(crate) major_lower: N,
    pub(crate) minor_lower: N,
    pub(crate) patch_lower: N,
    pub(crate) major_upper: N,
    pub(crate) minor_upper: N,
    pub(crate) patch_upper: N,
}

impl<N: VersionNumber> View for VersionReq<N> {
    type V = ReqView;

    open(crate) spec fn view(&self) -> ReqView {
        ReqView {
            comperator_lower: self.comperator_lower,
            comperator_higher: self.comperator_higher,
            major_lower: self.major_lower.as_int(),
            minor_lower: self.minor_lower.as_int(),
            patch_lower: self.patch_lower.as_int(),
            major_upper: self.major_upper.as_int(),
            minor_upper: self.minor_upper.as_int(),
            patch_upper: self.patch_upper.as_int(),
        }
    }
}

/// The empty requirement: every lower bound at the domain maximum, every
/// upper bound at the domain minimum, both tags unset. Intentionally
/// unsatisfiable — no valid version can be at or beyond a sentinel.
pub open spec fn spec_default_req(min: int, max: int) -> ReqView {
    ReqView {
        comperator_lower: VersionComperatorLower::Unset,
        comperator_higher: VersionComperatorUpper::Unset,
        major_lower: max,
        minor_lower: max,
        patch_lower: max,
        major_upper: min,
        minor_upper: min,
        patch_upper: min,
    }
}

/// Whether a version's three fields all lie within a requirement's bounds.
pub open spec fn spec_req_matches(req: ReqView, v_major: int, v_minor: int, v_patch: int) -> bool {
    spec_triple_in_range(
        v_major,
        v_minor,
        v_patch,
        req.major_lower,
        req.minor_lower,
        req.patch_lower,
        req.major_upper,
        req.minor_upper,
        req.patch_upper,
    )
}

/// A boundary input is rejected when it equals either domain sentinel, the
/// minimum checked before the maximum: offsetting past a sentinel is
/// undefined, and a sentinel can never denote a legitimate bound.
pub open spec fn spec_validate(input: int, min: int, max: int) -> Result<(), VersionRegError> {
    if input == min {
        Err(VersionRegError::MinValueNotAllowed)
    } else if input == max {
        Err(VersionRegError::MaxValueNotAllowed)
    } else {
        Ok(())
    }
}

/// What applying a strict pin does: lower and upper bounds of all three
/// fields are set to the pinned version, the lower tag records the pin and
/// the upper tag is left as it was.
pub open spec fn spec_apply_strict(req: ReqView, major: int, minor: int, patch: int) -> Result<
    ReqView,
    VersionRegError,
> {
    Ok(
        ReqView {
            major_lower: major,
            minor_lower: minor,
            patch_lower: patch,
            major_upper: major,
            minor_upper: minor,
            patch_upper: patch,
            comperator_lower: VersionComperatorLower::Strict,
            ..req
        },
    )
}

pub open spec fn spec_apply_greater_major(req: ReqView, major: int, min: int, max: int) -> Result<
    ReqView,
    VersionRegError,
> {
    match spec_validate(major, min, max) {
        Err(e) => Err(e),
        Ok(_) => Ok(
            ReqView {
                major_lower: major + 1,
                comperator_lower: VersionComperatorLower::GreaterMajor,
                ..req
            },
        ),
    }
}

pub open spec fn spec_apply_greater_minor(
    req: ReqView,
    major: int,
    minor: int,
    min: int,
    max: int,
) -> Result<ReqView, VersionRegError> {
    match spec_validate(minor, min, max) {
        Err(e) => Err(e),
        Ok(_) => match spec_apply_greater_major(req, major, min, max) {
            Err(e) => Err(e),
            Ok(r1) => Ok(
                ReqView {
                    minor_lower: minor + 1,
                    comperator_lower: VersionComperatorLower::GreaterMinor,
                    ..r1
                },
            ),
        },
    }
}

pub open spec fn spec_apply_greater_patch(
    req: ReqView,
    major: int,
    minor: int,
    patch: int,
    min: int,
    max: int,
) -> Result<ReqView, VersionRegError> {
    match spec_validate(patch, min, max) {
        Err(e) => Err(e),
        Ok(_) => match spec_apply_greater_minor(req, major, minor, min, max) {
            Err(e) => Err(e),
            Ok(r1) => Ok(
                ReqView {
                    patch_lower: patch + 1,
                    comperator_lower: VersionComperatorLower::GreaterPatch,
                    ..r1
                },
            ),
        },
    }
}

pub open spec fn spec_apply_greater_eq_major(req: ReqView, major: int, min: int, max: int) -> Result<
    ReqView,
    VersionRegError,
> {
    match spec_validate(major, min, max) {
        Err(e) => Err(e),
        Ok(_) => Ok(
            ReqView {
                major_lower: major,
                comperator_lower: VersionComperatorLower::GreaterEqMajor,
                ..req
            },
        ),
    }
}

pub open spec fn spec_apply_greater_eq_minor(
    req: ReqView,
    major: int,
    minor: int,
    min: int,
    max: int,
) -> Result<ReqView, VersionRegError> {
    match spec_validate(minor, min, max) {
        Err(e) => Err(e),
        Ok(_) => match spec_apply_greater_eq_major(req, major, min, max) {
            Err(e) => Err(e),
            Ok(r1) => Ok(
                ReqView {
                    minor_lower: minor,
                    comperator_lower: VersionComperatorLower::GreaterEqMinor,
                    ..r1
                },
            ),
        },
    }
}

pub open spec fn spec_apply_greater_eq_patch(
    req: ReqView,
    major: int,
    minor: int,
    patch: int,
    min: int,
    max: int,
) -> Result<ReqView, VersionRegError> {
    match spec_validate(patch, min, max) {
        Err(e) => Err(e),
        Ok(_) => match spec_apply_greater_eq_minor(req, major, minor, min, max) {
            Err(e) => Err(e),
            Ok(r1) => Ok(
                ReqView {
                    patch_lower: patch,
                    comperator_lower: VersionComperatorLower::GreaterEqPatch,
                    ..r1
                },
            ),
        },
    }
}

pub open spec fn spec_apply_lesser_major(req: ReqView, major: int, min: int, max: int) -> Result<
    ReqView,
    VersionRegError,
> {
    match spec_validate(major, min, max) {
        Err(e) => Err(e),
        Ok(_) => Ok(
            ReqView {
                major_upper: major - 1,
                comperator_higher: VersionComperatorUpper::LesserMajor,
                ..req
            },
        ),
    }
}

pub open spec fn spec_apply_lesser_minor(
    req: ReqView,
    major: int,
    minor: int,
    min: int,
    max: int,
) -> Result<ReqView, VersionRegError> {
    match spec_validate(minor, min, max) {
        Err(e) => Err(e),
        Ok(_) => match spec_apply_lesser_major(req, major, min, max) {
            Err(e) => Err(e),
            Ok(r1) => Ok(
                ReqView {
                    minor_upper: minor - 1,
                    comperator_higher: VersionComperatorUpper::LesserMinor,
                    ..r1
                },
            ),
        },
    }
}

pub open spec fn spec_apply_lesser_patch(
    req: ReqView,
    major: int,
    minor: int,
    patch: int,
    min: int,
    max: int,
) -> Result<ReqView, VersionRegError> {
    match spec_validate(patch, min, max) {
        Err(e) => Err(e),
        Ok(_) => match spec_apply_lesser_minor(req, major, minor, min, max) {
            Err(e) => Err(e),
            Ok(r1) => Ok(
                ReqView {
                    patch_upper: patch - 1,
                    comperator_higher: VersionComperatorUpper::LesserPatch,
                    ..r1
                },
            ),
        },
    }
}

pub open spec fn spec_apply_lesser_eq_major(req: ReqView, major: int, min: int, max: int) -> Result<
    ReqView,
    VersionRegError,
> {
    match spec_validate(major, min, max) {
        Err(e) => Err(e),
        Ok(_) => Ok(
            ReqView {
                major_upper: major,
                comperator_higher: VersionComperatorUpper::LesserEqMajor,
                ..req
            },
        ),
    }
}

pub open spec fn spec_apply_lesser_eq_minor(
    req: ReqView,
    major: int,
    minor: int,
    min: int,
    max: int,
) -> Result<ReqView, VersionRegError> {
    match spec_validate(minor, min, max) {
        Err(e) => Err(e),
        Ok(_) => match spec_apply_lesser_eq_major(req, major, min, max) {
            Err(e) => Err(e),
            Ok(r1) => Ok(
                ReqView {
                    minor_upper: minor,
                    comperator_higher: VersionComperatorUpper::LesserEqMinor,
                    ..r1
                },
            ),
        },
    }
}

pub open spec fn spec_apply_lesser_eq_patch(
    req: ReqView,
    major: int,
    minor: int,
    patch: int,
    min: int,
    max: int,
) -> Result<ReqView, VersionRegError> {
    match spec_validate(patch, min, max) {
        Err(e) => Err(e),
        Ok(_) => match spec_apply_lesser_eq_minor(req, major, minor, min, max) {
            Err(e) => Err(e),
            Ok(r1) => Ok(
                ReqView {
                    patch_upper: patch,
                    comperator_higher: VersionComperatorUpper::LesserEqPatch,
                    ..r1
                },
            ),
        },
    }
}

/// What applying one clause does to a requirement's bounds and tags.
pub open spec fn spec_apply<N: VersionNumber>(
    req: ReqView,
    clause: VersionRegType<N>,
    min: int,
    max: int,
) -> Result<ReqView, VersionRegError> {
    match clause {
        VersionRegType::Strict(v) => spec_apply_strict(
            req,
            v.major_int(),
            v.minor_int(),
            v.patch_int(),
        ),
        VersionRegType::GreaterMajor { major } => spec_apply_greater_major(
            req,
            major.as_int(),
            min,
            max,
        ),
        VersionRegType::GreaterMinor { major, minor } => spec_apply_greater_minor(
            req,
            major.as_int(),
            minor.as_int(),
            min,
            max,
        ),
        VersionRegType::GreaterPatch { major, minor, patch } => spec_apply_greater_patch(
            req,
            major.as_int(),
            minor.as_int(),
            patch.as_int(),
            min,
            max,
        ),
        VersionRegType::GreaterEqMajor { major } => spec_apply_greater_eq_major(
            req,
            major.as_int(),
            min,
            max,
        ),
        VersionRegType::GreaterEqMinor { major, minor } => spec_apply_greater_eq_minor(
            req,
            major.as_int(),
            minor.as_int(),
            min,
            max,
        ),
        VersionRegType::GreaterEqPatch { major, minor, patch } => spec_apply_greater_eq_patch(
            req,
            major.as_int(),
            minor.as_int(),
            patch.as_int(),
            min,
            max,
        ),
        VersionRegType::LesserMajor { major } => spec_apply_lesser_major(
            req,
            major.as_int(),
            min,
            max,
        ),
        VersionRegType::LesserMinor { major, minor } => spec_apply_lesser_minor(
            req,
            major.as_int(),
            minor.as_int(),
            min,
            max,
        ),
        VersionRegType::LesserPatch { major, minor, patch } => spec_apply_lesser_patch(
            req,
            major.as_int(),
            minor.as_int(),
            patch.as_int(),
            min,
            max,
        ),
        VersionRegType::LesserEqMajor { major } => spec_apply_lesser_eq_major(
            req,
            major.as_int(),
            min,
            max,
        ),
        VersionRegType::LesserEqMinor { major, minor } => spec_apply_lesser_eq_minor(
            req,
            major.as_int(),
            minor.as_int(),
            min,
            max,
        ),
        VersionRegType::LesserEqPatch { major, minor, patch } => spec_apply_lesser_eq_patch(
            req,
            major.as_int(),
            minor.as_int(),
            patch.as_int(),
            min,
            max,
        ),
    }
}

/// How the result and the final state of a clause application relate to its
/// mathematical description: on success the state becomes the described one,
/// on failure the described error comes back and the state is untouched.
pub open spec fn apply_result_matches(
    pre: ReqView,
    post: ReqView,
    r: Result<(), VersionRegError>,
    s: Result<ReqView, VersionRegError>,
) -> bool {
    match r {
        Ok(_) => s == Ok::<ReqView, VersionRegError>(post),
        Err(e) => s == Err::<ReqView, VersionRegError>(e) && post == pre,
    }
}

fn validate_num<N: VersionNumber>(input: N) -> (r: Result<(), VersionRegError>)
    ensures
        r == spec_validate(input.as_int(), N::min_spec(), N::max_spec()),
{
    let min = N::min();
    let max = N::max();
    if input.eq_value(&min) {
        return Err(VersionRegError::MinValueNotAllowed);
    } else if input.eq_value(&max) {
        return Err(VersionRegError::MaxValueNotAllowed);
    }
    Ok(())
}

impl<N: VersionNumber> VersionReq<N> {
    /// True iff the version lies inside this requirement's concrete range,
    /// independently per field.
    pub fn fits(&self, version: Version<N>) -> (r: bool)
        ensures
            r == spec_req_matches(
                self@,
                version.major_int(),
                version.minor_int(),
                version.patch_int(),
            ),
    {
        let ver = [version.major, version.minor, version.patch];
        let lower = [self.major_lower, self.minor_lower, self.patch_lower];
        let upper = [self.major_upper, self.minor_upper, self.patch_upper];
        let ret = serial_version_req(ver, lower, upper);
        ret
    }

    fn apply_reg_type(&mut self, reg_type: VersionRegType<N>) -> (r: Result<(), VersionRegError>)
        ensures
            apply_result_matches(
                old(self)@,
                final(self)@,
                r,
                spec_apply(old(self)@, reg_type, N::min_spec(), N::max_spec()),
            ),
    {
        match reg_type {
            VersionRegType::Strict(version) => self.apply_strict(version),
            VersionRegType::GreaterMajor { major } => self.apply_greater_major(major),
            VersionRegType::GreaterMinor { major, minor } => self.apply_greater_minor(
                major,
                minor,
            ),
            VersionRegType::GreaterPatch { major, minor, patch } => self.apply_greater_patch(
                major,
                minor,
                patch,
            ),
            VersionRegType::GreaterEqMajor { major } => self.apply_greater_eq_major(major),
            VersionRegType::GreaterEqMinor { major, minor } => self.apply_greater_eq_minor(
                major,
                minor,
            ),
            VersionRegType::GreaterEqPatch { major, minor, patch } => self.apply_greater_eq_patch(
                major,
                minor,
                patch,
            ),
            VersionRegType::LesserMajor { major } => self.apply_lesser_major(major),
            VersionRegType::LesserMinor { major, minor } => self.apply_lesser_minor(major, minor),
            VersionRegType::LesserPatch { major, minor, patch } => self.apply_lesser_patch(
                major,
                minor,
                patch,
            ),
            VersionRegType::LesserEqMajor { major } => self.apply_lesser_eq_major(major),
            VersionRegType::LesserEqMinor { major, minor } => self.apply_lesser_eq_minor(
                major,
                minor,
            ),
            VersionRegType::LesserEqPatch { major, minor, patch } => self.apply_lesser_eq_patch(
                major,
                minor,
                patch,
            ),
        }
    }

    fn apply_strict(&mut self, reg_type: Version<N>) -> (r: Result<(), VersionRegError>)
        ensures
            apply_result_matches(
                old(self)@,
                final(self)@,
                r,
                spec_apply_strict(
                    old(self)@,
                    reg_type.major_int(),
                    reg_type.minor_int(),
                    reg_type.patch_int(),
                ),
            ),
    {
        let major = reg_type.major;
        let minor = reg_type.minor;
        let patch = reg_type.patch;
        self.major_lower = major;
        self.minor_lower = minor;
        self.patch_lower = patch;
        self.major_upper = major;
        self.minor_upper = minor;
        self.patch_upper = patch;
        self.comperator_lower = VersionComperatorLower::Strict;
        Ok(())
    }

    fn apply_greater_major(&mut self, major: N) -> (r: Result<(), VersionRegError>)
        ensures
            apply_result_matches(
                old(self)@,
                final(self)@,
                r,
                spec_apply_greater_major(old(self)@, major.as_int(), N::min_spec(), N::max_spec()),
            ),
    {
        match validate_num(major) {
            Err(e) => {
                return Err(e);
            },
            Ok(_) => {},
        }
        proof {
            major.lemma_value_in_domain();
        }
        let min_major = major.add_one();
        self.major_lower = min_major;
        self.comperator_lower = VersionComperatorLower::GreaterMajor;
        Ok(())
    }

    fn apply_greater_minor(&mut self, major: N, minor: N) -> (r: Result<(), VersionRegError>)
        ensures
            apply_result_matches(
                old(self)@,
                final(self)@,
                r,
                spec_apply_greater_minor(
                    old(self)@,
                    major.as_int(),
                    minor.as_int(),
                    N::min_spec(),
                    N::max_spec(),
                ),
            ),
    {
        match validate_num(minor) {
            Err(e) => {
                return Err(e);
            },
            Ok(_) => {},
        }
        match self.apply_greater_major(major) {
            Err(e) => {
                return Err(e);
            },
            Ok(_) => {},
        }
        proof {
            minor.lemma_value_in_domain();
        }
        let min_minor = minor.add_one();
        self.minor_lower = min_minor;
        self.comperator_lower = VersionComperatorLower::GreaterMinor;
        Ok(())
    }

    fn apply_greater_patch(&mut self, major: N, minor: N, patch: N) -> (r: Result<
        (),
        VersionRegError,
    >)
        ensures
            apply_result_matches(
                old(self)@,
                final(self)@,
                r,
                spec_apply_greater_patch(
                    old(self)@,
                    major.as_int(),
                    minor.as_int(),
                    patch.as_int(),
                    N::min_spec(),
                    N::max_spec(),
                ),
            ),
    {
        match validate_num(patch) {
            Err(e) => {
                return Err(e);
            },
            Ok(_) => {},
        }
        match self.apply_greater_minor(major, minor) {
            Err(e) => {
                return Err(e);
            },
            Ok(_) => {},
        }
        proof {
            patch.lemma_value_in_domain();
        }
        let min_patch = patch.add_one();
        self.patch_lower = min_patch;
        self.comperator_lower = VersionComperatorLower::GreaterPatch;
        Ok(())
    }

    fn apply_greater_eq_major(&mut self, major: N) -> (r: Result<(), VersionRegError>)
        ensures
            apply_result_matches(
                old(self)@,
                final(self)@,
                r,
                spec_apply_greater_eq_major(
                    old(self)@,
                    major.as_int(),
                    N::min_spec(),
                    N::max_spec(),
                ),
            ),
    {
        match validate_num(major) {
            Err(e) => {
                return Err(e);
            },
            Ok(_) => {},
        }
        self.major_lower = major;
        self.comperator_lower = VersionComperatorLower::GreaterEqMajor;
        Ok(())
    }

    fn apply_greater_eq_minor(&mut self, major: N, minor: N) -> (r: Result<(), VersionRegError>)
        ensures
            apply_result_matches(
                old(self)@,
                final(self)@,
                r,
                spec_apply_greater_eq_minor(
                    old(self)@,
                    major.as_int(),
                    minor.as_int(),
                    N::min_spec(),
                    N::max_spec(),
                ),
            ),
    {
        match validate_num(minor) {
            Err(e) => {
                return Err(e);
            },
            Ok(_) => {},
        }
        match self.apply_greater_eq_major(major) {
            Err(e) => {
                return Err(e);
            },
            Ok(_) => {},
        }
        self.minor_lower = minor;
        self.comperator_lower = VersionComperatorLower::GreaterEqMinor;
        Ok(())
    }

    fn apply_greater_eq_patch(&mut self, major: N, minor: N, patch: N) -> (r: Result<
        (),
        VersionRegError,
    >)
        ensures
            apply_result_matches(
                old(self)@,
                final(self)@,
                r,
                spec_apply_greater_eq_patch(
                    old(self)@,
                    major.as_int(),
                    minor.as_int(),
                    patch.as_int(),
                    N::min_spec(),
                    N::max_spec(),
                ),
            ),
    {
        match validate_num(patch) {
            Err(e) => {
                return Err(e);
            },
            Ok(_) => {},
        }
        match self.apply_greater_eq_minor(major, minor) {
            Err(e) => {
                return Err(e);
            },
            Ok(_) => {},
        }
        self.patch_lower = patch;
        self.comperator_lower = VersionComperatorLower::GreaterEqPatch;
        Ok(())
    }

    fn apply_lesser_major(&mut self, major: N) -> (r: Result<(), VersionRegError>)
        ensures
            apply_result_matches(
                old(self)@,
                final(self)@,
                r,
                spec_apply_lesser_major(old(self)@, major.as_int(), N::min_spec(), N::max_spec()),
            ),
    {
        match validate_num(major) {
            Err(e) => {
                return Err(e);
            },
            Ok(_) => {},
        }
        proof {
            major.lemma_value_in_domain();
        }
        let max_major = major.sub_one();
        self.major_upper = max_major;
        self.comperator_higher = VersionComperatorUpper::LesserMajor;
        Ok(())
    }

    fn apply_lesser_minor(&mut self, major: N, minor: N) -> (r: Result<(), VersionRegError>)
        ensures
            apply_result_matches(
                old(self)@,
                final(self)@,
                r,
                spec_apply_lesser_minor(
                    old(self)@,
                    major.as_int(),
                    minor.as_int(),
                    N::min_spec(),
                    N::max_spec(),
                ),
            ),
    {
        match validate_num(minor) {
            Err(e) => {
                return Err(e);
            },
            Ok(_) => {},
        }
        match self.apply_lesser_major(major) {
            Err(e) => {
                return Err(e);
            },
            Ok(_) => {},
        }
        proof {
            minor.lemma_value_in_domain();
        }
        let max_minor = minor.sub_one();
        self.minor_upper = max_minor;
        self.comperator_higher = VersionComperatorUpper::LesserMinor;
        Ok(())
    }

    fn apply_lesser_patch(&mut self, major: N, minor: N, patch: N) -> (r: Result<
        (),
        VersionRegError,
    >)
        ensures
            apply_result_matches(
                old(self)@,
                final(self)@,
                r,
                spec_apply_lesser_patch(
                    old(self)@,
                    major.as_int(),
                    minor.as_int(),
                    patch.as_int(),
                    N::min_spec(),
                    N::max_spec(),
                ),
            ),
    {
        match validate_num(patch) {
            Err(e) => {
                return Err(e);
            },
            Ok(_) => {},
        }
        match self.apply_lesser_minor(major, minor) {
            Err(e) => {
                return Err(e);
            },
            Ok(_) => {},
        }
        proof {
            patch.lemma_value_in_domain();
        }
        let max_patch = patch.sub_one();
        self.patch_upper = max_patch;
        self.comperator_higher = VersionComperatorUpper::LesserPatch;
        Ok(())
    }

    fn apply_lesser_eq_major(&mut self, major: N) -> (r: Result<(), VersionRegError>)
        ensures
            apply_result_matches(
                old(self)@,
                final(self)@,
                r,
                spec_apply_lesser_eq_major(
                    old(self)@,
                    major.as_int(),
                    N::min_spec(),
                    N::max_spec(),
                ),
            ),
    {
        match validate_num(major) {
            Err(e) => {
                return Err(e);
            },
            Ok(_) => {},
        }
        self.major_upper = major;
        self.comperator_higher = VersionComperatorUpper::LesserEqMajor;
        Ok(())
    }

    fn apply_lesser_eq_minor(&mut self, major: N, minor: N) -> (r: Result<(), VersionRegError>)
        ensures
            apply_result_matches(
                old(self)@,
                final(self)@,
                r,
                spec_apply_lesser_eq_minor(
                    old(self)@,
                    major.as_int(),
                    minor.as_int(),
                    N::min_spec(),
                    N::max_spec(),
                ),
            ),
    {
        match validate_num(minor) {
            Err(e) => {
                return Err(e);
            },
            Ok(_) => {},
        }
        match self.apply_lesser_eq_major(major) {
            Err(e) => {
                return Err(e);
            },
            Ok(_) => {},
        }
        self.minor_upper = minor;
        self.comperator_higher = VersionComperatorUpper::LesserEqMinor;
        Ok(())
    }

    fn apply_lesser_eq_patch(&mut self, major: N, minor: N, patch: N) -> (r: Result<
        (),
        VersionRegError,
    >)
        ensures
            apply_result_matches(
                old(self)@,
                final(self)@,
                r,
                spec_apply_lesser_eq_patch(
                    old(self)@,
                    major.as_int(),
                    minor.as_int(),
                    patch.as_int(),
                    N::min_spec(),
                    N::max_spec(),
                ),
            ),
    {
        match validate_num(patch) {
            Err(e) => {
                return Err(e);
            },
            Ok(_) => {},
        }
        match self.apply_lesser_eq_minor(major, minor) {
            Err(e) => {
                return Err(e);
            },
            Ok(_) => {},
        }
        self.patch_upper = patch;
        self.comperator_higher = VersionComperatorUpper::LesserEqPatch;
        Ok(())
    }
}

impl<N: VersionNumber> Default for VersionReq<N> {
    /// The empty, intentionally unsatisfiable requirement.
    fn default() -> (r: Self)
        ensures
            r@ == spec_default_req(N::min_spec(), N::max_spec()),
    {
        let min = N::min();
        let max = N::max();
        VersionReq {
            comperator_lower: VersionComperatorLower::Unset,
            comperator_higher: VersionComperatorUpper::Unset,
            major_lower: max,
            minor_lower: max,
            patch_lower: max,
            major_upper: min,
            minor_upper: min,
            patch_upper: min,
        }
    }
}

/// The reasons a requirement cannot be built: role misplacement in a
/// composite, or a boundary value at a domain sentinel.
#[derive(Debug, PartialEq, Eq, Structural)]
pub enum VersionRegError {
    StrictNotAllowedInComposite,
    LowerOnPlaceOfGreater,
    GreaterOnPlaceOfLower,
    MinValueNotAllowed,
    MaxValueNotAllowed,
}

/// What resolving a requirement description yields: the bounds and tags of
/// the built requirement, or the first error encountered.
pub open spec fn spec_try_from<N: VersionNumber>(
    value: VersionRegCompType<N>,
    min: int,
    max: int,
) -> Result<ReqView, VersionRegError> {
    let d = spec_default_req(min, max);
    match value {
        VersionRegCompType::Pure(inner) => spec_apply(d, inner, min, max),
        VersionRegCompType::Composite { lower, higher } => {
            if spec_is_lower(lower) {
                Err(VersionRegError::LowerOnPlaceOfGreater)
            } else if spec_is_strict(lower) || spec_is_strict(higher) {
                Err(VersionRegError::StrictNotAllowedInComposite)
            } else if spec_is_greater(higher) {
                Err(VersionRegError::GreaterOnPlaceOfLower)
            } else {
                match spec_apply(d, lower, min, max) {
                    Err(e) => Err(e),
                    Ok(r1) => spec_apply(r1, higher, min, max),
                }
            }
        },
    }
}

impl<N: VersionNumber> VersionReq<N> {
    /// Resolves a requirement description into a concrete requirement,
    /// starting from the empty requirement.
    ///
    /// Role placement in a composite is validated before anything is
    /// applied. The convention is the natural one: the `lower` slot supplies
    /// the lower bound and must hold a directionally greater clause, the
    /// `higher` slot supplies the upper bound and must hold a directionally
    /// lesser clause, and a strict pin is disallowed in either slot — a
    /// composite is two independent open bounds, not a pin. On any violation
    /// the conversion fails with the specific tag and no partially-applied
    /// state escapes.
    pub fn try_from(value: VersionRegCompType<N>) -> (r: Result<Self, VersionRegError>)
        ensures
            ({
                let s = spec_try_from(value, N::min_spec(), N::max_spec());
                match r {
                    Ok(req) => s == Ok::<ReqView, VersionRegError>(req@),
                    Err(e) => s == Err::<ReqView, VersionRegError>(e),
                }
            }),
    {
        let mut ret = Self::default();
        match value {
            VersionRegCompType::Pure(inner) => {
                match ret.apply_reg_type(inner) {
                    Err(e) => {
                        return Err(e);
                    },
                    Ok(_) => {},
                }
            },
            VersionRegCompType::Composite { lower, higher } => {
                if lower.is_lower() {
                    return Err(VersionRegError::LowerOnPlaceOfGreater);
                }
                if lower.is_strict() || higher.is_strict() {
                    return Err(VersionRegError::StrictNotAllowedInComposite);
                }
                if higher.is_greater() {
                    return Err(VersionRegError::GreaterOnPlaceOfLower);
                }
                match ret.apply_reg_type(lower) {
                    Err(e) => {
                        return Err(e);
                    },
                    Ok(_) => {},
                }
                match ret.apply_reg_type(higher) {
                    Err(e) => {
                        return Err(e);
                    },
                    Ok(_) => {},
                }
            },
        }
        Ok(ret)
    }
}

/// The empty requirement matches no valid version: a valid version is never
/// at a sentinel, so it can neither reach a lower bound at the domain
/// maximum nor stay under an upper bound at the domain minimum.
pub proof fn lemma_default_req_matches_nothing<N: VersionNumber>(v: Version<N>)
    requires
        v.is_valid(),
    ensures
        !spec_req_matches(
            spec_default_req(N::min_spec(), N::max_spec()),
            v.major_int(),
            v.minor_int(),
            v.patch_int(),
        ),
{
    v.major.lemma_value_in_domain();
}

/// A pure requirement built from a strict pin matches exactly the pinned
/// triple and rejects every other triple.
pub proof fn lemma_pure_strict_matches_exactly<N: VersionNumber>(
    v: Version<N>,
    w_major: int,
    w_minor: int,
    w_patch: int,
)
    ensures
        ({
            let s = spec_try_from(
                VersionRegCompType::Pure(VersionRegType::Strict(v)),
                N::min_spec(),
                N::max_spec(),
            );
            &&& s is Ok
            &&& (spec_req_matches(s->Ok_0, w_major, w_minor, w_patch) <==> (w_major
                == v.major_int() && w_minor == v.minor_int() && w_patch == v.patch_int()))
        }),
{
}

/// A pure requirement built from a greater clause at major granularity
/// alone rejects every valid version: cascading flows only from coarser to
/// finer granularity within a single applied clause, so the minor and patch
/// lower bounds stay at the unsatisfiable empty-range default. Callers who
/// want "major above m, any minor and patch" must use the patch-granularity
/// clause with minor and patch adjacent to the domain minimum.
pub proof fn lemma_pure_greater_major_matches_nothing<N: VersionNumber>(major: N, v: Version<N>)
    requires
        v.is_valid(),
    ensures
        ({
            let s = spec_try_from(
                VersionRegCompType::Pure(VersionRegType::GreaterMajor { major }),
                N::min_spec(),
                N::max_spec(),
            );
            s is Ok ==> !spec_req_matches(s->Ok_0, v.major_int(), v.minor_int(), v.patch_int())
        }),
{
    v.minor.lemma_value_in_domain();
    let min = N::min_spec();
    let max = N::max_spec();
    let d = spec_default_req(min, max);
    let s = spec_try_from(
        VersionRegCompType::Pure(VersionRegType::GreaterMajor { major }),
        min,
        max,
    );
    assert(s == spec_apply_greater_major(d, major.as_int(), min, max));
    if s is Ok {
        assert(s->Ok_0.minor_lower == max);
        assert(v.minor_int() < max);
    }
}

/// A greater clause whose boundary sits at a domain sentinel fails with the
/// value-at-sentinel error for that sentinel, before any offset arithmetic
/// could overflow or wrap.
pub proof fn lemma_greater_major_at_sentinel_fails<N: VersionNumber>(major: N)
    requires
        major.as_int() == N::max_spec() || major.as_int() == N::min_spec(),
    ensures
        spec_try_from(
            VersionRegCompType::Pure(VersionRegType::GreaterMajor { major }),
            N::min_spec(),
            N::max_spec(),
        ) == if major.as_int() == N::min_spec() {
            Err::<ReqView, VersionRegError>(VersionRegError::MinValueNotAllowed)
        } else {
            Err::<ReqView, VersionRegError>(VersionRegError::MaxValueNotAllowed)
        },
{
}

/// Composite construction rejects any description with a strict pin in
/// either slot, regardless of the other clause.
pub proof fn lemma_composite_rejects_strict<N: VersionNumber>(
    lower: VersionRegType<N>,
    higher: VersionRegType<N>,
)
    requires
        spec_is_strict(lower) || spec_is_strict(higher),
    ensures
        spec_try_from(
            VersionRegCompType::Composite { lower, higher },
            N::min_spec(),
            N::max_spec(),
        ) is Err,
{
}

} // verus!
