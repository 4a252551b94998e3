//! Numeric domains and the validated version triple.

use vstd::prelude::*;

use core::cmp::Ordering;

use crate::simd::fast_compare_simd;
use crate::spec_triple_valid;

verus! {

/// A numeric domain usable for a version field: a fixed-width integer type
/// with a maximum, a minimum and an increment (the value one). The two
/// extreme values are reserved sentinels meaning "invalid"/"absent" and never
/// denote a legitimate version component.
pub trait VersionNumber: Sized + Copy {
    /// The mathematical value of this number.
    spec fn as_int(&self) -> int;

    /// The domain's maximum representable value.
    spec fn max_spec() -> int;

    /// The domain's minimum representable value.
    spec fn min_spec() -> int;

    /// Every value of the domain lies between the minimum and the maximum.
    proof fn lemma_value_in_domain(&self)
        ensures
            Self::min_spec() <= self.as_int() <= Self::max_spec();

    /// Every domain spans at least three values, so a padding lane adjacent
    /// to an extreme can never collide with the opposite sentinel.
    proof fn lemma_domain_wide()
        ensures
            Self::min_spec() + 2 <= Self::max_spec();

    fn max() -> (r: Self)
        ensures
            r.as_int() == Self::max_spec();

    fn min() -> (r: Self)
        ensures
            r.as_int() == Self::min_spec();

    fn one() -> (r: Self)
        ensures
            r.as_int() == 1;

    fn eq_value(&self, other: &Self) -> (r: bool)
        ensures
            r == (self.as_int() == other.as_int());

    fn le_value(&self, other: &Self) -> (r: bool)
        ensures
            r == (self.as_int() <= other.as_int());

    fn lt_value(&self, other: &Self) -> (r: bool)
        ensures
            r == (self.as_int() < other.as_int());

    fn add_one(&self) -> (r: Self)
        requires
            self.as_int() + 1 <= Self::max_spec(),
        ensures
            r.as_int() == self.as_int() + 1;

    fn sub_one(&self) -> (r: Self)
        requires
            Self::min_spec() <= self.as_int() - 1,
        ensures
            r.as_int() == self.as_int() - 1;
}

impl VersionNumber for u8 {
    open spec fn as_int(&self) -> int {
        *self as int
    }

    open spec fn max_spec() -> int {
        u8::MAX as int
    }

    open spec fn min_spec() -> int {
        u8::MIN as int
    }

    proof fn lemma_value_in_domain(&self) {
    }

    proof fn lemma_domain_wide() {
    }

    fn max() -> Self {
        u8::MAX
    }

    fn min() -> Self {
        u8::MIN
    }

    fn one() -> Self {
        1_u8
    }

    fn eq_value(&self, other: &Self) -> bool {
        *self == *other
    }

    fn le_value(&self, other: &Self) -> bool {
        *self <= *other
    }

    fn lt_value(&self, other: &Self) -> bool {
        *self < *other
    }

    fn add_one(&self) -> Self {
        *self + 1
    }

    fn sub_one(&self) -> Self {
        *self - 1
    }
}

impl VersionNumber for u16 {
    open spec fn as_int(&self) -> int {
        *self as int
    }

    open spec fn max_spec() -> int {
        u16::MAX as int
    }

    open spec fn min_spec() -> int {
        u16::MIN as int
    }

    proof fn lemma_value_in_domain(&self) {
    }

    proof fn lemma_domain_wide() {
    }

    fn max() -> Self {
        u16::MAX
    }

    fn min() -> Self {
        u16::MIN
    }

    fn one() -> Self {
        1_u16
    }

    fn eq_value(&self, other: &Self) -> bool {
        *self == *other
    }

    fn le_value(&self, other: &Self) -> bool {
        *self <= *other
    }

    fn lt_value(&self, other: &Self) -> bool {
        *self < *other
    }

    fn add_one(&self) -> Self {
        *self + 1
    }

    fn sub_one(&self) -> Self {
        *self - 1
    }
}

impl VersionNumber for u32 {
    open spec fn as_int(&self) -> int {
        *self as int
    }

    open spec fn max_spec() -> int {
        u32::MAX as int
    }

    open spec fn min_spec() -> int {
        u32::MIN as int
    }

    proof fn lemma_value_in_domain(&self) {
    }

    proof fn lemma_domain_wide() {
    }

    fn max() -> Self {
        u32::MAX
    }

    fn min() -> Self {
        u32::MIN
    }

    fn one() -> Self {
        1_u32
    }

    fn eq_value(&self, other: &Self) -> bool {
        *self == *other
    }

    fn le_value(&self, other: &Self) -> bool {
        *self <= *other
    }

    fn lt_value(&self, other: &Self) -> bool {
        *self < *other
    }

    fn add_one(&self) -> Self {
        *self + 1
    }

    fn sub_one(&self) -> Self {
        *self - 1
    }
}

impl VersionNumber for u64 {
    open spec fn as_int(&self) -> int {
        *self as int
    }

    open spec fn max_spec() -> int {
        u64::MAX as int
    }

    open spec fn min_spec() -> int {
        u64::MIN as int
    }

    proof fn lemma_value_in_domain(&self) {
    }

    proof fn lemma_domain_wide() {
    }

    fn max() -> Self {
        u64::MAX
    }

    fn min() -> Self {
        u64::MIN
    }

    fn one() -> Self {
        1_u64
    }

    fn eq_value(&self, other: &Self) -> bool {
        *self == *other
    }

    fn le_value(&self, other: &Self) -> bool {
        *self <= *other
    }

    fn lt_value(&self, other: &Self) -> bool {
        *self < *other
    }

    fn add_one(&self) -> Self {
        *self + 1
    }

    fn sub_one(&self) -> Self {
        *self - 1
    }
}

impl VersionNumber for usize {
    open spec fn as_int(&self) -> int {
        *self as int
    }

    open spec fn max_spec() -> int {
        usize::MAX as int
    }

    open spec fn min_spec() -> int {
        usize::MIN as int
    }

    proof fn lemma_value_in_domain(&self) {
    }

    proof fn lemma_domain_wide() {
    }

    fn max() -> Self {
        usize::MAX
    }

    fn min() -> Self {
        usize::MIN
    }

    fn one() -> Self {
        1_usize
    }

    fn eq_value(&self, other: &Self) -> bool {
        *self == *other
    }

    fn le_value(&self, other: &Self) -> bool {
        *self <= *other
    }

    fn lt_value(&self, other: &Self) -> bool {
        *self < *other
    }

    fn add_one(&self) -> Self {
        *self + 1
    }

    fn sub_one(&self) -> Self {
        *self - 1
    }
}

impl VersionNumber for i8 {
    open spec fn as_int(&self) -> int {
        *self as int
    }

    open spec fn max_spec() -> int {
        i8::MAX as int
    }

    open spec fn min_spec() -> int {
        i8::MIN as int
    }

    proof fn lemma_value_in_domain(&self) {
    }

    proof fn lemma_domain_wide() {
    }

    fn max() -> Self {
        i8::MAX
    }

    fn min() -> Self {
        i8::MIN
    }

    fn one() -> Self {
        1_i8
    }

    fn eq_value(&self, other: &Self) -> bool {
        *self == *other
    }

    fn le_value(&self, other: &Self) -> bool {
        *self <= *other
    }

    fn lt_value(&self, other: &Self) -> bool {
        *self < *other
    }

    fn add_one(&self) -> Self {
        *self + 1
    }

    fn sub_one(&self) -> Self {
        *self - 1
    }
}

impl VersionNumber for i16 {
    open spec fn as_int(&self) -> int {
        *self as int
    }

    open spec fn max_spec() -> int {
        i16::MAX as int
    }

    open spec fn min_spec() -> int {
        i16::MIN as int
    }

    proof fn lemma_value_in_domain(&self) {
    }

    proof fn lemma_domain_wide() {
    }

    fn max() -> Self {
        i16::MAX
    }

    fn min() -> Self {
        i16::MIN
    }

    fn one() -> Self {
        1_i16
    }

    fn eq_value(&self, other: &Self) -> bool {
        *self == *other
    }

    fn le_value(&self, other: &Self) -> bool {
        *self <= *other
    }

    fn lt_value(&self, other: &Self) -> bool {
        *self < *other
    }

    fn add_one(&self) -> Self {
        *self + 1
    }

    fn sub_one(&self) -> Self {
        *self - 1
    }
}

impl VersionNumber for i32 {
    open spec fn as_int(&self) -> int {
        *self as int
    }

    open spec fn max_spec() -> int {
        i32::MAX as int
    }

    open spec fn min_spec() -> int {
        i32::MIN as int
    }

    proof fn lemma_value_in_domain(&self) {
    }

    proof fn lemma_domain_wide() {
    }

    fn max() -> Self {
        i32::MAX
    }

    fn min() -> Self {
        i32::MIN
    }

    fn one() -> Self {
        1_i32
    }

    fn eq_value(&self, other: &Self) -> bool {
        *self == *other
    }

    fn le_value(&self, other: &Self) -> bool {
        *self <= *other
    }

    fn lt_value(&self, other: &Self) -> bool {
        *self < *other
    }

    fn add_one(&self) -> Self {
        *self + 1
    }

    fn sub_one(&self) -> Self {
        *self - 1
    }
}

impl VersionNumber for i64 {
    open spec fn as_int(&self) -> int {
        *self as int
    }

    open spec fn max_spec() -> int {
        i64::MAX as int
    }

    open spec fn min_spec() -> int {
        i64::MIN as int
    }

    proof fn lemma_value_in_domain(&self) {
    }

    proof fn lemma_domain_wide() {
    }

    fn max() -> Self {
        i64::MAX
    }

    fn min() -> Self {
        i64::MIN
    }

    fn one() -> Self {
        1_i64
    }

    fn eq_value(&self, other: &Self) -> bool {
        *self == *other
    }

    fn le_value(&self, other: &Self) -> bool {
        *self <= *other
    }

    fn lt_value(&self, other: &Self) -> bool {
        *self < *other
    }

    fn add_one(&self) -> Self {
        *self + 1
    }

    fn sub_one(&self) -> Self {
        *self - 1
    }
}

impl VersionNumber for isize {
    open spec fn as_int(&self) -> int {
        *self as int
    }

    open spec fn max_spec() -> int {
        isize::MAX as int
    }

    open spec fn min_spec() -> int {
        isize::MIN as int
    }

    proof fn lemma_value_in_domain(&self) {
    }

    proof fn lemma_domain_wide() {
    }

    fn max() -> Self {
        isize::MAX
    }

    fn min() -> Self {
        isize::MIN
    }

    fn one() -> Self {
        1_isize
    }

    fn eq_value(&self, other: &Self) -> bool {
        *self == *other
    }

    fn le_value(&self, other: &Self) -> bool {
        *self <= *other
    }

    fn lt_value(&self, other: &Self) -> bool {
        *self < *other
    }

    fn add_one(&self) -> Self {
        *self + 1
    }

    fn sub_one(&self) -> Self {
        *self - 1
    }
}

/// The scalar validity backend: six inequality tests against the two domain
/// sentinels, combined with logical AND.
pub fn serial_compare<N: VersionNumber>(major: N, minor: N, patch: N) -> (r: bool)
    ensures
        r == spec_triple_valid(
            major.as_int(),
            minor.as_int(),
            patch.as_int(),
            N::min_spec(),
            N::max_spec(),
        ),
{
    let max = N::max();
    let min = N::min();
    !major.eq_value(&max) && !major.eq_value(&min) && !minor.eq_value(&max) && !minor.eq_value(
        &min,
    ) && !patch.eq_value(&max) && !patch.eq_value(&min)
}

/// The precise reason a raw triple was rejected: the first field equal to a
/// sentinel, in major-before-minor-before-patch, maximum-before-minimum order.
#[derive(Debug, PartialEq, Eq, Structural)]
pub enum NewVersionError {
    MajorIsMax,
    MajorIsMin,
    MinorIsMax,
    MinorIsMin,
    PatchIsMax,
    PatchIsMin,
}

/// The first sentinel violation of a raw triple, checked in the fixed order
/// major-at-maximum, major-at-minimum, minor-at-maximum, minor-at-minimum,
/// patch-at-maximum, patch-at-minimum; `None` when the triple is valid.
pub open spec fn spec_first_violation(
    major: int,
    minor: int,
    patch: int,
    min: int,
    max: int,
) -> Option<NewVersionError> {
    if major == max {
        Some(NewVersionError::MajorIsMax)
    } else if major == min {
        Some(NewVersionError::MajorIsMin)
    } else if minor == max {
        Some(NewVersionError::MinorIsMax)
    } else if minor == min {
        Some(NewVersionError::MinorIsMin)
    } else if patch == max {
        Some(NewVersionError::PatchIsMax)
    } else if patch == min {
        Some(NewVersionError::PatchIsMin)
    } else {
        None
    }
}

/// A construction attempt reports no violation exactly when the triple is
/// free of sentinel values.
pub proof fn lemma_first_violation_none_iff_valid(
    major: int,
    minor: int,
    patch: int,
    min: int,
    max: int,
)
    ensures
        spec_first_violation(major, minor, patch, min, max) is None <==> spec_triple_valid(
            major,
            minor,
            patch,
            min,
            max,
        ),
{
}

/// An ordered (major, minor, patch) triple over one numeric domain. A
/// successfully constructed version holds no sentinel value in any field.
#[derive(Debug, Clone, Copy)]
pub struct Version<N: VersionNumber> {
    pub major: N,
    pub minor: N,
    pub patch: N,
}

impl<N: VersionNumber> Version<N> {
    pub open spec fn major_int(&self) -> int {
        self.major.as_int()
    }

    pub open spec fn minor_int(&self) -> int {
        self.minor.as_int()
    }

    pub open spec fn patch_int(&self) -> int {
        self.patch.as_int()
    }

    /// No field of the triple equals either domain sentinel.
    pub open spec fn is_valid(&self) -> bool {
        spec_triple_valid(
            self.major_int(),
            self.minor_int(),
            self.patch_int(),
            N::min_spec(),
            N::max_spec(),
        )
    }

    /// Checks each field against both sentinels in a fixed order and fails at
    /// the first violation with a tag identifying exactly which field hit
    /// which sentinel. No partial triple is ever returned on failure.
    pub fn new(major: N, minor: N, patch: N) -> (r: Result<Self, NewVersionError>)
        ensures
            match r {
                Ok(v) => {
                    &&& v.major_int() == major.as_int()
                    &&& v.minor_int() == minor.as_int()
                    &&& v.patch_int() == patch.as_int()
                    &&& v.is_valid()
                },
                Err(e) => spec_first_violation(
                    major.as_int(),
                    minor.as_int(),
                    patch.as_int(),
                    N::min_spec(),
                    N::max_spec(),
                ) == Some(e),
            },
    {
        let max = N::max();
        let min = N::min();
        if major.eq_value(&max) {
            return Err(NewVersionError::MajorIsMax);
        } else if major.eq_value(&min) {
            return Err(NewVersionError::MajorIsMin);
        }
        if minor.eq_value(&max) {
            return Err(NewVersionError::MinorIsMax);
        } else if minor.eq_value(&min) {
            return Err(NewVersionError::MinorIsMin);
        }
        if patch.eq_value(&max) {
            return Err(NewVersionError::PatchIsMax);
        } else if patch.eq_value(&min) {
            return Err(NewVersionError::PatchIsMin);
        }
        let ret = Version { major, minor, patch };
        Ok(ret)
    }

    /// Runs the validity engine once across all three fields and returns
    /// either a complete version or nothing; faster than `new` but gives no
    /// failure detail.
    pub fn try_new(major: N, minor: N, patch: N) -> (r: Option<Self>)
        ensures
            match r {
                Some(v) => {
                    &&& v.major_int() == major.as_int()
                    &&& v.minor_int() == minor.as_int()
                    &&& v.patch_int() == patch.as_int()
                    &&& v.is_valid()
                },
                None => !spec_triple_valid(
                    major.as_int(),
                    minor.as_int(),
                    patch.as_int(),
                    N::min_spec(),
                    N::max_spec(),
                ),
            },
    {
        if !fast_compare(major, minor, patch) {
            return None;
        }
        Some(Self { major, minor, patch })
    }
}

/// The build-time backend selection of the validity engine; the two backends
/// provably agree, so either answer is the scalar one.
fn fast_compare<N: VersionNumber>(major: N, minor: N, patch: N) -> (r: bool)
    ensures
        r == spec_triple_valid(
            major.as_int(),
            minor.as_int(),
            patch.as_int(),
            N::min_spec(),
            N::max_spec(),
        ),
{
    fast_compare_simd(major, minor, patch)
}

/// Lexicographic comparison of two triples: by major, then minor, then patch.
/// Total over valid and invalid triples alike, since raw triples may be
/// compared before construction.
pub open spec fn spec_cmp_versions<N: VersionNumber>(a: Version<N>, b: Version<N>) -> Ordering {
    if a.major_int() != b.major_int() {
        if a.major_int() < b.major_int() {
            Ordering::Less
        } else {
            Ordering::Greater
        }
    } else if a.minor_int() != b.minor_int() {
        if a.minor_int() < b.minor_int() {
            Ordering::Less
        } else {
            Ordering::Greater
        }
    } else {
        if a.patch_int() < b.patch_int() {
            Ordering::Less
        } else if a.patch_int() == b.patch_int() {
            Ordering::Equal
        } else {
            Ordering::Greater
        }
    }
}

/// A version produced by a successful construction re-validates as valid
/// under the validity engine, on either backend.
pub proof fn lemma_constructed_version_revalidates<N: VersionNumber>(v: Version<N>)
    requires
        v.is_valid(),
    ensures
        spec_triple_valid(
            v.major_int(),
            v.minor_int(),
            v.patch_int(),
            N::min_spec(),
            N::max_spec(),
        ),
        crate::simd::spec_vector_valid(
            v.major_int(),
            v.minor_int(),
            v.patch_int(),
            N::min_spec(),
            N::max_spec(),
        ),
{
    N::lemma_domain_wide();
    crate::simd::lemma_validity_backends_agree(
        v.major_int(),
        v.minor_int(),
        v.patch_int(),
        N::min_spec(),
        N::max_spec(),
    );
}

impl<N: VersionNumber> PartialEq for Version<N> {
    /// Field-wise equality of the three components.
    fn eq(&self, other: &Self) -> (r: bool) {
        self.major.eq_value(&other.major) && self.minor.eq_value(&other.minor)
            && self.patch.eq_value(&other.patch)
    }
}

impl<N: VersionNumber> vstd::std_specs::cmp::PartialEqSpecImpl for Version<N> {
    open spec fn obeys_eq_spec() -> bool {
        true
    }

    open spec fn eq_spec(&self, other: &Self) -> bool {
        self.major_int() == other.major_int() && self.minor_int() == other.minor_int()
            && self.patch_int() == other.patch_int()
    }
}

impl<N: VersionNumber> PartialOrd for Version<N> {
    /// Lexicographic ordering: major, then minor, then patch.
    fn partial_cmp(&self, other: &Self) -> (r: Option<Ordering>) {
        if !self.major.eq_value(&other.major) {
            if self.major.lt_value(&other.major) {
                Some(Ordering::Less)
            } else {
                Some(Ordering::Greater)
            }
        } else if !self.minor.eq_value(&other.minor) {
            if self.minor.lt_value(&other.minor) {
                Some(Ordering::Less)
            } else {
                Some(Ordering::Greater)
            }
        } else {
            if self.patch.lt_value(&other.patch) {
                Some(Ordering::Less)
            } else if self.patch.eq_value(&other.patch) {
                Some(Ordering::Equal)
            } else {
                Some(Ordering::Greater)
            }
        }
    }
}

impl<N: VersionNumber> vstd::std_specs::cmp::PartialOrdSpecImpl for Version<N> {
    open spec fn obeys_partial_cmp_spec() -> bool {
        true
    }

    open spec fn partial_cmp_spec(&self, other: &Self) -> Option<Ordering> {
        Some(spec_cmp_versions(*self, *other))
    }
}

} // verus!
