//! Lane-wise vectorized backends of the validity and range engines.
//!
//! Each backend loads the three version fields plus one padding lane into a
//! four-lane vector, compares lane-wise, combines the per-lane masks with AND
//! and requires every lane true. The padding lane is chosen so that it can
//! never trip a mask: the value adjacent to the domain maximum for the
//! validity engine, the domain's increment for the range engine. The
//! vectorized backends provably return the identical boolean to the scalar
//! backends for every input in every domain.

use vstd::prelude::*;

use crate::spec_triple_in_range;
use crate::spec_triple_valid;
use crate::version::VersionNumber;

verus! {

/// Per-lane inequality mask of two equal-length lane vectors.
pub open spec fn spec_lanes_ne(a: Seq<int>, b: Seq<int>) -> Seq<bool> {
    Seq::new(a.len(), |i: int| a[i] != b[i])
}

/// Per-lane greater-or-equal mask of two equal-length lane vectors.
pub open spec fn spec_lanes_ge(a: Seq<int>, b: Seq<int>) -> Seq<bool> {
    Seq::new(a.len(), |i: int| a[i] >= b[i])
}

/// Per-lane less-or-equal mask of two equal-length lane vectors.
pub open spec fn spec_lanes_le(a: Seq<int>, b: Seq<int>) -> Seq<bool> {
    Seq::new(a.len(), |i: int| a[i] <= b[i])
}

/// Lane-wise AND of two masks.
pub open spec fn spec_mask_and(a: Seq<bool>, b: Seq<bool>) -> Seq<bool> {
    Seq::new(a.len(), |i: int| a[i] && b[i])
}

/// Whether every lane of a mask is true.
pub open spec fn spec_mask_all(m: Seq<bool>) -> bool {
    forall|i: int| 0 <= i < m.len() ==> m[i]
}

/// The mathematical values of a vector of domain numbers.
pub open spec fn lane_ints<N: VersionNumber>(a: Seq<N>) -> Seq<int> {
    Seq::new(a.len(), |i: int| a[i].as_int())
}

fn lanes_ne<N: VersionNumber>(a: &[N; 4], b: &[N; 4]) -> (r: [bool; 4])
    ensures
        r@ =~= spec_lanes_ne(lane_ints(a@), lane_ints(b@)),
{
    [
        !a[0].eq_value(&b[0]),
        !a[1].eq_value(&b[1]),
        !a[2].eq_value(&b[2]),
        !a[3].eq_value(&b[3]),
    ]
}

fn lanes_ge<N: VersionNumber>(a: &[N; 4], b: &[N; 4]) -> (r: [bool; 4])
    ensures
        r@ =~= spec_lanes_ge(lane_ints(a@), lane_ints(b@)),
{
    [b[0].le_value(&a[0]), b[1].le_value(&a[1]), b[2].le_value(&a[2]), b[3].le_value(&a[3])]
}

fn lanes_le<N: VersionNumber>(a: &[N; 4], b: &[N; 4]) -> (r: [bool; 4])
    ensures
        r@ =~= spec_lanes_le(lane_ints(a@), lane_ints(b@)),
{
    [a[0].le_value(&b[0]), a[1].le_value(&b[1]), a[2].le_value(&b[2]), a[3].le_value(&b[3])]
}

fn mask_and(a: &[bool; 4], b: &[bool; 4]) -> (r: [bool; 4])
    ensures
        r@ =~= spec_mask_and(a@, b@),
{
    [a[0] && b[0], a[1] && b[1], a[2] && b[2], a[3] && b[3]]
}

fn mask_all(m: &[bool; 4]) -> (r: bool)
    ensures
        r == spec_mask_all(m@),
{
    let r = m[0] && m[1] && m[2] && m[3];
    proof {
        if r {
            assert forall|i: int| 0 <= i < m@.len() implies m@[i] by {
                if i == 0 {
                } else if i == 1 {
                } else if i == 2 {
                } else {
                    assert(i == 3);
                }
            }
        }
    }
    r
}

/// The four lanes the vectorized validity engine loads: the three fields and
/// a padding lane one increment below the domain maximum.
pub open spec fn spec_validity_lanes(major: int, minor: int, patch: int, max: int) -> Seq<int> {
    seq![major, minor, patch, max - 1]
}

/// What the vectorized validity backend computes: compare the lanes for
/// inequality against a vector filled with the maximum sentinel and against
/// one filled with the minimum sentinel, AND the two masks, and require every
/// lane true.
pub open spec fn spec_vector_valid(
    major: int,
    minor: int,
    patch: int,
    min: int,
    max: int,
) -> bool {
    let lanes = spec_validity_lanes(major, minor, patch, max);
    let maxs = seq![max, max, max, max];
    let mins = seq![min, min, min, min];
    spec_mask_all(spec_mask_and(spec_lanes_ne(lanes, maxs), spec_lanes_ne(lanes, mins)))
}

/// The scalar and vectorized validity backends answer identically for every
/// triple of every domain: the lane computation over the padded vector equals
/// the six-test scalar conjunction.
pub proof fn lemma_validity_backends_agree(major: int, minor: int, patch: int, min: int, max: int)
    requires
        min + 2 <= max,
    ensures
        spec_vector_valid(major, minor, patch, min, max) == spec_triple_valid(
            major,
            minor,
            patch,
            min,
            max,
        ),
{
    let lanes = spec_validity_lanes(major, minor, patch, max);
    let maxs = seq![max, max, max, max];
    let mins = seq![min, min, min, min];
    let m = spec_mask_and(spec_lanes_ne(lanes, maxs), spec_lanes_ne(lanes, mins));
    assert(m[0] == (major != max && major != min));
    assert(m[1] == (minor != max && minor != min));
    assert(m[2] == (patch != max && patch != min));
    assert(m[3]);
    if m[0] && m[1] && m[2] {
        assert forall|i: int| 0 <= i < m.len() implies m[i] by {
            if i == 0 {
            } else if i == 1 {
            } else if i == 2 {
            } else {
                assert(i == 3);
            }
        }
    }
}

/// The backends agree on every triple of every domain: the domain-level
/// form of the agreement law, with the domain width premise discharged.
pub proof fn lemma_validity_backends_agree_for_domain<N: VersionNumber>(
    major: N,
    minor: N,
    patch: N,
)
    ensures
        spec_vector_valid(
            major.as_int(),
            minor.as_int(),
            patch.as_int(),
            N::min_spec(),
            N::max_spec(),
        ) == spec_triple_valid(
            major.as_int(),
            minor.as_int(),
            patch.as_int(),
            N::min_spec(),
            N::max_spec(),
        ),
{
    N::lemma_domain_wide();
    lemma_validity_backends_agree(
        major.as_int(),
        minor.as_int(),
        patch.as_int(),
        N::min_spec(),
        N::max_spec(),
    );
}

/// The vectorized validity backend.
///
/// Loads `{major, minor, patch, pad}` into one four-lane vector, where the
/// padding lane is the domain maximum less one increment so it can never
/// equal either sentinel, and masks the lanes against both sentinels.
pub fn fast_compare_simd<N: VersionNumber>(major: N, minor: N, patch: N) -> (r: bool)
    ensures
        r == spec_vector_valid(
            major.as_int(),
            minor.as_int(),
            patch.as_int(),
            N::min_spec(),
            N::max_spec(),
        ),
        r == spec_triple_valid(
            major.as_int(),
            minor.as_int(),
            patch.as_int(),
            N::min_spec(),
            N::max_spec(),
        ),
{
    proof {
        N::lemma_domain_wide();
        lemma_validity_backends_agree(
            major.as_int(),
            minor.as_int(),
            patch.as_int(),
            N::min_spec(),
            N::max_spec(),
        );
    }
    let max = N::max();
    let min = N::min();
    let pad = max.sub_one();
    let max_arr = [max, max, max, max];
    let min_arr = [min, min, min, min];
    let simd_arr = [major, minor, patch, pad];
    let max_mask = lanes_ne(&simd_arr, &max_arr);
    let min_mask = lanes_ne(&simd_arr, &min_arr);
    let and_mask = mask_and(&max_mask, &min_mask);
    let r = mask_all(&and_mask);
    proof {
        assert(lane_ints(simd_arr@) =~= spec_validity_lanes(
            major.as_int(),
            minor.as_int(),
            patch.as_int(),
            N::max_spec(),
        ));
        assert(lane_ints(max_arr@) =~= seq![
            N::max_spec(),
            N::max_spec(),
            N::max_spec(),
            N::max_spec(),
        ]);
        assert(lane_ints(min_arr@) =~= seq![
            N::min_spec(),
            N::min_spec(),
            N::min_spec(),
            N::min_spec(),
        ]);
    }
    r
}

/// What the vectorized range backend computes: pack the version fields, the
/// lower bounds and the upper bounds into three four-lane vectors whose
/// padding lane is the increment value, compute the lane-wise
/// greater-or-equal-than-lower and less-or-equal-than-upper masks, AND them,
/// and require every lane true.
pub open spec fn spec_vector_in_range(
    v_major: int,
    v_minor: int,
    v_patch: int,
    l_major: int,
    l_minor: int,
    l_patch: int,
    u_major: int,
    u_minor: int,
    u_patch: int,
) -> bool {
    let ver = seq![v_major, v_minor, v_patch, 1];
    let low = seq![l_major, l_minor, l_patch, 1];
    let upp = seq![u_major, u_minor, u_patch, 1];
    spec_mask_all(spec_mask_and(spec_lanes_ge(ver, low), spec_lanes_le(ver, upp)))
}

/// The scalar and vectorized range backends answer identically for every
/// (version, lower, upper) combination of every domain: the padding lane
/// trivially satisfies both comparisons, and the remaining lanes are exactly
/// the three per-field bound tests.
pub proof fn lemma_range_backends_agree(
    v_major: int,
    v_minor: int,
    v_patch: int,
    l_major: int,
    l_minor: int,
    l_patch: int,
    u_major: int,
    u_minor: int,
    u_patch: int,
)
    ensures
        spec_vector_in_range(
            v_major,
            v_minor,
            v_patch,
            l_major,
            l_minor,
            l_patch,
            u_major,
            u_minor,
            u_patch,
        ) == spec_triple_in_range(
            v_major,
            v_minor,
            v_patch,
            l_major,
            l_minor,
            l_patch,
            u_major,
            u_minor,
            u_patch,
        ),
{
    let ver = seq![v_major, v_minor, v_patch, 1];
    let low = seq![l_major, l_minor, l_patch, 1];
    let upp = seq![u_major, u_minor, u_patch, 1];
    let m = spec_mask_and(spec_lanes_ge(ver, low), spec_lanes_le(ver, upp));
    assert(m[0] == (l_major <= v_major <= u_major));
    assert(m[1] == (l_minor <= v_minor <= u_minor));
    assert(m[2] == (l_patch <= v_patch <= u_patch));
    assert(m[3]);
    if m[0] && m[1] && m[2] {
        assert forall|i: int| 0 <= i < m.len() implies m[i] by {
            if i == 0 {
            } else if i == 1 {
            } else if i == 2 {
            } else {
                assert(i == 3);
            }
        }
    }
}

/// The vectorized range backend: true iff, independently for each of major,
/// minor and patch, the version field lies between the lower and the upper
/// bound, both inclusive.
pub fn simd_version_req<N: VersionNumber>(ver: [N; 3], lower: [N; 3], upper: [N; 3]) -> (r: bool)
    ensures
        r == spec_vector_in_range(
            ver[0].as_int(),
            ver[1].as_int(),
            ver[2].as_int(),
            lower[0].as_int(),
            lower[1].as_int(),
            lower[2].as_int(),
            upper[0].as_int(),
            upper[1].as_int(),
            upper[2].as_int(),
        ),
        r == spec_triple_in_range(
            ver[0].as_int(),
            ver[1].as_int(),
            ver[2].as_int(),
            lower[0].as_int(),
            lower[1].as_int(),
            lower[2].as_int(),
            upper[0].as_int(),
            upper[1].as_int(),
            upper[2].as_int(),
        ),
{
    proof {
        lemma_range_backends_agree(
            ver[0].as_int(),
            ver[1].as_int(),
            ver[2].as_int(),
            lower[0].as_int(),
            lower[1].as_int(),
            lower[2].as_int(),
            upper[0].as_int(),
            upper[1].as_int(),
            upper[2].as_int(),
        );
    }
    let one = N::one();
    let ver_arr = [ver[0], ver[1], ver[2], one];
    let lower_arr = [lower[0], lower[1], lower[2], one];
    let upper_arr = [upper[0], upper[1], upper[2], one];
    let ge_mask = lanes_ge(&ver_arr, &lower_arr);
    let le_mask = lanes_le(&ver_arr, &upper_arr);
    let and_mask = mask_and(&ge_mask, &le_mask);
    let r = mask_all(&and_mask);
    proof {
        assert(lane_ints(ver_arr@) =~= seq![
            ver[0].as_int(),
            ver[1].as_int(),
            ver[2].as_int(),
            1int,
        ]);
        assert(lane_ints(lower_arr@) =~= seq![
            lower[0].as_int(),
            lower[1].as_int(),
            lower[2].as_int(),
            1int,
        ]);
        assert(lane_ints(upper_arr@) =~= seq![
            upper[0].as_int(),
            upper[1].as_int(),
            upper[2].as_int(),
            1int,
        ]);
    }
    r
}

} // verus!
