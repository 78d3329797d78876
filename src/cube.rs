//! One grid cell as marching cubes sees it: its corners, its edges, the
//! classification of its corners against the threshold, and the rows of the
//! lookup tables selected by that classification.
use vstd::prelude::*;
use crate::tables::TRIANGLE_TABLE;

verus! {

/// Offset of corner `i` of a cell from the cell's origin sample.
pub open spec fn corner_offset(i: int) -> (int, int, int) {
    if i == 0 {
        (0, 0, 0)
    } else if i == 1 {
        (1, 0, 0)
    } else if i == 2 {
        (1, 0, 1)
    } else if i == 3 {
        (0, 0, 1)
    } else if i == 4 {
        (0, 1, 0)
    } else if i == 5 {
        (1, 1, 0)
    } else if i == 6 {
        (1, 1, 1)
    } else {
        (0, 1, 1)
    }
}

/// The two corners joined by edge `e`, in the order used for interpolation.
pub open spec fn edge_corners(e: int) -> (int, int) {
    if e == 0 {
        (0, 1)
    } else if e == 1 {
        (1, 2)
    } else if e == 2 {
        (2, 3)
    } else if e == 3 {
        (3, 0)
    } else if e == 4 {
        (4, 5)
    } else if e == 5 {
        (5, 6)
    } else if e == 6 {
        (6, 7)
    } else if e == 7 {
        (7, 4)
    } else if e == 8 {
        (0, 4)
    } else if e == 9 {
        (1, 5)
    } else if e == 10 {
        (2, 6)
    } else {
        (3, 7)
    }
}

/// `2^i`.
pub open spec fn weight(i: nat) -> nat
    decreases i,
{
    if i == 0 {
        1
    } else {
        2 * weight((i - 1) as nat)
    }
}

/// Classification number built from the first `n` corner flags: bit `i` is
/// set when corner `i` lies strictly below the threshold.
pub open spec fn case_prefix(below: Seq<bool>, n: nat) -> nat
    decreases n,
{
    if n == 0 {
        0
    } else {
        case_prefix(below, (n - 1) as nat) + if below[n - 1] {
            weight((n - 1) as nat)
        } else {
            0
        }
    }
}

/// Classification number of a cell whose corner flags are `below`.
pub open spec fn case_of(below: Seq<bool>) -> nat {
    case_prefix(below, 8)
}

/// Whether corner `i` is flagged in classification `case`.
pub open spec fn case_has_corner(case: nat, i: nat) -> bool {
    (case / weight(i)) % 2 == 1
}

/// Edge mask of `case` restricted to edges `0..n`: bit `e` is set when the
/// two corners of edge `e` lie on different sides of the threshold.
pub open spec fn mask_prefix(case: nat, n: nat) -> nat
    decreases n,
{
    if n == 0 {
        0
    } else {
        let (a, b) = edge_corners(n - 1);
        mask_prefix(case, (n - 1) as nat) + if case_has_corner(case, a as nat) != case_has_corner(
            case,
            b as nat,
        ) {
            weight((n - 1) as nat)
        } else {
            0
        }
    }
}

/// The 12-bit set of edges that the surface crosses in a cell of class `case`.
pub open spec fn edge_mask_of(case: nat) -> nat {
    mask_prefix(case, 12)
}

/// Entry `k` of row `case` of the triangulation table.
pub open spec fn table_entry(case: int, k: int) -> int {
    ((TRIANGLE_TABLE[case] >> ((4 * k) as u64)) & 0xFu64) as int
}

/// Triangle `t` of row `case` exists when its three entries are edges.
pub open spec fn has_triangle(case: int, t: int) -> bool {
    &&& t < 5
    &&& table_entry(case, 3 * t) < 12
    &&& table_entry(case, 3 * t + 1) < 12
    &&& table_entry(case, 3 * t + 2) < 12
}

/// Number of triangles of row `case`, counting from triangle `t`.
pub open spec fn triangles_from(case: int, t: nat) -> nat
    decreases 5 - t,
{
    if t < 5 && has_triangle(case, t as int) {
        triangles_from(case, t + 1)
    } else {
        t
    }
}

/// Number of triangles that a cell of class `case` holds.
pub open spec fn triangle_count(case: int) -> nat {
    triangles_from(case, 0)
}

/// Corner offset `i` (below 8) of a cell.
pub fn corner_offset_of(i: usize) -> (r: (usize, usize, usize))
    requires
        i < 8,
    ensures
        (r.0 as int, r.1 as int, r.2 as int) == corner_offset(i as int),
{
    if i == 0 {
        (0, 0, 0)
    } else if i == 1 {
        (1, 0, 0)
    } else if i == 2 {
        (1, 0, 1)
    } else if i == 3 {
        (0, 0, 1)
    } else if i == 4 {
        (0, 1, 0)
    } else if i == 5 {
        (1, 1, 0)
    } else if i == 6 {
        (1, 1, 1)
    } else {
        (0, 1, 1)
    }
}

/// The two corners of edge `e` (below 12).
pub fn edge_corners_of(e: usize) -> (r: (usize, usize))
    requires
        e < 12,
    ensures
        (r.0 as int, r.1 as int) == edge_corners(e as int),
        r.0 < 8 && r.1 < 8,
{
    if e == 0 {
        (0, 1)
    } else if e == 1 {
        (1, 2)
    } else if e == 2 {
        (2, 3)
    } else if e == 3 {
        (3, 0)
    } else if e == 4 {
        (4, 5)
    } else if e == 5 {
        (5, 6)
    } else if e == 6 {
        (6, 7)
    } else if e == 7 {
        (7, 4)
    } else if e == 8 {
        (0, 4)
    } else if e == 9 {
        (1, 5)
    } else if e == 10 {
        (2, 6)
    } else {
        (3, 7)
    }
}

/// The classification number of a cell whose corners `0..8` are flagged in
/// `below` (set: strictly below the threshold).
pub fn classify(below: &[bool; 8]) -> (r: u8)
    ensures
        r == case_of(below@),
{
    let mut c: u16 = 0;
    let mut w: u16 = 1;
    let mut i: usize = 0;
    while i < 8
        invariant
            i <= 8,
            w == weight(i as nat),
            c == case_prefix(below@, i as nat),
            c < w,
            w <= 256,
        decreases 8 - i,
    {
        proof {
            lemma_weight_bound(i as nat);
        }
        if below[i] {
            c = c + w;
        }
        w = w * 2;
        i = i + 1;
    }
    c as u8
}

/// Whether corner `i` is flagged in classification `case`.
pub fn corner_flagged(case: u8, i: usize) -> (r: bool)
    requires
        i < 8,
    ensures
        r == case_has_corner(case as nat, i as nat),
{
    let mut w: u16 = 1;
    let mut k: usize = 0;
    while k < i
        invariant
            k <= i,
            i < 8,
            w == weight(k as nat),
            w >= 1,
        decreases i - k,
    {
        proof {
            lemma_weight_bound(k as nat);
        }
        w = w * 2;
        k = k + 1;
    }
    (case as u16 / w) % 2 == 1
}

proof fn lemma_weight_bound(i: nat)
    requires
        i < 12,
    ensures
        1 <= weight(i) <= 2048,
        i < 8 ==> weight(i) <= 128,
{
    reveal_with_fuel(weight, 12);
    assert(weight(7) == 128 && weight(11) == 2048);
    assert(i == 0 || i == 1 || i == 2 || i == 3 || i == 4 || i == 5 || i == 6 || i == 7 || i
        == 8 || i == 9 || i == 10 || i == 11);
}

/// Set of edges (bit `e` for edge `e`) whose two corners lie on different
/// sides of the threshold in a cell of class `case`.
pub fn edge_mask(case: u8) -> (r: u16)
    ensures
        r == edge_mask_of(case as nat),
{
    let mut m: u16 = 0;
    let mut w: u16 = 1;
    let mut e: usize = 0;
    while e < 12
        invariant
            e <= 12,
            w == weight(e as nat),
            m == mask_prefix(case as nat, e as nat),
            m < w,
            w <= 4096,
        decreases 12 - e,
    {
        proof {
            lemma_weight_bound(e as nat);
        }
        let (a, b) = edge_corners_of(e);
        if corner_flagged(case, a) != corner_flagged(case, b) {
            m = m + w;
        }
        w = w * 2;
        e = e + 1;
    }
    m
}

/// Entry `k` (below 16) of row `case` of the triangulation table.
pub fn triangle_entry(case: u8, k: usize) -> (r: u8)
    requires
        k < 16,
    ensures
        r == table_entry(case as int, k as int),
        r < 16,
{
    let word: u64 = TRIANGLE_TABLE[case as usize];
    let v = (word >> (4 * k as u64)) & 0xF;
    assert(v < 16) by (bit_vector)
        requires
            v == (word >> (4 * k as u64)) & 0xF,
    ;
    v as u8
}

/// Number of triangles that a cell of class `case` holds.
pub fn triangles_in(case: u8) -> (r: usize)
    ensures
        r == triangle_count(case as int),
        r <= 5,
        forall|u: int| 0 <= u < r ==> has_triangle(case as int, u),
{
    let mut t: usize = 0;
    while t < 5 && triangle_entry(case, 3 * t) < 12 && triangle_entry(case, 3 * t + 1) < 12
        && triangle_entry(case, 3 * t + 2) < 12
        invariant
            t <= 5,
            triangles_from(case as int, t as nat) == triangle_count(case as int),
            forall|u: int| 0 <= u < t ==> has_triangle(case as int, u),
        decreases 5 - t,
    {
        t = t + 1;
    }
    t
}

/// A cell whose corners lie all on one side of the threshold holds no
/// triangle.
pub proof fn lemma_uniform_cell_is_empty(below: Seq<bool>)
    requires
        below.len() == 8,
        forall|i: int| 0 <= i < 8 ==> #[trigger] below[i] == below[0],
    ensures
        case_of(below) == 0 || case_of(below) == 255,
        triangle_count(case_of(below) as int) == 0,
{
    reveal_with_fuel(case_prefix, 9);
    reveal_with_fuel(weight, 8);
    let c = case_of(below);
    let w0 = TRIANGLE_TABLE[0];
    let w255 = TRIANGLE_TABLE[255];
    assert(w0 == 0xFFFF_FFFF_FFFF_FFFFu64);
    assert(w255 == 0xFFFF_FFFF_FFFF_FFFFu64);
    assert((0xFFFF_FFFF_FFFF_FFFFu64 >> 0u64) & 0xFu64 == 15u64) by (bit_vector);
    assert(table_entry(c as int, 0) == 15);
}

} // verus!
