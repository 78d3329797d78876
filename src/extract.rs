//! Surface topology of a whole grid: for every cell, in row-major cell order,
//! the grid edges on which its triangle corners lie.
use vstd::prelude::*;
use crate::cube::{
    case_of, classify, corner_offset, corner_offset_of, edge_corners, edge_corners_of,
    has_triangle, lemma_uniform_cell_is_empty, table_entry, triangle_count, triangle_entry,
    triangles_in,
};
use crate::grid::{lemma_flat_in_range, GridShape};

verus! {

/// Why an extraction was refused.
#[derive(Clone, Copy, Debug, PartialEq, Eq, Structural)]
pub enum ExtractError {
    /// The field does not hold exactly one sample per grid vertex.
    InvalidInput,
}

/// Whether the grid has at least one cell (two samples along every axis).
pub open spec fn has_cells(s: GridShape) -> bool {
    s.x >= 2 && s.y >= 2 && s.z >= 2
}

/// The grid of cells of a sample grid: one fewer along every axis.
pub open spec fn cell_grid(s: GridShape) -> GridShape {
    GridShape { x: (s.x - 1) as usize, y: (s.y - 1) as usize, z: (s.z - 1) as usize }
}

/// Flat sample index of corner `i` of the cell at `(x, y, z)`.
pub open spec fn corner_sample(s: GridShape, x: int, y: int, z: int, i: int) -> int {
    let (ox, oy, oz) = corner_offset(i);
    s.flat(x + ox, y + oy, z + oz)
}

/// The below-threshold flags of the eight corners of the cell at `(x, y, z)`.
pub open spec fn corner_flags(s: GridShape, below: Seq<bool>, x: int, y: int, z: int) -> Seq<
    bool,
> {
    Seq::new(8, |i: int| below[corner_sample(s, x, y, z, i)])
}

/// Classification number of the cell at `(x, y, z)`.
pub open spec fn cell_case(s: GridShape, below: Seq<bool>, x: int, y: int, z: int) -> int {
    case_of(corner_flags(s, below, x, y, z)) as int
}

/// The grid edge of cube edge `e` of the cell at `(x, y, z)`, as the flat
/// indices of its two samples, lower index first. Cells that share a grid
/// edge thus name it the same way, so its crossing is interpolated from the
/// same end in each of them.
pub open spec fn crossing_edge(s: GridShape, x: int, y: int, z: int, e: int) -> (usize, usize) {
    let (a, b) = edge_corners(e);
    let (i, j) = (corner_sample(s, x, y, z, a), corner_sample(s, x, y, z, b));
    if i < j {
        (i as usize, j as usize)
    } else {
        (j as usize, i as usize)
    }
}

/// Every crossing joins two distinct samples of the grid, lower index first.
pub open spec fn crossings_ordered(s: GridShape, v: Seq<(usize, usize)>) -> bool {
    forall|j: int| 0 <= j < v.len() ==> (#[trigger] v[j]).0 < v[j].1 < s.count()
}

/// Triangle corners of the cell at `(x, y, z)`, three per triangle.
pub open spec fn cell_crossings(s: GridShape, below: Seq<bool>, x: int, y: int, z: int) -> Seq<
    (usize, usize),
> {
    let c = cell_case(s, below, x, y, z);
    Seq::new(3 * triangle_count(c), |j: int| crossing_edge(s, x, y, z, table_entry(c, j)))
}

/// Triangle corners of the first `n` cells in row-major cell order.
pub open spec fn crossings_upto(s: GridShape, below: Seq<bool>, n: nat) -> Seq<(usize, usize)>
    decreases n,
{
    if n == 0 {
        Seq::empty()
    } else {
        let (x, y, z) = cell_grid(s).unflat(n - 1);
        crossings_upto(s, below, (n - 1) as nat) + cell_crossings(s, below, x, y, z)
    }
}

/// Triangle corners of the whole surface: empty on a grid without cells.
pub open spec fn surface_of(s: GridShape, below: Seq<bool>) -> Seq<(usize, usize)> {
    if has_cells(s) {
        crossings_upto(s, below, cell_grid(s).count() as nat)
    } else {
        Seq::empty()
    }
}

/// Whether `(x, y, z)` is the origin of a cell of `s`.
pub open spec fn is_cell(s: GridShape, x: int, y: int, z: int) -> bool {
    0 <= x && x + 1 < s.x && 0 <= y && y + 1 < s.y && 0 <= z && z + 1 < s.z
}

proof fn lemma_corner_in_grid(s: GridShape, x: int, y: int, z: int, i: int)
    requires
        s.wf(),
        is_cell(s, x, y, z),
        0 <= i < 8,
    ensures
        0 <= corner_sample(s, x, y, z, i) < s.count(),
{
    let (ox, oy, oz) = corner_offset(i);
    lemma_flat_in_range(s, x + ox, y + oy, z + oz);
}

/// Flat sample index of corner `i` of the cell at `(x, y, z)`.
fn corner_index(s: &GridShape, x: usize, y: usize, z: usize, i: usize) -> (r: usize)
    requires
        s.wf(),
        is_cell(*s, x as int, y as int, z as int),
        i < 8,
    ensures
        r == corner_sample(*s, x as int, y as int, z as int, i as int),
        r < s.count(),
{
    let (ox, oy, oz) = corner_offset_of(i);
    s.index(x + ox, y + oy, z + oz)
}

/// Classification number of the cell at `(x, y, z)`.
fn cell_case_at(s: &GridShape, below: &Vec<bool>, x: usize, y: usize, z: usize) -> (r: u8)
    requires
        s.wf(),
        below@.len() == s.count(),
        is_cell(*s, x as int, y as int, z as int),
    ensures
        r == cell_case(*s, below@, x as int, y as int, z as int),
{
    let flags = [
        below[corner_index(s, x, y, z, 0)],
        below[corner_index(s, x, y, z, 1)],
        below[corner_index(s, x, y, z, 2)],
        below[corner_index(s, x, y, z, 3)],
        below[corner_index(s, x, y, z, 4)],
        below[corner_index(s, x, y, z, 5)],
        below[corner_index(s, x, y, z, 6)],
        below[corner_index(s, x, y, z, 7)],
    ];
    proof {
        assert(flags@ =~= corner_flags(*s, below@, x as int, y as int, z as int));
    }
    classify(&flags)
}

/// Appends the triangle corners of the cell at `(x, y, z)` to `out`.
fn append_cell(
    s: &GridShape,
    below: &Vec<bool>,
    x: usize,
    y: usize,
    z: usize,
    out: &mut Vec<(usize, usize)>,
)
    requires
        s.wf(),
        below@.len() == s.count(),
        is_cell(*s, x as int, y as int, z as int),
    ensures
        final(out)@ == old(out)@ + cell_crossings(*s, below@, x as int, y as int, z as int),
{
    let ghost cells = cell_crossings(*s, below@, x as int, y as int, z as int);
    let c = cell_case_at(s, below, x, y, z);
    let t = triangles_in(c);
    let mut j: usize = 0;
    while j < 3 * t
        invariant
            j <= 3 * t,
            t <= 5,
            t == triangle_count(c as int),
            forall|u: int| 0 <= u < t ==> has_triangle(c as int, u),
            c == cell_case(*s, below@, x as int, y as int, z as int),
            cells == cell_crossings(*s, below@, x as int, y as int, z as int),
            cells.len() == 3 * t,
            s.wf(),
            is_cell(*s, x as int, y as int, z as int),
            out@ == old(out)@ + cells.take(j as int),
        decreases 3 * t - j,
    {
        proof {
            let u = j as int / 3;
            assert(has_triangle(c as int, u));
            assert(j as int == 3 * u || j as int == 3 * u + 1 || j as int == 3 * u + 2);
        }
        let e = triangle_entry(c, j);
        let (a, b) = edge_corners_of(e as usize);
        let ia = corner_index(s, x, y, z, a);
        let ib = corner_index(s, x, y, z, b);
        let pair = if ia < ib {
            (ia, ib)
        } else {
            (ib, ia)
        };
        out.push(pair);
        proof {
            assert(e as int == table_entry(c as int, j as int));
            assert(edge_corners(e as int) == (a as int, b as int));
            assert(cells[j as int] == crossing_edge(*s, x as int, y as int, z as int, e as int));
            assert(cells[j as int] == pair);
            assert(cells.take(j + 1) =~= cells.take(j as int).push(pair));
        }
        j = j + 1;
    }
    proof {
        assert(cells.take(j as int) =~= cells);
    }
}

/// Triangle corners of the surface between samples flagged below the
/// threshold and the others, as grid edges (pairs of flat sample indices in
/// interpolation order), cell by cell in row-major cell order, three per
/// triangle. Refused when `below` does not hold one flag per sample.
pub fn surface_crossings(s: &GridShape, below: &Vec<bool>) -> (r: Result<
    Vec<(usize, usize)>,
    ExtractError,
>)
    requires
        s.wf(),
    ensures
        r is Err <==> below@.len() != s.count(),
        r matches Ok(v) ==> v@ == surface_of(*s, below@) && crossings_ordered(*s, v@),
{
    let n = s.len();
    if below.len() != n {
        return Err(ExtractError::InvalidInput);
    }
    let mut out: Vec<(usize, usize)> = Vec::new();
    if s.x < 2 || s.y < 2 || s.z < 2 {
        return Ok(out);
    }
    let cells = GridShape { x: s.x - 1, y: s.y - 1, z: s.z - 1 };
    proof {
        lemma_cell_grid_wf(*s);
    }
    let m = cells.len();
    let mut i: usize = 0;
    while i < m
        invariant
            i <= m,
            m == cells.count(),
            cells == cell_grid(*s),
            cells.wf(),
            s.wf(),
            has_cells(*s),
            below@.len() == s.count(),
            out@ == crossings_upto(*s, below@, i as nat),
            crossings_ordered(*s, out@),
        decreases m - i,
    {
        let (x, y, z) = cells.coords(i);
        proof {
            lemma_cell_crossings_ordered(*s, below@, x as int, y as int, z as int);
        }
        append_cell(s, below, x, y, z, &mut out);
        i = i + 1;
    }
    Ok(out)
}

/// Distinct corners of a cell are distinct samples.
proof fn lemma_corners_distinct(s: GridShape, x: int, y: int, z: int, a: int, b: int)
    requires
        s.wf(),
        is_cell(s, x, y, z),
        0 <= a < 8,
        0 <= b < 8,
        a != b,
    ensures
        corner_sample(s, x, y, z, a) != corner_sample(s, x, y, z, b),
{
    let (ax, ay, az) = corner_offset(a);
    let (bx, by, bz) = corner_offset(b);
    crate::grid::lemma_flat_round_trip(s, x + ax, y + ay, z + az);
    crate::grid::lemma_flat_round_trip(s, x + bx, y + by, z + bz);
}

proof fn lemma_cell_crossings_ordered(s: GridShape, below: Seq<bool>, x: int, y: int, z: int)
    requires
        s.wf(),
        is_cell(s, x, y, z),
    ensures
        crossings_ordered(s, cell_crossings(s, below, x, y, z)),
{
    let v = cell_crossings(s, below, x, y, z);
    assert forall|j: int| 0 <= j < v.len() implies (#[trigger] v[j]).0 < v[j].1 < s.count() by {
        let c = cell_case(s, below, x, y, z);
        let e = table_entry(c, j);
        let (a, b) = edge_corners(e);
        assert(0 <= a < 8 && 0 <= b < 8 && a != b);
        lemma_corner_in_grid(s, x, y, z, a);
        lemma_corner_in_grid(s, x, y, z, b);
        lemma_corners_distinct(s, x, y, z, a, b);
    }
}

proof fn lemma_cell_grid_wf(s: GridShape)
    requires
        s.wf(),
        has_cells(s),
    ensures
        cell_grid(s).wf(),
        cell_grid(s).count() <= s.count(),
{
    let c = cell_grid(s);
    assert(c.count() <= s.count()) by (nonlinear_arith)
        requires
            c.count() == c.x * c.y * c.z,
            s.count() == s.x * s.y * s.z,
            1 <= c.x < s.x,
            1 <= c.y < s.y,
            1 <= c.z < s.z,
    {
        assert(c.x * c.y <= s.x * s.y) by (nonlinear_arith)
            requires
                1 <= c.x < s.x,
                1 <= c.y < s.y,
        ;
        assert(c.x * c.y * c.z <= s.x * s.y * c.z) by (nonlinear_arith)
            requires
                c.x * c.y <= s.x * s.y,
                c.z >= 1,
        ;
        assert(s.x * s.y * c.z <= s.x * s.y * s.z) by (nonlinear_arith)
            requires
                s.x * s.y >= 0,
                c.z < s.z,
        ;
    }
}

/// A field with no sample below the threshold, or with every sample below
/// it, has an empty surface.
pub proof fn lemma_uniform_field_is_empty(s: GridShape, below: Seq<bool>)
    requires
        s.wf(),
        below.len() == s.count(),
        forall|i: int| 0 <= i < below.len() ==> #[trigger] below[i] == below[0],
    ensures
        surface_of(s, below) == Seq::<(usize, usize)>::empty(),
{
    if has_cells(s) {
        lemma_cell_grid_wf(s);
        lemma_uniform_upto(s, below, cell_grid(s).count() as nat);
    }
}

proof fn lemma_uniform_upto(s: GridShape, below: Seq<bool>, n: nat)
    requires
        s.wf(),
        has_cells(s),
        cell_grid(s).wf(),
        n <= cell_grid(s).count(),
        below.len() == s.count(),
        forall|i: int| 0 <= i < below.len() ==> #[trigger] below[i] == below[0],
    ensures
        crossings_upto(s, below, n) == Seq::<(usize, usize)>::empty(),
    decreases n,
{
    if n > 0 {
        lemma_uniform_upto(s, below, (n - 1) as nat);
        let cg = cell_grid(s);
        crate::grid::lemma_unflat_round_trip(cg, n - 1);
        let (x, y, z) = cg.unflat(n - 1);
        let f = corner_flags(s, below, x, y, z);
        assert forall|i: int| 0 <= i < 8 implies #[trigger] f[i] == f[0] by {
            lemma_corner_in_grid(s, x, y, z, i);
            lemma_corner_in_grid(s, x, y, z, 0);
        }
        lemma_uniform_cell_is_empty(f);
        assert(cell_crossings(s, below, x, y, z) =~= Seq::<(usize, usize)>::empty());
        assert(crossings_upto(s, below, n) =~= Seq::<(usize, usize)>::empty());
    }
}

} // verus!
