//! Shape of a sample grid and the row-major flattening of its vertices.
use vstd::prelude::*;

verus! {

/// Number of samples along x, y and z. Sample `(x, y, z)` lives at flat index
/// `x * Y * Z + y * Z + z` (z varies fastest).
#[derive(Clone, Copy, Debug, PartialEq, Eq, Structural)]
pub struct GridShape {
    pub x: usize,
    pub y: usize,
    pub z: usize,
}

/// Offset of the `k`-th stencil neighbour: -x, +x, -y, +y, -z, +z.
pub open spec fn stencil_offset(k: int) -> (int, int, int) {
    if k == 0 {
        (-1, 0, 0)
    } else if k == 1 {
        (1, 0, 0)
    } else if k == 2 {
        (0, -1, 0)
    } else if k == 3 {
        (0, 1, 0)
    } else if k == 4 {
        (0, 0, -1)
    } else {
        (0, 0, 1)
    }
}

impl GridShape {
    /// Total number of samples.
    pub open spec fn count(self) -> int {
        self.x * self.y * self.z
    }

    /// Every dimension is positive and the sample count fits in `usize`.
    pub open spec fn wf(self) -> bool {
        &&& self.x > 0
        &&& self.y > 0
        &&& self.z > 0
        &&& self.count() <= usize::MAX
    }

    pub open spec fn contains(self, x: int, y: int, z: int) -> bool {
        0 <= x < self.x && 0 <= y < self.y && 0 <= z < self.z
    }

    /// Row-major flat index of `(x, y, z)`.
    pub open spec fn flat(self, x: int, y: int, z: int) -> int {
        x * (self.y * self.z) + y * self.z + z
    }

    /// Inverse of `flat` on `0..count()`.
    pub open spec fn unflat(self, i: int) -> (int, int, int) {
        (i / (self.y * self.z), (i / (self.z as int)) % (self.y as int), i % (self.z as int))
    }

    /// A shape with the given dimensions; `None` when one of them is zero or
    /// the sample count overflows `usize`.
    pub fn new(x: usize, y: usize, z: usize) -> (r: Option<GridShape>)
        ensures
            r is Some <==> (x > 0 && y > 0 && z > 0 && x * y * z <= usize::MAX),
            r matches Some(s) ==> s.x == x && s.y == y && s.z == z && s.wf(),
    {
        if x == 0 || y == 0 || z == 0 {
            return None;
        }
        match x.checked_mul(y) {
            None => {
                proof {
                    lemma_mul_grows(x * y, z as int);
                }
                None
            },
            Some(xy) => match xy.checked_mul(z) {
                None => None,
                Some(_) => Some(GridShape { x, y, z }),
            },
        }
    }

    /// Total number of samples.
    pub fn len(&self) -> (r: usize)
        requires
            self.wf(),
        ensures
            r == self.count(),
    {
        proof {
            lemma_mul_grows(self.x * self.y, self.z as int);
        }
        self.x * self.y * self.z
    }

    /// Flat index of the sample at `(x, y, z)`.
    pub fn index(&self, x: usize, y: usize, z: usize) -> (r: usize)
        requires
            self.wf(),
            self.contains(x as int, y as int, z as int),
        ensures
            r == self.flat(x as int, y as int, z as int),
            r < self.count(),
    {
        proof {
            lemma_flat_in_range(*self, x as int, y as int, z as int);
            assert(self.y * self.z <= self.count()) by (nonlinear_arith)
                requires
                    self.count() == self.x * self.y * self.z,
                    self.x >= 1,
                    self.y * self.z >= 0,
            ;
            assert(x * (self.y * self.z) <= self.flat(x as int, y as int, z as int)) by (
            nonlinear_arith)
                requires
                    y * self.z >= 0,
                    z >= 0,
            ;
            assert(y * self.z <= self.flat(x as int, y as int, z as int)) by (nonlinear_arith)
                requires
                    x * (self.y * self.z) >= 0,
                    z >= 0,
            ;
        }
        x * (self.y * self.z) + y * self.z + z
    }

    /// Coordinates of the sample at flat index `i`.
    pub fn coords(&self, i: usize) -> (r: (usize, usize, usize))
        requires
            self.wf(),
            i < self.count(),
        ensures
            self.contains(r.0 as int, r.1 as int, r.2 as int),
            self.flat(r.0 as int, r.1 as int, r.2 as int) == i,
            (r.0 as int, r.1 as int, r.2 as int) == self.unflat(i as int),
    {
        proof {
            lemma_unflat_round_trip(*self, i as int);
            assert(self.y * self.z > 0) by (nonlinear_arith)
                requires
                    self.y > 0,
                    self.z > 0,
            ;
            assert(self.y * self.z <= self.count()) by (nonlinear_arith)
                requires
                    self.count() == self.x * self.y * self.z,
                    self.x >= 1,
                    self.y * self.z >= 0,
            ;
        }
        let yz = self.y * self.z;
        (i / yz, (i / self.z) % self.y, i % self.z)
    }

    /// Flat index of the `k`-th stencil neighbour of `(x, y, z)`, or `None`
    /// when that neighbour lies outside the grid (the field is zero there).
    /// Neighbours never wrap around or clamp to an edge.
    pub fn neighbor(&self, x: usize, y: usize, z: usize, k: usize) -> (r: Option<usize>)
        requires
            self.wf(),
            self.contains(x as int, y as int, z as int),
            k < 6,
        ensures
            ({
                let (dx, dy, dz) = stencil_offset(k as int);
                let (nx, ny, nz) = (x + dx, y + dy, z + dz);
                &&& r is Some <==> self.contains(nx, ny, nz)
                &&& r matches Some(n) ==> n == self.flat(nx, ny, nz) && n < self.count()
            }),
    {
        if k == 0 {
            if x == 0 { None } else { Some(self.index(x - 1, y, z)) }
        } else if k == 1 {
            if x + 1 == self.x { None } else { Some(self.index(x + 1, y, z)) }
        } else if k == 2 {
            if y == 0 { None } else { Some(self.index(x, y - 1, z)) }
        } else if k == 3 {
            if y + 1 == self.y { None } else { Some(self.index(x, y + 1, z)) }
        } else if k == 4 {
            if z == 0 { None } else { Some(self.index(x, y, z - 1)) }
        } else {
            if z + 1 == self.z { None } else { Some(self.index(x, y, z + 1)) }
        }
    }
}

proof fn lemma_mul_grows(a: int, b: int)
    requires
        a >= 0,
        b >= 1,
    ensures
        a <= a * b,
{
    assert(a <= a * b) by (nonlinear_arith)
        requires
            a >= 0,
            b >= 1,
    ;
}

/// Every in-grid coordinate triple flattens to an index below the sample count.
pub proof fn lemma_flat_in_range(s: GridShape, x: int, y: int, z: int)
    requires
        s.wf(),
        s.contains(x, y, z),
    ensures
        0 <= s.flat(x, y, z) < s.count(),
{
    let (yy, zz) = (s.y as int, s.z as int);
    assert(0 <= y * zz + z < yy * zz) by (nonlinear_arith)
        requires
            0 <= y < yy,
            0 <= z < zz,
    ;
    assert(0 <= s.flat(x, y, z) < s.count()) by (nonlinear_arith)
        requires
            0 <= x < s.x,
            0 <= y * zz + z < yy * zz,
            s.flat(x, y, z) == x * (yy * zz) + (y * zz + z),
            s.count() == s.x * yy * zz,
    ;
}

/// Decoding a flat index into coordinates and encoding them again gives the
/// same index, and the decoded coordinates lie in the grid.
pub proof fn lemma_unflat_round_trip(s: GridShape, i: int)
    requires
        s.wf(),
        0 <= i < s.count(),
    ensures
        ({
            let (x, y, z) = s.unflat(i);
            s.contains(x, y, z) && s.flat(x, y, z) == i
        }),
{
    let (yy, zz) = (s.y as int, s.z as int);
    let yz = yy * zz;
    assert(yz > 0) by (nonlinear_arith)
        requires
            yz == yy * zz,
            yy > 0,
            zz > 0,
    ;
    let (x, y, z) = s.unflat(i);
    let q = i / zz;
    // i = x * yz + r with 0 <= r < yz, and r = y * Z + z
    vstd::arithmetic::div_mod::lemma_fundamental_div_mod(i, yz);
    vstd::arithmetic::div_mod::lemma_fundamental_div_mod(i, zz);
    vstd::arithmetic::div_mod::lemma_fundamental_div_mod(q, yy);
    vstd::arithmetic::div_mod::lemma_div_denominator(i, zz, yy);
    assert(q / yy == x) by (nonlinear_arith)
        requires
            q == i / zz,
            x == i / yz,
            yz == yy * zz,
            i / zz / yy == i / (zz * yy),
    ;
    assert(i == x * yz + y * zz + z) by (nonlinear_arith)
        requires
            i == zz * q + z,
            q == yy * x + y,
            yz == yy * zz,
    ;
    vstd::arithmetic::div_mod::lemma_div_pos_is_pos(i, yz);
    assert(x < s.x) by (nonlinear_arith)
        requires
            i < s.x * yy * zz,
            x == i / yz,
            yz == yy * zz,
            yz > 0,
            i >= 0,
    {
        vstd::arithmetic::div_mod::lemma_div_by_multiple_is_strongly_ordered(
            i, s.x * yz, s.x as int, yz);
        if x >= s.x {
            vstd::arithmetic::div_mod::lemma_fundamental_div_mod(i, yz);
            vstd::arithmetic::mul::lemma_mul_inequality(s.x as int, x, yz);
        }
    }
    vstd::arithmetic::div_mod::lemma_mod_pos_bound(q, yy);
    vstd::arithmetic::div_mod::lemma_mod_pos_bound(i, zz);
}

/// Encoding in-grid coordinates and decoding the index gives them back.
pub proof fn lemma_flat_round_trip(s: GridShape, x: int, y: int, z: int)
    requires
        s.wf(),
        s.contains(x, y, z),
    ensures
        s.unflat(s.flat(x, y, z)) == (x, y, z),
{
    let (yy, zz) = (s.y as int, s.z as int);
    let i = s.flat(x, y, z);
    lemma_flat_in_range(s, x, y, z);
    assert(0 <= y * zz + z < yy * zz) by (nonlinear_arith)
        requires
            0 <= y < yy,
            0 <= z < zz,
    ;
    vstd::arithmetic::div_mod::lemma_fundamental_div_mod_converse(i, yy * zz, x, y * zz + z);
    assert(i == (x * yy + y) * zz + z) by (nonlinear_arith)
        requires
            i == x * (yy * zz) + y * zz + z,
    ;
    vstd::arithmetic::div_mod::lemma_fundamental_div_mod_converse(i, zz, x * yy + y, z);
    vstd::arithmetic::div_mod::lemma_fundamental_div_mod_converse(x * yy + y, yy, x, y);
}

} // verus!
