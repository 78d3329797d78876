//! The solver's three time-level buffers and the step counter that rotates
//! their roles.
use vstd::prelude::*;
use crate::grid::{stencil_offset, GridShape};

verus! {

/// What the update of one sample reads: its flat index, its value at the
/// present and previous time levels, and the present values of its six
/// stencil neighbours (-x, +x, -y, +y, -z, +z). A neighbour outside the grid
/// is `None`: the field is zero there.
#[derive(Debug)]
pub struct Stencil<T> {
    pub index: usize,
    pub current: T,
    pub previous: T,
    pub x_minus: Option<T>,
    pub x_plus: Option<T>,
    pub y_minus: Option<T>,
    pub y_plus: Option<T>,
    pub z_minus: Option<T>,
    pub z_plus: Option<T>,
}

/// Present value of the `k`-th stencil neighbour of sample `p`, or `None`
/// outside the grid.
pub open spec fn neighbor_value<T>(s: GridShape, field: Seq<T>, p: int, k: int) -> Option<T> {
    let (x, y, z) = s.unflat(p);
    let (dx, dy, dz) = stencil_offset(k);
    if s.contains(x + dx, y + dy, z + dz) {
        Some(field[s.flat(x + dx, y + dy, z + dz)])
    } else {
        None
    }
}

/// The stencil of sample `p` over the present field `cur` and the previous
/// field `prev`.
pub open spec fn stencil_at<T>(s: GridShape, cur: Seq<T>, prev: Seq<T>, p: int) -> Stencil<T> {
    Stencil {
        index: p as usize,
        current: cur[p],
        previous: prev[p],
        x_minus: neighbor_value(s, cur, p, 0),
        x_plus: neighbor_value(s, cur, p, 1),
        y_minus: neighbor_value(s, cur, p, 2),
        y_plus: neighbor_value(s, cur, p, 3),
        z_minus: neighbor_value(s, cur, p, 4),
        z_plus: neighbor_value(s, cur, p, 5),
    }
}

/// Slot that holds the field at time `k` when the counter reads `k`.
pub open spec fn current_slot(k: nat) -> nat {
    k % 3
}

/// Slot that holds the field at time `k - 1` when the counter reads `k`.
pub open spec fn previous_slot(k: nat) -> nat {
    (k + 2) % 3
}

/// Slot that the step from `k` to `k + 1` writes.
pub open spec fn next_slot(k: nat) -> nat {
    (k + 1) % 3
}

/// The slots `(previous, current, next)` for counter value `step`. They are
/// pairwise distinct, so the slot being written is never one that is read.
pub fn roles(step: u64) -> (r: (usize, usize, usize))
    ensures
        r.0 == previous_slot(step as nat),
        r.1 == current_slot(step as nat),
        r.2 == next_slot(step as nat),
        r.0 < 3 && r.1 < 3 && r.2 < 3,
        r.0 != r.1 && r.1 != r.2 && r.0 != r.2,
{
    let c = (step % 3) as usize;
    (((c + 2) % 3), c, ((c + 1) % 3))
}

/// Three equally long sample buffers plus the number of completed steps.
pub struct FieldBuffers<T> {
    slot0: Vec<T>,
    slot1: Vec<T>,
    slot2: Vec<T>,
    step: u64,
}

impl<T: Copy> FieldBuffers<T> {
    /// Contents of slot `i` (0, 1 or 2).
    pub closed spec fn slot(&self, i: nat) -> Seq<T> {
        if i == 0 {
            self.slot0@
        } else if i == 1 {
            self.slot1@
        } else {
            self.slot2@
        }
    }

    pub closed spec fn steps(&self) -> nat {
        self.step as nat
    }

    /// Length shared by the three buffers.
    pub closed spec fn samples(&self) -> nat {
        self.slot0@.len()
    }

    pub closed spec fn wf(&self) -> bool {
        self.slot1@.len() == self.slot0@.len() && self.slot2@.len() == self.slot0@.len()
    }

    /// Field at the present time level.
    pub open spec fn current_view(&self) -> Seq<T> {
        self.slot(current_slot(self.steps()))
    }

    /// Field one time level back.
    pub open spec fn previous_view(&self) -> Seq<T> {
        self.slot(previous_slot(self.steps()))
    }

    /// `next` is what one step of `update` over `shape` makes of `self`: the
    /// counter advanced by one, the present level moved back to the previous
    /// one, and every new sample produced by `update` from its stencil.
    pub open spec fn steps_to<F: Fn(Stencil<T>) -> T>(
        &self,
        next: Self,
        shape: GridShape,
        update: F,
    ) -> bool {
        &&& next.samples() == self.samples()
        &&& next.steps() == self.steps() + 1
        &&& next.previous_view() == self.current_view()
        &&& next.current_view().len() == self.samples()
        &&& forall|p: int|
            0 <= p < shape.count() ==> update.ensures(
                (stencil_at(shape, self.current_view(), self.previous_view(), p),),
                #[trigger] next.current_view()[p],
            )
    }

    /// Three buffers of `len` copies of `zero`, counter at 0.
    pub fn new(len: usize, zero: T) -> (r: Self)
        ensures
            r.wf(),
            r.samples() == len,
            r.steps() == 0,
            forall|i: nat| i < 3 ==> #[trigger] r.slot(i) == Seq::new(len as nat, |j: int| zero),
    {
        let a = filled(len, zero);
        let b = filled(len, zero);
        let c = filled(len, zero);
        FieldBuffers { slot0: a, slot1: b, slot2: c, step: 0 }
    }

    /// Sets every sample of the three buffers to `zero` and the counter to 0.
    pub fn reset(&mut self, zero: T)
        requires
            old(self).wf(),
        ensures
            final(self).wf(),
            final(self).samples() == old(self).samples(),
            final(self).steps() == 0,
            forall|i: nat|
                i < 3 ==> #[trigger] final(self).slot(i) == Seq::new(
                    old(self).samples(),
                    |j: int| zero,
                ),
    {
        fill(&mut self.slot0, zero);
        fill(&mut self.slot1, zero);
        fill(&mut self.slot2, zero);
        self.step = 0;
    }

    /// Number of completed steps.
    pub fn step_count(&self) -> (r: u64)
        ensures
            r == self.steps(),
    {
        self.step
    }

    /// Number of samples in each buffer.
    pub fn len(&self) -> (r: usize)
        ensures
            r == self.samples(),
    {
        self.slot0.len()
    }

    /// The buffer in slot `i`.
    pub fn slot_ref(&self, i: usize) -> (r: &Vec<T>)
        requires
            i < 3,
        ensures
            r@ == self.slot(i as nat),
    {
        if i == 0 {
            &self.slot0
        } else if i == 1 {
            &self.slot1
        } else {
            &self.slot2
        }
    }

    /// The field at the present time level.
    pub fn current(&self) -> (r: &Vec<T>)
        ensures
            r@ == self.current_view(),
    {
        self.slot_ref((self.step % 3) as usize)
    }

    /// The field one time level back.
    pub fn previous(&self) -> (r: &Vec<T>)
        ensures
            r@ == self.previous_view(),
    {
        self.slot_ref(((self.step % 3 + 2) % 3) as usize)
    }

    /// Completes one step: `next` becomes the present time level, the former
    /// present level becomes the previous one, and the counter advances.
    /// The oldest level, no longer needed, is handed back in `next` so that
    /// its storage can be written by the following step.
    pub fn advance(&mut self, next: &mut Vec<T>)
        requires
            old(self).wf(),
            old(next)@.len() == old(self).samples(),
            old(self).steps() < u64::MAX,
        ensures
            final(self).wf(),
            final(self).samples() == old(self).samples(),
            final(self).steps() == old(self).steps() + 1,
            final(self).current_view() == old(next)@,
            final(self).previous_view() == old(self).current_view(),
            final(next)@ == old(self).slot(next_slot(old(self).steps())),
    {
        let k = self.step % 3;
        if k == 0 {
            std::mem::swap(&mut self.slot1, next);
        } else if k == 1 {
            std::mem::swap(&mut self.slot2, next);
        } else {
            std::mem::swap(&mut self.slot0, next);
        }
        self.step = self.step + 1;
    }
}

impl<T: Copy> FieldBuffers<T> {
    /// Advances the field one time level. Every sample of the new level is
    /// `update` applied to that sample's stencil over the present and previous
    /// levels, which are left unchanged while the new level is written into
    /// the third buffer; then the levels rotate and the counter advances.
    /// `scratch` supplies nothing but storage and receives the oldest level.
    pub fn step<F: Fn(Stencil<T>) -> T>(
        &mut self,
        shape: &GridShape,
        scratch: &mut Vec<T>,
        update: F,
    )
        requires
            shape.wf(),
            old(self).wf(),
            old(self).samples() == shape.count(),
            old(scratch)@.len() == shape.count(),
            old(self).steps() < u64::MAX,
            forall|st: Stencil<T>| update.requires((st,)),
        ensures
            final(self).wf(),
            old(self).steps_to(*final(self), *shape, update),
            final(scratch)@.len() == shape.count(),
    {
        let n = shape.len();
        let mut p: usize = 0;
        while p < n
            invariant
                n == shape.count(),
                shape.wf(),
                self.wf(),
                self.samples() == n,
                self == old(self),
                scratch@.len() == n,
                p <= n,
                forall|st: Stencil<T>| update.requires((st,)),
                forall|q: int|
                    0 <= q < p ==> update.ensures(
                        (stencil_at(*shape, self.current_view(), self.previous_view(), q),),
                        #[trigger] scratch@[q],
                    ),
            decreases n - p,
        {
            let st = self.stencil(shape, p);
            let v = update(st);
            scratch.set(p, v);
            p = p + 1;
        }
        self.advance(scratch);
    }

    /// The stencil of sample `p` over the present and previous levels.
    fn stencil(&self, shape: &GridShape, p: usize) -> (r: Stencil<T>)
        requires
            shape.wf(),
            self.wf(),
            self.samples() == shape.count(),
            p < shape.count(),
        ensures
            r == stencil_at(*shape, self.current_view(), self.previous_view(), p as int),
    {
        let cur = self.current();
        let prev = self.previous();
        let (x, y, z) = shape.coords(p);
        Stencil {
            index: p,
            current: cur[p],
            previous: prev[p],
            x_minus: neighbor_value_at(shape, cur, x, y, z, 0),
            x_plus: neighbor_value_at(shape, cur, x, y, z, 1),
            y_minus: neighbor_value_at(shape, cur, x, y, z, 2),
            y_plus: neighbor_value_at(shape, cur, x, y, z, 3),
            z_minus: neighbor_value_at(shape, cur, x, y, z, 4),
            z_plus: neighbor_value_at(shape, cur, x, y, z, 5),
        }
    }
}

/// Present value of the `k`-th stencil neighbour of `(x, y, z)`, or `None`
/// outside the grid.
fn neighbor_value_at<T: Copy>(
    shape: &GridShape,
    field: &Vec<T>,
    x: usize,
    y: usize,
    z: usize,
    k: usize,
) -> (r: Option<T>)
    requires
        shape.wf(),
        field@.len() == shape.count(),
        shape.contains(x as int, y as int, z as int),
        k < 6,
    ensures
        r == neighbor_value(*shape, field@, shape.flat(x as int, y as int, z as int), k as int),
{
    proof {
        crate::grid::lemma_flat_round_trip(*shape, x as int, y as int, z as int);
    }
    match shape.neighbor(x, y, z, k) {
        Some(n) => Some(field[n]),
        None => None,
    }
}

/// A vector of `len` copies of `v`.
pub(crate) fn filled<T: Copy>(len: usize, v: T) -> (r: Vec<T>)
    ensures
        r@ == Seq::new(len as nat, |j: int| v),
{
    let mut out: Vec<T> = Vec::new();
    let mut i: usize = 0;
    while i < len
        invariant
            i <= len,
            out@ == Seq::new(i as nat, |j: int| v),
        decreases len - i,
    {
        out.push(v);
        i = i + 1;
        proof {
            assert(out@ =~= Seq::new(i as nat, |j: int| v));
        }
    }
    out
}

/// Overwrites every element of `buf` with `v`.
fn fill<T: Copy>(buf: &mut Vec<T>, v: T)
    ensures
        final(buf)@ == Seq::new(old(buf)@.len(), |j: int| v),
{
    let n = buf.len();
    let mut i: usize = 0;
    while i < n
        invariant
            i <= n,
            buf@.len() == n,
            n == old(buf)@.len(),
            forall|j: int| 0 <= j < i ==> buf@[j] == v,
        decreases n - i,
    {
        buf.set(i, v);
        i = i + 1;
    }
    proof {
        assert(buf@ =~= Seq::new(n as nat, |j: int| v));
    }
}


/// Every value that `st` carries is `zero`.
pub open spec fn stencil_is_zero<T>(st: Stencil<T>, zero: T) -> bool {
    &&& st.current == zero
    &&& st.previous == zero
    &&& (st.x_minus is None || st.x_minus == Some(zero))
    &&& (st.x_plus is None || st.x_plus == Some(zero))
    &&& (st.y_minus is None || st.y_minus == Some(zero))
    &&& (st.y_plus is None || st.y_plus == Some(zero))
    &&& (st.z_minus is None || st.z_minus == Some(zero))
    &&& (st.z_plus is None || st.z_plus == Some(zero))
}

/// A field that is `zero` everywhere at both time levels stays so after a
/// step whose update, free of excitation, maps an all-zero stencil to `zero`.
pub proof fn lemma_zero_field_stays_zero<T: Copy, F: Fn(Stencil<T>) -> T>(
    shape: GridShape,
    before: FieldBuffers<T>,
    after: FieldBuffers<T>,
    update: F,
    zero: T,
)
    requires
        shape.wf(),
        before.wf(),
        before.samples() == shape.count(),
        before.current_view() == Seq::new(shape.count() as nat, |i: int| zero),
        before.previous_view() == Seq::new(shape.count() as nat, |i: int| zero),
        forall|st: Stencil<T>, r: T|
            stencil_is_zero(st, zero) && #[trigger] update.ensures((st,), r) ==> r == zero,
        before.steps_to(after, shape, update),
    ensures
        after.current_view() == Seq::new(shape.count() as nat, |i: int| zero),
        after.previous_view() == Seq::new(shape.count() as nat, |i: int| zero),
{
    let cur = before.current_view();
    let prev = before.previous_view();
    assert forall|p: int| 0 <= p < shape.count() implies #[trigger] after.current_view()[p]
        == zero by {
        let st = stencil_at(shape, cur, prev, p);
        crate::grid::lemma_unflat_round_trip(shape, p);
        let (x, y, z) = shape.unflat(p);
        assert forall|k: int| 0 <= k < 6 implies {
            let (dx, dy, dz) = #[trigger] stencil_offset(k);
            shape.contains(x + dx, y + dy, z + dz) ==> 0 <= shape.flat(x + dx, y + dy, z + dz)
                < shape.count()
        } by {
            let (dx, dy, dz) = stencil_offset(k);
            if shape.contains(x + dx, y + dy, z + dz) {
                crate::grid::lemma_flat_in_range(shape, x + dx, y + dy, z + dz);
            }
        }
        assert(stencil_is_zero(st, zero));
        assert(update.ensures((st,), after.current_view()[p]));
    }
    assert(after.current_view() =~= Seq::new(shape.count() as nat, |i: int| zero));
}

/// Stepping is deterministic: when `update` gives one result per stencil,
/// two states with equal time levels and counters step to equal states.
pub proof fn lemma_step_deterministic<T: Copy, F: Fn(Stencil<T>) -> T>(
    shape: GridShape,
    a: FieldBuffers<T>,
    a_next: FieldBuffers<T>,
    b: FieldBuffers<T>,
    b_next: FieldBuffers<T>,
    update: F,
)
    requires
        shape.wf(),
        a.samples() == shape.count(),
        b.samples() == shape.count(),
        a.steps() == b.steps(),
        a.current_view() == b.current_view(),
        a.previous_view() == b.previous_view(),
        forall|st: Stencil<T>, r1: T, r2: T|
            #[trigger] update.ensures((st,), r1) && #[trigger] update.ensures((st,), r2) ==> r1
                == r2,
        a.steps_to(a_next, shape, update),
        b.steps_to(b_next, shape, update),
    ensures
        a_next.steps() == b_next.steps(),
        a_next.current_view() == b_next.current_view(),
        a_next.previous_view() == b_next.previous_view(),
{
    assert forall|p: int| 0 <= p < shape.count() implies #[trigger] a_next.current_view()[p]
        == b_next.current_view()[p] by {
        let st = stencil_at(shape, a.current_view(), a.previous_view(), p);
        assert(update.ensures((st,), a_next.current_view()[p]));
        assert(update.ensures((st,), b_next.current_view()[p]));
    }
    assert(a_next.current_view() =~= b_next.current_view());
}

} // verus!
