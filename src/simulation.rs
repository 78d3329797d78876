//! A running field simulation: a fixed grid, its three time levels and the
//! storage that the next level is written into.
use vstd::prelude::*;
use crate::buffers::{filled, FieldBuffers, Stencil};
use crate::grid::GridShape;

verus! {

pub struct Simulation<T> {
    shape: GridShape,
    buffers: FieldBuffers<T>,
    scratch: Vec<T>,
}

impl<T: Copy> Simulation<T> {
    pub closed spec fn grid(&self) -> GridShape {
        self.shape
    }

    pub closed spec fn levels(&self) -> FieldBuffers<T> {
        self.buffers
    }

    /// The grid is valid and every buffer holds one sample per vertex.
    pub closed spec fn wf(&self) -> bool {
        &&& self.shape.wf()
        &&& self.buffers.wf()
        &&& self.buffers.samples() == self.shape.count()
        &&& self.scratch@.len() == self.shape.count()
    }

    /// A simulation over `shape` whose field is `zero` everywhere, at step 0.
    pub fn new(shape: GridShape, zero: T) -> (r: Self)
        requires
            shape.wf(),
        ensures
            r.wf(),
            r.grid() == shape,
            r.levels().steps() == 0,
            r.levels().current_view() == Seq::new(shape.count() as nat, |i: int| zero),
            r.levels().previous_view() == Seq::new(shape.count() as nat, |i: int| zero),
    {
        let n = shape.len();
        Simulation { shape, buffers: FieldBuffers::new(n, zero), scratch: filled(n, zero) }
    }

    /// Sets the field to `zero` everywhere at both levels and the counter to 0.
    pub fn reset(&mut self, zero: T)
        requires
            old(self).wf(),
        ensures
            final(self).wf(),
            final(self).grid() == old(self).grid(),
            final(self).levels().steps() == 0,
            final(self).levels().current_view() == Seq::new(
                old(self).grid().count() as nat,
                |i: int| zero,
            ),
            final(self).levels().previous_view() == Seq::new(
                old(self).grid().count() as nat,
                |i: int| zero,
            ),
    {
        self.buffers.reset(zero);
    }

    /// Advances the field one time level by `update` (see `FieldBuffers::step`).
    pub fn tick<F: Fn(Stencil<T>) -> T>(&mut self, update: F)
        requires
            old(self).wf(),
            old(self).levels().steps() < u64::MAX,
            forall|st: Stencil<T>| update.requires((st,)),
        ensures
            final(self).wf(),
            final(self).grid() == old(self).grid(),
            old(self).levels().steps_to(final(self).levels(), old(self).grid(), update),
    {
        self.buffers.step(&self.shape, &mut self.scratch, update);
    }

    /// The grid shape.
    pub fn shape(&self) -> (r: GridShape)
        ensures
            r == self.grid(),
    {
        self.shape
    }

    /// Number of completed steps.
    pub fn step_count(&self) -> (r: u64)
        ensures
            r == self.levels().steps(),
    {
        self.buffers.step_count()
    }

    /// The field at the present time level.
    pub fn current(&self) -> (r: &Vec<T>)
        ensures
            r@ == self.levels().current_view(),
    {
        self.buffers.current()
    }

    /// The field one time level back.
    pub fn previous(&self) -> (r: &Vec<T>)
        ensures
            r@ == self.levels().previous_view(),
    {
        self.buffers.previous()
    }
}

} // verus!
