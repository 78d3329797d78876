use wave_sim::{roles, FieldBuffers, GridShape, Simulation, Stencil};

fn shape(x: usize, y: usize, z: usize) -> GridShape {
    GridShape::new(x, y, z).unwrap()
}

#[test]
fn new_rejects_empty_and_overflowing_shapes() {
    assert!(GridShape::new(0, 3, 3).is_none());
    assert!(GridShape::new(3, 0, 3).is_none());
    assert!(GridShape::new(3, 3, 0).is_none());
    assert!(GridShape::new(usize::MAX, 2, 1).is_none());
    assert!(GridShape::new(1 << 40, 1 << 20, 1 << 10).is_none());
    let s = shape(2, 3, 4);
    assert_eq!((s.x, s.y, s.z), (2, 3, 4));
    assert_eq!(s.len(), 24);
}

#[test]
fn index_is_row_major_with_z_fastest() {
    let s = shape(3, 4, 5);
    assert_eq!(s.index(0, 0, 0), 0);
    assert_eq!(s.index(0, 0, 1), 1);
    assert_eq!(s.index(0, 1, 0), 5);
    assert_eq!(s.index(1, 0, 0), 20);
    assert_eq!(s.index(2, 3, 4), 59);
    assert_eq!(s.coords(59), (2, 3, 4));
    assert_eq!(s.coords(27), (1, 1, 2));
}

#[test]
fn every_index_round_trips_through_coordinates() {
    for &(x, y, z) in &[(3usize, 4usize, 5usize), (1, 1, 1), (7, 1, 2), (2, 9, 1)] {
        let s = shape(x, y, z);
        for i in 0..s.len() {
            let (a, b, c) = s.coords(i);
            assert!(a < x && b < y && c < z);
            assert_eq!(s.index(a, b, c), i);
        }
    }
}

#[test]
fn neighbors_outside_the_grid_are_absent() {
    let s = shape(3, 3, 3);
    assert_eq!(s.neighbor(0, 1, 1, 0), None);
    assert_eq!(s.neighbor(0, 1, 1, 1), Some(s.index(1, 1, 1)));
    assert_eq!(s.neighbor(2, 2, 2, 1), None);
    assert_eq!(s.neighbor(2, 2, 2, 3), None);
    assert_eq!(s.neighbor(2, 2, 2, 5), None);
    assert_eq!(s.neighbor(1, 0, 1, 2), None);
    assert_eq!(s.neighbor(1, 1, 0, 4), None);
    assert_eq!(s.neighbor(1, 1, 1, 2), Some(s.index(1, 0, 1)));
    assert_eq!(s.neighbor(1, 1, 1, 5), Some(s.index(1, 1, 2)));
}

#[test]
fn roles_rotate_with_the_counter() {
    assert_eq!(roles(0), (2, 0, 1));
    assert_eq!(roles(1), (0, 1, 2));
    assert_eq!(roles(2), (1, 2, 0));
    assert_eq!(roles(3), (2, 0, 1));
    for k in 0..20u64 {
        let (p, c, n) = roles(k);
        assert!(p != c && c != n && p != n);
        assert_eq!(c as u64, k % 3);
    }
}

#[test]
fn advance_rotates_levels_and_hands_back_the_oldest() {
    let mut b = FieldBuffers::new(2, 0u32);
    assert_eq!(b.step_count(), 0);
    assert_eq!(b.len(), 2);
    let mut next = vec![1u32, 1];
    b.advance(&mut next);
    assert_eq!(b.step_count(), 1);
    assert_eq!(b.current(), &vec![1, 1]);
    assert_eq!(b.previous(), &vec![0, 0]);
    assert_eq!(next, vec![0, 0]);
    let mut next = vec![2u32, 2];
    b.advance(&mut next);
    assert_eq!(b.current(), &vec![2, 2]);
    assert_eq!(b.previous(), &vec![1, 1]);
    assert_eq!(b.slot_ref(2), &vec![2, 2]);
    b.reset(7);
    assert_eq!(b.step_count(), 0);
    for i in 0..3 {
        assert_eq!(b.slot_ref(i), &vec![7, 7]);
    }
}

/// One explicit update of the discretized wave equation, with no excitation.
fn wave_update(c: f32, dx: f32, dt: f32) -> impl Fn(Stencil<f32>) -> f32 {
    move |st: Stencil<f32>| {
        let n = [st.x_minus, st.x_plus, st.y_minus, st.y_plus, st.z_minus, st.z_plus];
        let sum: f32 = n.iter().map(|v| v.unwrap_or(0.0)).sum();
        let laplacian = sum - 6.0 * st.current;
        c * c * (dt / (dx * dx * dx)) * laplacian - st.previous + 2.0 * st.current
    }
}

#[test]
fn step_reads_frozen_levels_and_writes_the_third() {
    let s = shape(1, 1, 3);
    let mut b = FieldBuffers::new(3, 0i64);
    let mut scratch = vec![0i64; 3];
    let mut seed = vec![1i64, 2, 3];
    b.advance(&mut seed);
    b.step(&s, &mut scratch, |st: Stencil<i64>| {
        st.current * 100 + st.previous * 10 + st.z_minus.unwrap_or(-1) + st.z_plus.unwrap_or(-1)
    });
    assert_eq!(b.step_count(), 2);
    assert_eq!(b.previous(), &vec![1, 2, 3]);
    assert_eq!(b.current(), &vec![100 - 1 + 2, 200 + 1 + 3, 300 + 2 - 1]);
}

#[test]
fn zero_field_without_sources_stays_zero() {
    let s = shape(4, 5, 3);
    let mut b = FieldBuffers::new(s.len(), 0.0f32);
    let mut scratch = vec![0.0f32; s.len()];
    for _ in 0..25 {
        b.step(&s, &mut scratch, wave_update(1.0, 0.1, 0.00001));
    }
    assert_eq!(b.step_count(), 25);
    assert!(b.current().iter().all(|v| v.to_bits() == 0));
    assert!(b.previous().iter().all(|v| v.to_bits() == 0));
}

#[test]
fn center_perturbation_spreads_symmetrically_without_outside_influence() {
    let s = shape(3, 3, 3);
    let mut b = FieldBuffers::new(s.len(), 0.0f32);
    let mut seed = vec![0.0f32; s.len()];
    seed[s.index(1, 1, 1)] = 1.0;
    b.advance(&mut seed);
    let mut scratch = vec![0.0f32; s.len()];
    b.step(&s, &mut scratch, wave_update(1.0, 1.0, 0.1));
    let f = b.current();
    let center = f[s.index(1, 1, 1)];
    assert_eq!(center, 0.1 * -6.0 + 2.0);
    let faces = [(0, 1, 1), (2, 1, 1), (1, 0, 1), (1, 2, 1), (1, 1, 0), (1, 1, 2)];
    for &(x, y, z) in &faces {
        assert_eq!(f[s.index(x, y, z)], 0.1);
    }
    for i in 0..s.len() {
        let (x, y, z) = s.coords(i);
        let off = [x != 1, y != 1, z != 1].iter().filter(|&&d| d).count();
        if off >= 2 {
            assert_eq!(f[i].to_bits(), 0);
        }
    }
}

#[test]
fn repeated_runs_are_bit_identical() {
    let s = shape(5, 4, 6);
    let run = || {
        let mut b = FieldBuffers::new(s.len(), 0.0f32);
        let mut seed = vec![0.0f32; s.len()];
        seed[s.index(2, 1, 3)] = 1.0;
        seed[s.index(0, 3, 5)] = -0.5;
        b.advance(&mut seed);
        let mut scratch = vec![0.0f32; s.len()];
        for _ in 0..40 {
            b.step(&s, &mut scratch, wave_update(1.0, 0.5, 0.01));
        }
        b.current().iter().map(|v| v.to_bits()).collect::<Vec<u32>>()
    };
    let first = run();
    assert!(first.iter().any(|&v| v != 0));
    assert_eq!(first, run());
}

#[test]
fn simulation_ticks_and_resets() {
    let s = shape(2, 2, 2);
    let mut sim = Simulation::new(s, 0i32);
    assert_eq!(sim.shape(), s);
    assert_eq!(sim.step_count(), 0);
    sim.tick(|st: Stencil<i32>| st.current + st.index as i32);
    sim.tick(|st: Stencil<i32>| st.current + st.previous + 1);
    assert_eq!(sim.step_count(), 2);
    assert_eq!(sim.previous(), &vec![0, 1, 2, 3, 4, 5, 6, 7]);
    assert_eq!(sim.current(), &vec![1, 2, 3, 4, 5, 6, 7, 8]);
    sim.reset(0);
    assert_eq!(sim.step_count(), 0);
    assert_eq!(sim.current(), &vec![0; 8]);
    assert_eq!(sim.previous(), &vec![0; 8]);
}
