//! The acceptance rule, stepping, determinism and the alignment sum.

use ising::IsingModel;

/// Three-by-three grid, all spins down except the center: the center's
/// neighbor sum is `-4`, so its alignment is `-4`.
fn lone_up_center(coupling: f32) -> IsingModel {
    let mut spins: Vec<i8> = vec![-1; 9];
    spins[1 + 3 * 1] = 1;
    IsingModel::from_spins(3, 3, coupling.to_bits(), spins)
}

fn collect_spins(m: &IsingModel) -> Vec<i8> {
    let mut out = Vec::new();
    for j in 0..m.height() {
        for i in 0..m.width() {
            out.push(m.spin_at(i, j));
        }
    }
    out
}

#[test]
fn negative_contribution_is_not_accepted_outright() {
    let m = lone_up_center(1.0);
    assert_eq!(m.energy_alignment(1, 1), -4);
    assert!(!m.accepts_without_draw(1, 1));
}

#[test]
fn nonnegative_contribution_is_accepted_outright() {
    let m = lone_up_center(1.0);
    assert_eq!(m.energy_alignment(0, 0), 4);
    assert!(m.accepts_without_draw(0, 0));
    assert_eq!(m.energy_alignment(1, 0), 2);
    assert!(m.accepts_without_draw(1, 0));
}

#[test]
fn zero_coupling_always_accepts() {
    for zero in [0.0f32, -0.0] {
        let m = lone_up_center(zero);
        assert!(m.accepts_without_draw(1, 1));
        assert!(m.accepts_without_draw(0, 0));
    }
}

#[test]
fn negative_coupling_inverts_the_acceptance_sense() {
    let m = lone_up_center(-1.0);
    assert!(m.accepts_without_draw(1, 1));
    assert!(!m.accepts_without_draw(0, 0));
}

#[test]
fn rejected_step_leaves_grid_unchanged() {
    let mut m = lone_up_center(1.0);
    let before = collect_spins(&m);
    let flipped = m.step(1, 1, false);
    assert_eq!(flipped, None);
    assert_eq!(collect_spins(&m), before);
}

#[test]
fn accepted_draw_flips_the_site() {
    let mut m = lone_up_center(1.0);
    let flipped = m.step(1, 1, true);
    assert_eq!(flipped, Some((1, 1)));
    assert_eq!(m.spin_at(1, 1), -1);
}

#[test]
fn step_reports_the_coordinates_it_was_given() {
    let mut m = lone_up_center(1.0);
    let flipped = m.step(-2, 3, false);
    assert_eq!(flipped, Some((-2, 3)));
    assert_eq!(m.spin_at(1, 0), 1);
}

#[test]
fn step_changes_at_most_one_cell() {
    let mut m = lone_up_center(1.0);
    let before = collect_spins(&m);
    m.step(2, 2, false);
    let after = collect_spins(&m);
    let changed = before
        .iter()
        .zip(after.iter())
        .filter(|(a, b)| a != b)
        .count();
    assert!(changed <= 1);
    assert_eq!(before.len(), after.len());
}

#[test]
fn step_keeps_spins_in_domain() {
    let mut m = IsingModel::new(4, 4, 0.7f32.to_bits()).unwrap();
    for k in 0..100 {
        let (i, j) = m.select_random_site();
        m.step(i, j, k % 3 == 0);
    }
    for s in collect_spins(&m) {
        assert!(s == 1 || s == -1);
    }
}

#[test]
fn fixed_scripts_give_identical_trajectories() {
    let spins: Vec<i8> = vec![1, -1, -1, 1, 1, 1, -1, 1, -1, -1, 1, -1];
    let script: [(i64, i64, bool); 6] = [
        (0, 0, false),
        (2, 3, true),
        (1, 1, false),
        (-1, -1, false),
        (2, 0, true),
        (0, 2, false),
    ];
    let mut m1 = IsingModel::from_spins(3, 4, 0.4f32.to_bits(), spins.clone());
    let mut m2 = IsingModel::from_spins(3, 4, 0.4f32.to_bits(), spins);
    let mut r1 = Vec::new();
    let mut r2 = Vec::new();
    for &(i, j, draw) in &script {
        r1.push(m1.step(i, j, draw));
        r2.push(m2.step(i, j, draw));
    }
    assert_eq!(r1, r2);
    assert_eq!(collect_spins(&m1), collect_spins(&m2));
}

#[test]
fn unit_grid_always_flips_with_positive_coupling() {
    let mut m = IsingModel::from_spins(1, 1, 2.0f32.to_bits(), vec![1]);
    assert_eq!(m.energy_alignment(0, 0), 4);
    assert_eq!(m.energy_alignment(-5, 9), 4);
    let flipped = m.step(0, 0, false);
    assert_eq!(flipped, Some((0, 0)));
    assert_eq!(m.spin_at(0, 0), -1);
}

#[test]
fn unit_grid_parity_after_many_steps() {
    let mut m = IsingModel::from_spins(1, 1, 2.0f32.to_bits(), vec![1]);
    for _ in 0..10 {
        m.step(0, 0, false);
    }
    assert_eq!(m.spin_at(0, 0), 1);
    m.step(0, 0, false);
    assert_eq!(m.spin_at(0, 0), -1);
}

#[test]
fn total_alignment_of_uniform_grid() {
    let m = IsingModel::from_spins(2, 2, 1.0f32.to_bits(), vec![1; 4]);
    assert_eq!(m.total_alignment(), 16);
}

#[test]
fn total_alignment_of_lone_up_center() {
    let m = lone_up_center(1.0);
    assert_eq!(m.total_alignment(), 20);
}

#[test]
fn neighbor_sum_wraps_on_the_torus() {
    let m = lone_up_center(1.0);
    assert_eq!(m.neighbor_sum(1, 0), -2);
    assert_eq!(m.neighbor_sum(1, 2), -2);
    assert_eq!(m.neighbor_sum(0, 1), -2);
    assert_eq!(m.neighbor_sum(1, 1), -4);
    assert_eq!(m.neighbor_sum(0, 0), -4);
    assert_eq!(m.neighbor_sum(-2, -2), -4);
}
