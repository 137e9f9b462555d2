//! A verified core for a two-dimensional Ising model: a toroidal grid of
//! binary spins evolved by single-site Metropolis-style updates.
//!
//! The library owns the grid representation, periodic-boundary addressing,
//! local energy bookkeeping and the acceptance decision; the host supplies
//! the floating-point thermal draw and drives the simulation loop.

mod laws;
mod model;
mod rng;

pub use laws::lemma_flip_involution;
pub use laws::lemma_spin_at_periodic;
pub use laws::lemma_step_changes_at_most_one_cell;
pub use laws::lemma_step_preserves_wf;
pub use laws::lemma_trajectory_deterministic;
pub use laws::lemma_unit_grid_always_flips;
pub use laws::lemma_unit_grid_parity;
pub use laws::run_fixed_site;
pub use laws::run_script;
pub use model::GridView;
pub use model::IsingError;
pub use model::IsingModel;
pub use model::accepts_spec;
pub use model::alignment_spec;
pub use model::check_temperature;
pub use model::column_alignment_sum;
pub use model::coupling_sign;
pub use model::flip_grid;
pub use model::flip_val;
pub use model::is_spin;
pub use model::is_valid_temperature;
pub use model::lemma_alignment_bounds;
pub use model::lemma_lin_index_bounds;
pub use model::lin_index;
pub use model::neighbor_sum_spec;
pub use model::spin_at_spec;
pub use model::step_spec;
pub use model::total_alignment_spec;
pub use model::total_alignment_upto;
