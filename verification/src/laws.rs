//! The library's laws: grid-level properties of wrapping, flipping and
//! stepping, proved once over the mathematical model.

use vstd::prelude::*;

use crate::model::GridView;
use crate::model::accepts_spec;
use crate::model::alignment_spec;
use crate::model::coupling_sign;
use crate::model::flip_grid;
use crate::model::flip_val;
use crate::model::is_spin;
use crate::model::lemma_lin_index_bounds;
use crate::model::lin_index;
use crate::model::spin_at_spec;
use crate::model::step_spec;

verus! {

/// Law: the grid is a torus. Shifting either coordinate by a full grid
/// dimension, in either direction, reads the same cell.
pub proof fn lemma_spin_at_periodic(g: GridView, i: int, j: int)
    requires
        g.wf(),
    ensures
        spin_at_spec(g, i + g.width, j) == spin_at_spec(g, i, j),
        spin_at_spec(g, i - g.width, j) == spin_at_spec(g, i, j),
        spin_at_spec(g, i, j + g.height) == spin_at_spec(g, i, j),
        spin_at_spec(g, i, j - g.height) == spin_at_spec(g, i, j),
{
    vstd::arithmetic::div_mod::lemma_mod_add_multiples_vanish(i, g.width);
    vstd::arithmetic::div_mod::lemma_mod_sub_multiples_vanish(i, g.width);
    vstd::arithmetic::div_mod::lemma_mod_add_multiples_vanish(j, g.height);
    vstd::arithmetic::div_mod::lemma_mod_sub_multiples_vanish(j, g.height);
}

/// Law: flipping a cell is an involution. Two flips at coordinates that
/// wrap onto the same cell restore the original grid.
pub proof fn lemma_flip_involution(g: GridView, i: int, j: int)
    requires
        g.wf(),
    ensures
        flip_grid(flip_grid(g, i, j), i, j) == g,
{
    lemma_lin_index_bounds(g, i, j);
    let k = lin_index(g, i, j);
    assert(flip_grid(flip_grid(g, i, j), i, j).spins =~= g.spins);
    assert(flip_grid(flip_grid(g, i, j), i, j) =~= g);
}

/// Law: a step preserves well-formedness. The grid keeps its dimensions,
/// its length and its coupling constant, and every cell stays a signed
/// unit, whatever site and draw are injected.
pub proof fn lemma_step_preserves_wf(g: GridView, i: int, j: int, draw_accepts: bool)
    requires
        g.wf(),
    ensures
        step_spec(g, i, j, draw_accepts).wf(),
        step_spec(g, i, j, draw_accepts).width == g.width,
        step_spec(g, i, j, draw_accepts).height == g.height,
        step_spec(g, i, j, draw_accepts).coupling_bits == g.coupling_bits,
        step_spec(g, i, j, draw_accepts).spins.len() == g.spins.len(),
{
    lemma_lin_index_bounds(g, i, j);
}

/// Law: a step changes at most one cell, the wrapped target site; every
/// other cell is left exactly as it was.
pub proof fn lemma_step_changes_at_most_one_cell(g: GridView, i: int, j: int, draw_accepts: bool)
    requires
        g.wf(),
    ensures
        step_spec(g, i, j, draw_accepts).spins.len() == g.spins.len(),
        forall|m: int|
            0 <= m < g.spins.len() && m != lin_index(g, i, j) ==> #[trigger] step_spec(
                g,
                i,
                j,
                draw_accepts,
            ).spins[m] == g.spins[m],
{
    lemma_lin_index_bounds(g, i, j);
}

/// One trajectory: the grid after playing a script of injected sites and
/// thermal draws, in order, from an initial grid.
pub open spec fn run_script(g: GridView, script: Seq<(int, int, bool)>) -> GridView
    decreases script.len(),
{
    if script.len() == 0 {
        g
    } else {
        step_spec(
            run_script(g, script.drop_last()),
            script.last().0,
            script.last().1,
            script.last().2,
        )
    }
}

/// Law: the simulation is deterministic once the randomness is injected.
/// A trajectory is a function of the initial grid and the script of site
/// choices and acceptance draws alone, so two runs from equal state under
/// an equal script produce identical grids.
pub proof fn lemma_trajectory_deterministic(
    g1: GridView,
    g2: GridView,
    script: Seq<(int, int, bool)>,
)
    requires
        g1 == g2,
    ensures
        run_script(g1, script) == run_script(g2, script),
{
}

/// Law: on a one-by-one grid every neighbor offset wraps back onto the
/// single cell, so its alignment is always `4`; with a non-negative
/// coupling constant the local energy contribution is non-negative and a
/// step flips the spin unconditionally.
pub proof fn lemma_unit_grid_always_flips(g: GridView, i: int, j: int, draw_accepts: bool)
    requires
        g.wf(),
        g.width == 1,
        g.height == 1,
        coupling_sign(g.coupling_bits) >= 0,
    ensures
        alignment_spec(g, i, j) == 4,
        accepts_spec(g.coupling_bits, alignment_spec(g, i, j)),
        step_spec(g, i, j, draw_accepts) == flip_grid(g, i, j),
        step_spec(g, i, j, draw_accepts).spins[0] == flip_val(g.spins[0]),
{
    assert(lin_index(g, i, j) == 0);
    assert(lin_index(g, i, j - 1) == 0);
    assert(lin_index(g, i, j + 1) == 0);
    assert(lin_index(g, i + 1, j) == 0);
    assert(lin_index(g, i - 1, j) == 0);
    let s = g.spins[0];
    assert(is_spin(s));
    if s == 1i8 {
        assert(alignment_spec(g, i, j) == 4);
    } else {
        assert(alignment_spec(g, i, j) == 4);
    }
}

/// Law: on a one-by-one grid with a non-negative coupling constant, after
/// `n` steps at any fixed site the spin equals its initial value when `n`
/// is even and its negation when `n` is odd.
pub proof fn lemma_unit_grid_parity(g: GridView, i: int, j: int, n: nat)
    requires
        g.wf(),
        g.width == 1,
        g.height == 1,
        coupling_sign(g.coupling_bits) >= 0,
    ensures
        run_fixed_site(g, i, j, n).wf(),
        run_fixed_site(g, i, j, n).width == 1,
        run_fixed_site(g, i, j, n).height == 1,
        run_fixed_site(g, i, j, n).coupling_bits == g.coupling_bits,
        run_fixed_site(g, i, j, n).spins[0] == if n % 2 == 0 {
            g.spins[0]
        } else {
            flip_val(g.spins[0])
        },
    decreases n,
{
    if n > 0 {
        lemma_unit_grid_parity(g, i, j, (n - 1) as nat);
        let prev = run_fixed_site(g, i, j, (n - 1) as nat);
        lemma_unit_grid_always_flips(prev, i, j, false);
        lemma_step_preserves_wf(prev, i, j, false);
    }
}

/// The grid after `n` draw-free steps at one fixed site.
pub open spec fn run_fixed_site(g: GridView, i: int, j: int, n: nat) -> GridView
    decreases n,
{
    if n == 0 {
        g
    } else {
        step_spec(run_fixed_site(g, i, j, (n - 1) as nat), i, j, false)
    }
}

} // verus!
