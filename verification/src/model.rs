//! The lattice model: grid storage, toroidal addressing and spin reads.

use vstd::prelude::*;

verus! {

/// A spin is stored as a signed unit: `+1` (up) or `-1` (down).
pub open spec fn is_spin(s: i8) -> bool {
    s == 1i8 || s == -1i8
}

/// Negation of a valid spin value.
pub open spec fn flip_val(s: i8) -> i8 {
    if s == 1i8 {
        -1i8
    } else {
        1i8
    }
}

/// The mathematical state of a lattice: dimensions, the raw bits of the
/// floating-point coupling constant, and the flat row-major spin sequence.
#[verifier::ext_equal]
pub struct GridView {
    pub width: int,
    pub height: int,
    pub coupling_bits: u32,
    pub spins: Seq<i8>,
}

impl GridView {
    /// Well-formedness: positive dimensions, a grid of exactly
    /// `width * height` cells, and every cell a signed unit.
    pub open spec fn wf(self) -> bool {
        &&& 1 <= self.width
        &&& 1 <= self.height
        &&& self.spins.len() == self.width * self.height
        &&& forall|k: int|
            0 <= k < self.spins.len() ==> is_spin(#[trigger] self.spins[k])
    }
}

/// Linear index of logical coordinates `(i, j)` after wrapping both onto the
/// torus. In spec arithmetic `%` is the Euclidean remainder, so the wrap is
/// non-negative even for negative coordinates.
pub open spec fn lin_index(g: GridView, i: int, j: int) -> int {
    (i % g.width) + g.width * (j % g.height)
}

/// The spin stored at the wrapped position of `(i, j)`.
pub open spec fn spin_at_spec(g: GridView, i: int, j: int) -> i8 {
    g.spins[lin_index(g, i, j)]
}

/// Sum of the four axis-aligned nearest neighbors of `(i, j)`, each read
/// through the wrapping accessor; ranges over `[-4, 4]`.
pub open spec fn neighbor_sum_spec(g: GridView, i: int, j: int) -> int {
    spin_at_spec(g, i, j - 1) + spin_at_spec(g, i, j + 1) + spin_at_spec(g, i + 1, j)
        + spin_at_spec(g, i - 1, j)
}

/// The integer factor of the local energy contribution at `(i, j)`:
/// the site's spin times its neighbor sum. The full contribution of the
/// nearest-neighbor Hamiltonian is the coupling constant times this value.
pub open spec fn alignment_spec(g: GridView, i: int, j: int) -> int {
    spin_at_spec(g, i, j) * neighbor_sum_spec(g, i, j)
}

/// Sign of the `f32` value whose bits are given: `-1`, `0` or `+1`.
/// Both zero encodings (`0.0` and `-0.0`) count as zero; for every other
/// finite value the top bit decides. Infinities and NaN are excluded by the
/// callers' domain: the coupling constant is a finite float.
pub open spec fn coupling_sign(bits: u32) -> int {
    if bits == 0u32 || bits == 0x8000_0000u32 {
        0
    } else if bits >= 0x8000_0000u32 {
        -1
    } else {
        1
    }
}

/// The half of the acceptance rule that needs no random draw: a proposed
/// flip at a site with alignment `a` is accepted outright exactly when the
/// local energy contribution `coupling * a` is non-negative.
pub open spec fn accepts_spec(bits: u32, a: int) -> bool {
    coupling_sign(bits) * a >= 0
}

/// The grid after negating the cell at the wrapped position of `(i, j)`.
pub open spec fn flip_grid(g: GridView, i: int, j: int) -> GridView {
    GridView { spins: g.spins.update(lin_index(g, i, j), flip_val(spin_at_spec(g, i, j))), ..g }
}

/// Whether `bits` encodes a strictly positive finite `f32` temperature:
/// above both zero encodings and below the positive-infinity encoding.
pub open spec fn is_valid_temperature(bits: u32) -> bool {
    1u32 <= bits <= 0x7F7F_FFFFu32
}

/// Validates a temperature before it reaches the Boltzmann factor, which
/// divides by it: accepts exactly the bit patterns (`f32::to_bits`) of
/// strictly positive finite values, so the host-side driver never divides
/// by zero or a negative, infinite or NaN temperature.
pub fn check_temperature(temperature_bits: u32) -> (r: Result<(), IsingError>)
    ensures
        r is Ok <==> is_valid_temperature(temperature_bits),
        r is Err ==> r == Err::<(), IsingError>(IsingError::InvalidTemperature),
{
    if 1 <= temperature_bits && temperature_bits <= 0x7F7F_FFFF {
        Ok(())
    } else {
        Err(IsingError::InvalidTemperature)
    }
}

/// Sum of the alignments of the first `rows` sites of column `i`.
pub open spec fn column_alignment_sum(g: GridView, i: int, rows: nat) -> int
    decreases rows,
{
    if rows == 0 {
        0
    } else {
        column_alignment_sum(g, i, (rows - 1) as nat) + alignment_spec(g, i, rows - 1)
    }
}

/// Sum of the alignments of every site in the first `cols` columns.
pub open spec fn total_alignment_upto(g: GridView, cols: nat) -> int
    decreases cols,
{
    if cols == 0 {
        0
    } else {
        total_alignment_upto(g, (cols - 1) as nat) + column_alignment_sum(
            g,
            cols - 1,
            g.height as nat,
        )
    }
}

/// Sum of `alignment_spec` over every site of the grid. The total lattice
/// energy is the coupling constant times this value; like its naive
/// double-sum ancestor it counts every pairwise bond twice.
pub open spec fn total_alignment_spec(g: GridView) -> int {
    total_alignment_upto(g, g.width as nat)
}

/// One update at site `(i, j)`: the flip happens exactly when the local
/// energy contribution is non-negative or the thermal draw accepted it.
pub open spec fn step_spec(g: GridView, i: int, j: int, draw_accepts: bool) -> GridView {
    if accepts_spec(g.coupling_bits, alignment_spec(g, i, j)) || draw_accepts {
        flip_grid(g, i, j)
    } else {
        g
    }
}

/// Construction and stepping fail only on non-positive grid dimensions;
/// a non-positive temperature is rejected by the host-side driver.
#[derive(Clone, Copy, Debug, PartialEq, Eq, Structural)]
pub enum IsingError {
    InvalidDimensions,
    InvalidTemperature,
}

/// A `width x height` toroidal grid of spins with a scalar coupling
/// constant, updated one site at a time.
///
/// The coupling constant is carried as the raw bits of its `f32` value
/// (`f32::to_bits`): only its sign enters the verified acceptance rule, and
/// the host recovers the full value for the Boltzmann factor.
pub struct IsingModel {
    width: i64,
    height: i64,
    coupling_bits: u32,
    spins: Vec<i8>,
}

impl View for IsingModel {
    type V = GridView;

    closed spec fn view(&self) -> GridView {
        GridView {
            width: self.width as int,
            height: self.height as int,
            coupling_bits: self.coupling_bits,
            spins: self.spins@,
        }
    }
}

/// Both dimensions are at most the cell count.
proof fn lemma_dims_le_len(w: int, h: int)
    requires
        1 <= w,
        1 <= h,
    ensures
        w <= w * h,
        h <= w * h,
{
    assert(w <= w * h && h <= w * h) by (nonlinear_arith)
        requires
            1 <= w,
            1 <= h,
    ;
}

/// The wrapped linear index lands inside the grid.
pub proof fn lemma_lin_index_bounds(g: GridView, i: int, j: int)
    requires
        g.wf(),
    ensures
        0 <= lin_index(g, i, j) < g.spins.len(),
{
    let x = i % g.width;
    let y = j % g.height;
    assert(0 <= x < g.width);
    assert(0 <= y < g.height);
    assert(x + g.width * y < g.width * g.height) by (nonlinear_arith)
        requires
            0 <= x < g.width,
            0 <= y < g.height,
    ;
}

/// On a well-formed grid every spin is a signed unit, so the alignment of
/// any site ranges over `[-4, 4]`.
pub proof fn lemma_alignment_bounds(g: GridView, i: int, j: int)
    requires
        g.wf(),
    ensures
        -4 <= alignment_spec(g, i, j) <= 4,
{
    lemma_lin_index_bounds(g, i, j);
    lemma_lin_index_bounds(g, i, j - 1);
    lemma_lin_index_bounds(g, i, j + 1);
    lemma_lin_index_bounds(g, i + 1, j);
    lemma_lin_index_bounds(g, i - 1, j);
    let s = spin_at_spec(g, i, j);
    let n = neighbor_sum_spec(g, i, j);
    assert(-4 <= n <= 4);
    if s == 1i8 {
        assert(s * n == n);
    } else {
        assert(s * n == -n);
    }
}

/// Bound on a partial column sum, by induction on the row count.
proof fn lemma_column_sum_bounds(g: GridView, i: int, rows: nat)
    requires
        g.wf(),
    ensures
        -4 * rows <= column_alignment_sum(g, i, rows) <= 4 * rows,
    decreases rows,
{
    if rows > 0 {
        lemma_column_sum_bounds(g, i, (rows - 1) as nat);
        lemma_alignment_bounds(g, i, rows - 1);
    }
}

/// Bound on a partial grid sum, by induction on the column count.
proof fn lemma_total_upto_bounds(g: GridView, cols: nat)
    requires
        g.wf(),
    ensures
        -4 * (cols * g.height) <= total_alignment_upto(g, cols) <= 4 * (cols * g.height),
    decreases cols,
{
    if cols > 0 {
        lemma_total_upto_bounds(g, (cols - 1) as nat);
        lemma_column_sum_bounds(g, cols - 1, g.height as nat);
        assert(((cols - 1) as nat) * g.height + g.height == cols * g.height) by (nonlinear_arith)
            requires
                cols >= 1,
        ;
    }
}

impl IsingModel {
    /// Creates a `width x height` grid whose cells are drawn independently
    /// and uniformly from `{+1, -1}` by the process-wide random source.
    /// Fails exactly when a dimension is non-positive; the cell count must
    /// fit the address space.
    pub fn new(width: i64, height: i64, coupling_bits: u32) -> (r: Result<IsingModel, IsingError>)
        requires
            width * height <= usize::MAX,
        ensures
            width < 1 || height < 1 ==> r == Err::<IsingModel, IsingError>(
                IsingError::InvalidDimensions,
            ),
            1 <= width && 1 <= height ==> r is Ok && {
                let m = r->Ok_0;
                &&& m@.wf()
                &&& m@.width == width
                &&& m@.height == height
                &&& m@.coupling_bits == coupling_bits
            },
    {
        if width < 1 || height < 1 {
            return Err(IsingError::InvalidDimensions);
        }
        proof {
            lemma_dims_le_len(width as int, height as int);
        }
        let n: usize = (width as usize) * (height as usize);
        let mut source = crate::rng::fresh_rng();
        let mut spins: Vec<i8> = Vec::new();
        while spins.len() < n
            invariant
                spins@.len() <= n,
                forall|k: int| 0 <= k < spins@.len() ==> is_spin(#[trigger] spins@[k]),
            decreases n - spins@.len(),
        {
            let up = crate::rng::rand_bool(&mut source);
            let s: i8 = if up {
                1
            } else {
                -1
            };
            spins.push(s);
        }
        Ok(IsingModel { width, height, coupling_bits, spins })
    }

    /// Builds a model from an explicit spin assignment: the deterministic
    /// construction path, used to inject a reproducible initial state.
    pub fn from_spins(width: i64, height: i64, coupling_bits: u32, spins: Vec<i8>) -> (m:
        IsingModel)
        requires
            1 <= width,
            1 <= height,
            spins@.len() == width * height,
            forall|k: int| 0 <= k < spins@.len() ==> is_spin(#[trigger] spins@[k]),
        ensures
            m@.wf(),
            m@.width == width,
            m@.height == height,
            m@.coupling_bits == coupling_bits,
            m@.spins == spins@,
    {
        IsingModel { width, height, coupling_bits, spins }
    }

    /// The grid width.
    pub fn width(&self) -> (w: i64)
        ensures
            w == self@.width,
    {
        self.width
    }

    /// The grid height.
    pub fn height(&self) -> (h: i64)
        ensures
            h == self@.height,
    {
        self.height
    }

    /// The raw `f32` bits of the coupling constant.
    pub fn coupling_bits(&self) -> (b: u32)
        ensures
            b == self@.coupling_bits,
    {
        self.coupling_bits
    }

    /// The linear index of `(i, j)` after wrapping onto the torus.
    fn grid_index(&self, i: i64, j: i64) -> (k: usize)
        requires
            self@.wf(),
        ensures
            k == lin_index(self@, i as int, j as int),
            k < self@.spins.len(),
    {
        let w = self.width;
        let h = self.height;
        let x: i64 = i.checked_rem_euclid(w).unwrap();
        let y: i64 = j.checked_rem_euclid(h).unwrap();
        let cells: usize = self.spins.len();
        proof {
            lemma_dims_le_len(w as int, h as int);
            lemma_lin_index_bounds(self@, i as int, j as int);
            assert(w <= cells && h <= cells);
        }
        (x as usize) + (w as usize) * (y as usize)
    }

    /// Reads the spin at arbitrary signed coordinates; both coordinates wrap
    /// modulo the grid dimensions, non-negatively even when negative.
    pub fn spin_at(&self, i: i64, j: i64) -> (s: i8)
        requires
            self@.wf(),
        ensures
            s == spin_at_spec(self@, i as int, j as int),
            is_spin(s),
    {
        let k = self.grid_index(i, j);
        self.spins[k]
    }

    /// Negates the spin at the wrapped position of `(i, j)`: the only
    /// mutation path for grid contents, and it touches exactly one cell.
    pub fn flip_spin(&mut self, i: i64, j: i64)
        requires
            old(self)@.wf(),
        ensures
            final(self)@ == flip_grid(old(self)@, i as int, j as int),
            final(self)@.wf(),
    {
        let k = self.grid_index(i, j);
        let s = self.spins[k];
        let f: i8 = if s == 1 {
            -1
        } else {
            1
        };
        self.spins[k] = f;
        proof {
            assert(final(self)@ =~= flip_grid(old(self)@, i as int, j as int));
        }
    }

    /// Sum of the four nearest neighbors of `(i, j)`, read with wrapping.
    pub fn neighbor_sum(&self, i: i64, j: i64) -> (s: i8)
        requires
            self@.wf(),
        ensures
            s as int == neighbor_sum_spec(self@, i as int, j as int),
            -4 <= s <= 4,
    {
        let w = self.width;
        let h = self.height;
        let x: i64 = i.checked_rem_euclid(w).unwrap();
        let y: i64 = j.checked_rem_euclid(h).unwrap();
        proof {
            broadcast use vstd::arithmetic::div_mod::lemma_mod_twice;

            vstd::arithmetic::div_mod::lemma_add_mod_noop_right(-1, j as int, h as int);
            vstd::arithmetic::div_mod::lemma_add_mod_noop_right(1, j as int, h as int);
            vstd::arithmetic::div_mod::lemma_add_mod_noop_right(-1, i as int, w as int);
            vstd::arithmetic::div_mod::lemma_add_mod_noop_right(1, i as int, w as int);
        }
        let north = self.spin_at(x, y - 1);
        let south = self.spin_at(x, y + 1);
        let east = self.spin_at(x + 1, y);
        let west = self.spin_at(x - 1, y);
        north + south + east + west
    }

    /// The site's spin times its neighbor sum: the integer factor of the
    /// local energy contribution, which is the coupling constant times this.
    pub fn energy_alignment(&self, i: i64, j: i64) -> (a: i8)
        requires
            self@.wf(),
        ensures
            a as int == alignment_spec(self@, i as int, j as int),
            -4 <= a <= 4,
    {
        let s = self.spin_at(i, j);
        let n = self.neighbor_sum(i, j);
        s * n
    }

    /// Decides the draw-free half of the acceptance rule: whether the local
    /// energy contribution `coupling * alignment` at `(i, j)` is
    /// non-negative, in which case a proposed flip is accepted outright.
    pub fn accepts_without_draw(&self, i: i64, j: i64) -> (r: bool)
        requires
            self@.wf(),
        ensures
            r == accepts_spec(self@.coupling_bits, alignment_spec(self@, i as int, j as int)),
    {
        let a = self.energy_alignment(i, j);
        let bits = self.coupling_bits;
        if bits == 0 || bits == 0x8000_0000 {
            true
        } else if bits >= 0x8000_0000 {
            a <= 0
        } else {
            a >= 0
        }
    }

    /// Sums the alignment of every site: the total lattice energy is the
    /// coupling constant times this value. Kept for compatibility with the
    /// naive double sum it descends from: every pairwise bond is counted
    /// twice, once from each of its two ends.
    pub fn total_alignment(&self) -> (t: i128)
        requires
            self@.wf(),
        ensures
            t == total_alignment_spec(self@),
    {
        let w = self.width;
        let h = self.height;
        let n: usize = self.spins.len();
        let mut total: i128 = 0;
        let mut i: i64 = 0;
        while i < w
            invariant
                self@.wf(),
                w == self@.width,
                h == self@.height,
                n == self@.spins.len(),
                0 <= i <= w,
                total == total_alignment_upto(self@, i as nat),
            decreases w - i,
        {
            let mut col: i128 = 0;
            let mut j: i64 = 0;
            while j < h
                invariant
                    self@.wf(),
                    w == self@.width,
                    h == self@.height,
                    0 <= i < w,
                    0 <= j <= h,
                    col == column_alignment_sum(self@, i as int, j as nat),
                    -4 * j <= col <= 4 * j,
                decreases h - j,
            {
                let a = self.energy_alignment(i, j);
                col = col + (a as i128);
                j = j + 1;
            }
            proof {
                lemma_dims_le_len(w as int, h as int);
                lemma_total_upto_bounds(self@, i as nat);
                lemma_total_upto_bounds(self@, (i + 1) as nat);
                assert((i as nat) * self@.height == (i as int) * (h as int));
                assert(((i + 1) as nat) * self@.height == ((i + 1) as int) * (h as int));
                assert((i as int) * (h as int) <= (w as int) * (h as int) && ((i + 1) as int) * (
                h as int) <= (w as int) * (h as int)) by (nonlinear_arith)
                    requires
                        0 <= i < w,
                        0 <= h,
                ;
            }
            total = total + col;
            i = i + 1;
        }
        total
    }

    /// Draws a site uniformly at random: a column in `[0, width)` and a row
    /// in `[0, height)`, independently, from the process-wide source.
    pub fn select_random_site(&self) -> (site: (i64, i64))
        requires
            self@.wf(),
        ensures
            0 <= site.0 < self@.width,
            0 <= site.1 < self@.height,
    {
        let cells: usize = self.spins.len();
        proof {
            lemma_dims_le_len(self@.width, self@.height);
            assert(self@.width <= cells && self@.height <= cells);
        }
        let w: usize = self.width as usize;
        let h: usize = self.height as usize;
        let mut source = crate::rng::fresh_rng();
        let i = crate::rng::rand_below(&mut source, w);
        let j = crate::rng::rand_below(&mut source, h);
        (i as i64, j as i64)
    }

    /// One update at site `(i, j)`. The site's flip is accepted when the
    /// local energy contribution is non-negative, or else when the host's
    /// thermal draw (`draw_accepts`, a uniform value compared against the
    /// Boltzmann factor) accepted it; an accepted flip negates the cell and
    /// returns its coordinates, a rejected one leaves the grid unchanged.
    pub fn step(&mut self, i: i64, j: i64, draw_accepts: bool) -> (flipped: Option<(i64, i64)>)
        requires
            old(self)@.wf(),
        ensures
            final(self)@.wf(),
            final(self)@ == step_spec(old(self)@, i as int, j as int, draw_accepts),
            flipped == if accepts_spec(
                old(self)@.coupling_bits,
                alignment_spec(old(self)@, i as int, j as int),
            ) || draw_accepts {
                Some((i, j))
            } else {
                None::<(i64, i64)>
            },
    {
        let spin_should_flip = self.accepts_without_draw(i, j) || draw_accepts;
        if spin_should_flip {
            self.flip_spin(i, j);
            Some((i, j))
        } else {
            None
        }
    }
}

} // verus!
