//! The fluid data the controller reads: per-particle velocity and
//! acceleration vectors, and the look-ahead speed estimate over them.
//!
//! The controller never stores fluid data; each `advance` recomputes the
//! greatest end-of-frame speed `‖v + a * t‖` over every particle afresh.

use vstd::prelude::*;

use crate::math::{COMP_BOUND, LOOK_MAX, SCALE, TIME_BOUND};

verus! {

/// A spatial vector of fixed-point coordinates: two for a planar scene,
/// three for a volumetric one.
pub struct Vector {
    pub coords: Vec<i64>,
}

impl View for Vector {
    type V = Seq<int>;

    open spec fn view(&self) -> Seq<int> {
        self.coords@.map_values(|c: i64| c as int)
    }
}

/// One fluid: index-aligned per-particle velocities and accelerations.
pub struct Fluid {
    pub velocities: Vec<Vector>,
    pub accelerations: Vec<Vector>,
}

/// Ghost image of a fluid: the coordinate sequences alone.
pub struct FluidModel {
    pub vels: Seq<Seq<int>>,
    pub accs: Seq<Seq<int>>,
}

impl View for Fluid {
    type V = FluidModel;

    open spec fn view(&self) -> FluidModel {
        FluidModel {
            vels: self.velocities@.map_values(|v: Vector| v@),
            accs: self.accelerations@.map_values(|v: Vector| v@),
        }
    }
}

/// A coordinate within the admissible magnitude.
pub open spec fn comp_ok(c: int) -> bool {
    -COMP_BOUND <= c <= COMP_BOUND
}

/// A spatial vector: at most three coordinates, each within bounds.
pub open spec fn vec_ok(v: Seq<int>) -> bool {
    &&& v.len() <= 3
    &&& forall|k: int| 0 <= k < v.len() ==> comp_ok(#[trigger] v[k])
}

impl FluidModel {
    /// Velocities and accelerations are index-aligned vectors of the same
    /// dimension, with every coordinate within bounds.
    pub open spec fn wf(self) -> bool {
        &&& self.vels.len() == self.accs.len()
        &&& forall|i: int| 0 <= i < self.vels.len() ==> vec_ok(#[trigger] self.vels[i])
        &&& forall|i: int| 0 <= i < self.accs.len() ==> vec_ok(#[trigger] self.accs[i])
        &&& forall|i: int|
            0 <= i < self.vels.len() ==> (#[trigger] self.vels[i]).len() == self.accs[i].len()
    }
}

/// Every fluid of the collection is well-formed.
pub open spec fn fluids_wf(fs: Seq<FluidModel>) -> bool {
    forall|i: int| 0 <= i < fs.len() ==> (#[trigger] fs[i]).wf()
}

/// Ghost image of a fluid collection.
pub open spec fn fluid_models(fs: Seq<Fluid>) -> Seq<FluidModel> {
    fs.map_values(|f: Fluid| f@)
}

/// One coordinate of the end-of-frame velocity estimate `v + a * t`, held in
/// squared-scale units so that no division is needed.
pub open spec fn look_comp(v: int, a: int, t: int) -> int {
    v * SCALE + a * t
}

/// Sum of the squared look-ahead coordinates over the first `k` dimensions.
pub open spec fn look_sq_prefix(v: Seq<int>, a: Seq<int>, t: int, k: nat) -> int
    decreases k,
{
    if k == 0 {
        0
    } else {
        look_sq_prefix(v, a, t, (k - 1) as nat) + look_comp(v[k - 1], a[k - 1], t) * look_comp(
            v[k - 1],
            a[k - 1],
            t,
        )
    }
}

/// Squared norm of one particle's look-ahead velocity, in squared-scale
/// squared units.
pub open spec fn look_sq(v: Seq<int>, a: Seq<int>, t: int) -> int {
    look_sq_prefix(v, a, t, v.len())
}

/// Greatest squared look-ahead norm over the first `k` particles of a fluid.
pub open spec fn fluid_max_sq_prefix(f: FluidModel, t: int, k: nat) -> int
    decreases k,
{
    if k == 0 {
        0
    } else {
        vstd::math::max(
            fluid_max_sq_prefix(f, t, (k - 1) as nat),
            look_sq(f.vels[k - 1], f.accs[k - 1], t),
        )
    }
}

/// Greatest squared look-ahead norm over every particle of a fluid.
pub open spec fn fluid_max_sq(f: FluidModel, t: int) -> int {
    fluid_max_sq_prefix(f, t, f.vels.len())
}

/// Greatest squared look-ahead norm over the first `k` fluids.
pub open spec fn fluids_max_sq_prefix(fs: Seq<FluidModel>, t: int, k: nat) -> int
    decreases k,
{
    if k == 0 {
        0
    } else {
        vstd::math::max(fluids_max_sq_prefix(fs, t, (k - 1) as nat), fluid_max_sq(fs[k - 1], t))
    }
}

/// Greatest squared look-ahead norm over every particle of every fluid;
/// zero when there is no particle at all.
pub open spec fn max_look_sq(fs: Seq<FluidModel>, t: int) -> int {
    fluids_max_sq_prefix(fs, t, fs.len())
}

/// A bounded coordinate pair keeps its look-ahead component within
/// `LOOK_MAX`, so its square stays within `LOOK_MAX * LOOK_MAX`.
proof fn lemma_look_comp_bounds(v: int, a: int, t: int)
    requires
        comp_ok(v),
        comp_ok(a),
        0 <= t <= TIME_BOUND,
    ensures
        -LOOK_MAX <= look_comp(v, a, t) <= LOOK_MAX,
        0 <= look_comp(v, a, t) * look_comp(v, a, t) <= LOOK_MAX * LOOK_MAX,
{
    assert(-LOOK_MAX <= v * SCALE + a * t <= LOOK_MAX) by (nonlinear_arith)
        requires
            -COMP_BOUND <= v <= COMP_BOUND,
            -COMP_BOUND <= a <= COMP_BOUND,
            0 <= t <= TIME_BOUND,
            SCALE == 1_000_000,
            COMP_BOUND == 1_000_000_000,
            TIME_BOUND == 1_000_000_000,
            LOOK_MAX == 1_001_000_000_000_000_000,
    ;
    let c = look_comp(v, a, t);
    assert(0 <= c * c <= LOOK_MAX * LOOK_MAX) by (nonlinear_arith)
        requires
            -LOOK_MAX <= c <= LOOK_MAX,
    ;
}

/// The squared-norm prefix of a well-formed particle is nonnegative and at
/// most `k` squares of `LOOK_MAX`.
pub proof fn lemma_look_sq_prefix_bounds(v: Seq<int>, a: Seq<int>, t: int, k: nat)
    requires
        vec_ok(v),
        vec_ok(a),
        k <= v.len(),
        k <= a.len(),
        0 <= t <= TIME_BOUND,
    ensures
        0 <= look_sq_prefix(v, a, t, k) <= k * (LOOK_MAX * LOOK_MAX),
    decreases k,
{
    if k > 0 {
        lemma_look_sq_prefix_bounds(v, a, t, (k - 1) as nat);
        lemma_look_comp_bounds(v[k - 1], a[k - 1], t);
        assert(k * (LOOK_MAX * LOOK_MAX) == (k - 1) * (LOOK_MAX * LOOK_MAX) + LOOK_MAX
            * LOOK_MAX) by (nonlinear_arith);
    }
}

/// The squared norm of a well-formed particle is nonnegative and at most
/// three squares of `LOOK_MAX`.
pub proof fn lemma_look_sq_bounds(v: Seq<int>, a: Seq<int>, t: int)
    requires
        vec_ok(v),
        vec_ok(a),
        v.len() == a.len(),
        0 <= t <= TIME_BOUND,
    ensures
        0 <= look_sq(v, a, t) <= 3 * (LOOK_MAX * LOOK_MAX),
{
    lemma_look_sq_prefix_bounds(v, a, t, v.len());
    assert(v.len() * (LOOK_MAX * LOOK_MAX) <= 3 * (LOOK_MAX * LOOK_MAX)) by (nonlinear_arith)
        requires
            v.len() <= 3,
    ;
}

/// The greatest squared norm over a well-formed collection stays within the
/// same bounds as each particle's.
pub proof fn lemma_fluid_max_sq_prefix_bounds(f: FluidModel, t: int, k: nat)
    requires
        f.wf(),
        k <= f.vels.len(),
        0 <= t <= TIME_BOUND,
    ensures
        0 <= fluid_max_sq_prefix(f, t, k) <= 3 * (LOOK_MAX * LOOK_MAX),
    decreases k,
{
    if k > 0 {
        lemma_fluid_max_sq_prefix_bounds(f, t, (k - 1) as nat);
        lemma_look_sq_bounds(f.vels[k - 1], f.accs[k - 1], t);
    }
}

/// Bounds for the greatest squared norm over a whole fluid collection.
pub proof fn lemma_fluids_max_sq_prefix_bounds(fs: Seq<FluidModel>, t: int, k: nat)
    requires
        fluids_wf(fs),
        k <= fs.len(),
        0 <= t <= TIME_BOUND,
    ensures
        0 <= fluids_max_sq_prefix(fs, t, k) <= 3 * (LOOK_MAX * LOOK_MAX),
    decreases k,
{
    if k > 0 {
        lemma_fluids_max_sq_prefix_bounds(fs, t, (k - 1) as nat);
        lemma_fluid_max_sq_prefix_bounds(fs[k - 1], t, fs[k - 1].vels.len());
    }
}

/// Squared norm of one particle's look-ahead velocity `v + a * t`.
fn look_sq_exec(v: &Vector, a: &Vector, t: i64) -> (sq: u128)
    requires
        vec_ok(v@),
        vec_ok(a@),
        v@.len() == a@.len(),
        0 <= t <= TIME_BOUND,
    ensures
        sq == look_sq(v@, a@, t as int),
{
    let mut sq: u128 = 0;
    let mut k: usize = 0;
    proof {
        assert(v@.len() == v.coords@.len());
        assert(a@.len() == a.coords@.len());
    }
    while k < v.coords.len()
        invariant
            vec_ok(v@),
            vec_ok(a@),
            v@.len() == a@.len(),
            v@.len() == v.coords@.len(),
            a@.len() == a.coords@.len(),
            0 <= t <= TIME_BOUND,
            k <= v.coords.len(),
            sq == look_sq_prefix(v@, a@, t as int, k as nat),
            sq <= k * (LOOK_MAX as int * LOOK_MAX as int),
        decreases v.coords.len() - k,
    {
        proof {
            assert(v@[k as int] == v.coords@[k as int] as int);
            assert(a@[k as int] == a.coords@[k as int] as int);
            lemma_look_comp_bounds(v@[k as int], a@[k as int], t as int);
        }
        let c: i128 = (v.coords[k] as i128) * (SCALE as i128) + (a.coords[k] as i128) * (t as i128);
        proof {
            assert(c == look_comp(v@[k as int], a@[k as int], t as int));
            assert(0 <= c * c <= LOOK_MAX as int * LOOK_MAX as int) by (nonlinear_arith)
                requires
                    -LOOK_MAX <= c <= LOOK_MAX,
        ;
            lemma_look_sq_prefix_bounds(v@, a@, t as int, (k + 1) as nat);
        }
        let c2: i128 = c * c;
        sq = sq + (c2 as u128);
        k = k + 1;
    }
    sq
}

/// Greatest squared look-ahead norm over every particle of every fluid.
pub(crate) fn max_look_sq_exec(fluids: &Vec<Fluid>, t: i64) -> (m: u128)
    requires
        fluids_wf(fluid_models(fluids@)),
        0 <= t <= TIME_BOUND,
    ensures
        m == max_look_sq(fluid_models(fluids@), t as int),
{
    let ghost models = fluid_models(fluids@);
    let mut best: u128 = 0;
    let mut i: usize = 0;
    while i < fluids.len()
        invariant
            models == fluid_models(fluids@),
            fluids_wf(models),
            0 <= t <= TIME_BOUND,
            i <= fluids.len(),
            models.len() == fluids@.len(),
            best == fluids_max_sq_prefix(models, t as int, i as nat),
        decreases fluids.len() - i,
    {
        let fluid: &Fluid = &fluids[i];
        proof {
            assert(models[i as int] == fluid@);
            assert(fluid@.wf());
            assert(fluid@.vels.len() == fluid.velocities@.len());
        }
        let mut j: usize = 0;
        proof {
            lemma_fluids_max_sq_prefix_bounds(models, t as int, i as nat);
        }
        while j < fluid.velocities.len()
            invariant
                models == fluid_models(fluids@),
                fluids_wf(models),
                0 <= t <= TIME_BOUND,
                i < fluids.len(),
                models.len() == fluids@.len(),
                models[i as int] == fluid@,
                fluid@ == fluids[i as int]@,
                fluid@.wf(),
                fluid@.vels.len() == fluid.velocities@.len(),
                j <= fluid.velocities.len(),
                best == vstd::math::max(
                    fluids_max_sq_prefix(models, t as int, i as nat),
                    fluid_max_sq_prefix(fluid@, t as int, j as nat),
                ),
            decreases fluid.velocities.len() - j,
        {
            proof {
                assert(fluid@.vels[j as int] == fluid.velocities@[j as int]@);
                assert(fluid@.accs[j as int] == fluid.accelerations@[j as int]@);
            }
            let sq: u128 = look_sq_exec(&fluid.velocities[j], &fluid.accelerations[j], t);
            if sq > best {
                best = sq;
            }
            j = j + 1;
        }
        proof {
            assert(fluid_max_sq_prefix(fluid@, t as int, fluid.velocities@.len() as nat)
                == fluid_max_sq(fluid@, t as int));
        }
        i = i + 1;
    }
    best
}

impl Fluid {
    /// Whether this fluid meets the well-formedness the controller needs:
    /// index-aligned vectors of equal dimension (at most three), every
    /// coordinate within `COMP_BOUND`.
    pub fn is_well_formed(&self) -> (b: bool)
        ensures
            b == self@.wf(),
    {
        if self.velocities.len() != self.accelerations.len() {
            proof {
                assert(self@.vels.len() != self@.accs.len());
            }
            return false;
        }
        let mut i: usize = 0;
        while i < self.velocities.len()
            invariant
                self@.vels.len() == self.velocities@.len(),
                self@.accs.len() == self.accelerations@.len(),
                self.velocities@.len() == self.accelerations@.len(),
                i <= self.velocities.len(),
                forall|q: int| 0 <= q < i ==> vec_ok(#[trigger] self@.vels[q]),
                forall|q: int| 0 <= q < i ==> vec_ok(#[trigger] self@.accs[q]),
                forall|q: int|
                    0 <= q < i ==> (#[trigger] self@.vels[q]).len() == self@.accs[q].len(),
            decreases self.velocities.len() - i,
        {
            proof {
                assert(self@.vels[i as int] == self.velocities@[i as int]@);
                assert(self@.accs[i as int] == self.accelerations@[i as int]@);
            }
            if !vector_ok(&self.velocities[i]) {
                return false;
            }
            if !vector_ok(&self.accelerations[i]) {
                return false;
            }
            if self.velocities[i].coords.len() != self.accelerations[i].coords.len() {
                return false;
            }
            i = i + 1;
        }
        true
    }
}

/// Whether a vector has at most three coordinates, each within bounds.
fn vector_ok(v: &Vector) -> (b: bool)
    ensures
        b == vec_ok(v@),
{
    if v.coords.len() > 3 {
        return false;
    }
    let mut k: usize = 0;
    while k < v.coords.len()
        invariant
            v@.len() == v.coords@.len(),
            v@.len() <= 3,
            k <= v.coords.len(),
            forall|q: int| 0 <= q < k ==> comp_ok(#[trigger] v@[q]),
        decreases v.coords.len() - k,
    {
        proof {
            assert(v@[k as int] == v.coords@[k as int] as int);
        }
        let c: i64 = v.coords[k];
        if c < -COMP_BOUND || c > COMP_BOUND {
            return false;
        }
        k = k + 1;
    }
    true
}

/// Whether every fluid of the collection is well-formed: the check a driver
/// owes the controller before each `advance`.
pub fn fluids_well_formed(fluids: &Vec<Fluid>) -> (b: bool)
    ensures
        b == fluids_wf(fluid_models(fluids@)),
{
    let ghost models = fluid_models(fluids@);
    let mut i: usize = 0;
    while i < fluids.len()
        invariant
            models == fluid_models(fluids@),
            models.len() == fluids@.len(),
            i <= fluids.len(),
            forall|q: int| 0 <= q < i ==> (#[trigger] models[q]).wf(),
        decreases fluids.len() - i,
    {
        proof {
            assert(models[i as int] == fluids@[i as int]@);
        }
        if !fluids[i].is_well_formed() {
            return false;
        }
        i = i + 1;
    }
    true
}

} // verus!
