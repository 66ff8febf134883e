use vstd::prelude::*;
use crate::fixed::{fp_mul, iabs, COORD_MAX, FP_ONE, SCALE_MAX};
use crate::interface::{DeError, Problem, Score, Variable};
use crate::rng::{ambient_below, ambient_rng, entropy_seed, std_rng_draw, SeededRng};

verus! {

/// Greedy selection for minimization: a trial replaces the incumbent only
/// when its score is strictly lower; ties keep the incumbent.
pub struct SimpleSelector {}

impl Default for SimpleSelector {
    fn default() -> (r: SimpleSelector)
        ensures
            r == (SimpleSelector {}),
    {
        SimpleSelector {}
    }
}

impl SimpleSelector {
    pub fn new() -> (r: SimpleSelector)
        ensures
            r == (SimpleSelector {}),
    {
        SimpleSelector {}
    }

    /// Evaluate the trial vector and keep whichever of (trial, incumbent)
    /// scores strictly lower, the incumbent on a tie. Exactly one
    /// evaluation is consumed; on evaluation failure nothing is committed
    /// and the caller's pair stays the source of truth.
    pub fn select_one<P: Problem>(
        &self,
        problem: &P,
        s_current: Score,
        v_current: Variable,
        v_trial: Variable,
    ) -> (r: Result<(Score, Variable), DeError>)
        ensures
            r is Err <==> problem.eval_spec(v_trial@) is None,
            r matches Err(e) ==> e == DeError::Evaluation,
            r matches Ok(sv) ==> {
                &&& problem.eval_spec(v_trial@) matches Some(ts) && (if ts < s_current {
                    sv.0 == ts && sv.1@ == v_trial@
                } else {
                    sv.0 == s_current && sv.1@ == v_current@
                })
                &&& sv.0 <= s_current
            },
    {
        let s_trial = match problem.evaluate(&v_trial) {
            Ok(s) => s,
            Err(_) => {
                return Err(DeError::Evaluation);
            },
        };
        if s_trial < s_current {
            Ok((s_trial, v_trial))
        } else {
            Ok((s_current, v_current))
        }
    }
}

/// Binomial (uniform) crossover: each gene of the trial vector is taken
/// from the mutant with probability `crossover_rate`, independently per
/// dimension; no minimum number of mutant genes is enforced.
pub struct SimpleCrossoverOperator {
    crossover_rate: i64,
}

impl SimpleCrossoverOperator {
    /// The configured crossover rate, in 1/65536-ths of certainty.
    pub closed spec fn rate_spec(&self) -> i64 {
        self.crossover_rate
    }

    /// The rate is validated at construction: it must lie in `[0, FP_ONE]`,
    /// the fixed-point image of `[0, 1]`.
    pub fn new(crossover_rate: i64) -> (r: SimpleCrossoverOperator)
        requires
            0 <= crossover_rate <= FP_ONE,
        ensures
            r.rate_spec() == crossover_rate,
    {
        SimpleCrossoverOperator { crossover_rate }
    }

    /// Blend the current vector with a mutant: per dimension an independent
    /// draw `d` from `[0, FP_ONE)` picks the mutant's gene when
    /// `d < crossover_rate`, else the current one. Mismatched dimensions
    /// are rejected. A rate of zero returns the current vector exactly; a
    /// rate of one returns the mutant exactly.
    pub fn crossover_one(&self, v_current: &Variable, v_mutant: &Variable) -> (r: Result<
        Variable,
        DeError,
    >)
        ensures
            r is Err <==> v_current@.len() != v_mutant@.len(),
            r matches Err(e) ==> e == DeError::Precondition,
            r matches Ok(t) ==> {
                &&& t@.len() == v_current@.len()
                &&& forall|j: int|
                    0 <= j < t@.len() ==> t@[j] == v_mutant@[j] || t@[j] == v_current@[j]
                &&& (self.rate_spec() == 0 ==> t@ == v_current@)
                &&& (self.rate_spec() == FP_ONE ==> t@ == v_mutant@)
            },
    {
        if v_current.len() != v_mutant.len() {
            return Err(DeError::Precondition);
        }
        let n = v_current.len();
        let mut rng = ambient_rng();
        let mut out: Vec<i64> = Vec::new();
        let mut j: usize = 0;
        while j < n
            invariant
                n == v_current@.len(),
                v_current@.len() == v_mutant@.len(),
                j <= n,
                out@.len() == j,
                forall|k: int|
                    0 <= k < j ==> out@[k] == v_mutant@[k] || out@[k] == v_current@[k],
                self.rate_spec() == 0 ==> forall|k: int| 0 <= k < j ==> out@[k] == v_current@[k],
                self.rate_spec() == FP_ONE ==> forall|k: int|
                    0 <= k < j ==> out@[k] == v_mutant@[k],
            decreases n - j,
        {
            let d = ambient_below(&mut rng, FP_ONE as usize);
            let dv: i64 = d as i64;
            if dv < self.crossover_rate {
                out.push(v_mutant.coord(j));
            } else {
                out.push(v_current.coord(j));
            }
            j = j + 1;
        }
        proof {
            if self.rate_spec() == 0 {
                assert(out@ =~= v_current@);
            }
            if self.rate_spec() == FP_ONE {
                assert(out@ =~= v_mutant@);
            }
        }
        Ok(Variable::from_vec(out))
    }
}

/// Three pairwise distinct indices below `n`, drawn uniformly without
/// replacement from the thread-local generator: the first freely, each
/// later one from the indices still unused, shifted past those already
/// taken.
pub fn distinct_triple(rng: &mut rand::rngs::ThreadRng, n: usize) -> (r: (usize, usize, usize))
    requires
        n >= 3,
    ensures
        r.0 < n,
        r.1 < n,
        r.2 < n,
        r.0 != r.1,
        r.0 != r.2,
        r.1 != r.2,
{
    let i0 = ambient_below(rng, n);
    let t1 = ambient_below(rng, n - 1);
    let i1 = if t1 >= i0 {
        t1 + 1
    } else {
        t1
    };
    let t2 = ambient_below(rng, n - 2);
    let lo = if i0 < i1 {
        i0
    } else {
        i1
    };
    let hi = if i0 < i1 {
        i1
    } else {
        i0
    };
    let mut i2 = t2;
    if i2 >= lo {
        i2 = i2 + 1;
    }
    if i2 >= hi {
        i2 = i2 + 1;
    }
    (i0, i1, i2)
}

/// What it means for `m` to be the "rand/1" mutant built from a base vector
/// and the scaled difference of two others: elementwise
/// `m = base + f * (d1 - d2)` in fixed-point arithmetic.
pub open spec fn is_mutant_of(m: Seq<i64>, base: Seq<i64>, d1: Seq<i64>, d2: Seq<i64>, f: i64) -> bool {
    &&& base.len() == d1.len()
    &&& d1.len() == d2.len()
    &&& m.len() == base.len()
    &&& forall|j: int| 0 <= j < m.len() ==> m[j] == base[j] + fp_mul(f as int, d1[j] - d2[j])
}

/// What the mutation operator promises of its result: `m` is the mutant of
/// three pairwise distinct members of the population, drawn in some order.
pub open spec fn mutant_of_population(m: Seq<i64>, pop: Seq<Variable>, f: i64) -> bool {
    exists|a: int, b: int, c: int|
        {
            &&& 0 <= a < pop.len()
            &&& 0 <= b < pop.len()
            &&& 0 <= c < pop.len()
            &&& a != b && a != c && b != c
            &&& #[trigger] is_mutant_of(m, pop[a]@, pop[b]@, pop[c]@, f)
        }
}

/// "rand/1" mutation: perturb a base member by the scaled difference of two
/// other members, all three drawn at random without replacement.
pub struct SimpleMutationOperator {
    scale: i64,
}

impl SimpleMutationOperator {
    /// The configured scale factor, in 1/65536-ths.
    pub closed spec fn scale_spec(&self) -> i64 {
        self.scale
    }

    /// The scale factor is validated at construction: non-negative and at
    /// most `SCALE_MAX`, so the mutation arithmetic cannot overflow.
    pub fn new(scale: i64) -> (r: SimpleMutationOperator)
        requires
            0 <= scale <= SCALE_MAX,
        ensures
            r.scale_spec() == scale,
    {
        SimpleMutationOperator { scale }
    }

    /// Build one mutant vector from the current population: draw three
    /// pairwise distinct indices at random, then combine the three members
    /// as `base + scale * (d1 - d2)` elementwise. A population of fewer
    /// than three members is rejected before any drawing; nothing else can
    /// fail. The draws come from the thread-local generator, so which
    /// members are picked is intentionally not reproducible. The drawn
    /// indices are distinct from one another but deliberately left free to
    /// coincide with the index of whichever member the caller is replacing:
    /// that policy stays in the caller's hands. The caller keeps the
    /// population dimension-consistent and its coordinates within
    /// `COORD_MAX`, the representation limit under which the arithmetic
    /// cannot overflow.
    pub fn mutate_one(&self, current_population: &Vec<Variable>) -> (r: Result<Variable, DeError>)
        requires
            0 <= self.scale_spec() <= SCALE_MAX,
            forall|i: int|
                0 <= i < current_population@.len() ==> (#[trigger] current_population@[i])@.len()
                    == current_population@[0]@.len(),
            forall|i: int, j: int|
                0 <= i < current_population@.len() && 0 <= j < current_population@[i]@.len()
                    ==> iabs(#[trigger] current_population@[i]@[j] as int) <= COORD_MAX,
        ensures
            r is Err <==> current_population@.len() < 3,
            r matches Err(e) ==> e == DeError::Precondition,
            r matches Ok(m) ==> m@.len() == current_population@[0]@.len()
                && mutant_of_population(m@, current_population@, self.scale_spec()),
    {
        let n = current_population.len();
        if n < 3 {
            return Err(DeError::Precondition);
        }
        let mut rng = ambient_rng();
        let (i0, i1, i2) = distinct_triple(&mut rng, n);
        let base = &current_population[i0];
        let v1 = &current_population[i1];
        let v2 = &current_population[i2];
        proof {
            assert(forall|j: int|
                0 <= j < v1@.len() ==> i64::MIN <= #[trigger] v1@[j] - v2@[j] <= i64::MAX);
        }
        let d = v1.minus(v2);
        proof {
            assert(forall|j: int| 0 <= j < d@.len() ==> iabs(#[trigger] d@[j] as int) <= 2 * COORD_MAX);
        }
        let sd = d.scaled(self.scale);
        proof {
            assert(forall|j: int|
                0 <= j < base@.len() ==> i64::MIN <= #[trigger] base@[j] + sd@[j] <= i64::MAX);
        }
        let m = base.plus(&sd);
        proof {
            assert(is_mutant_of(
                m@,
                current_population@[i0 as int]@,
                current_population@[i1 as int]@,
                current_population@[i2 as int]@,
                self.scale_spec(),
            ));
            assert(m@.len() == current_population@[0]@.len());
            assert(mutant_of_population(m@, current_population@, self.scale_spec()));
        }
        Ok(m)
    }
}

/// The ranges a seeded generator has served after filling `n` whole
/// individuals, one draw per bound each.
pub open spec fn ranges_rep(bounds: Seq<(i64, i64)>, n: nat) -> Seq<(i64, i64)>
    decreases n,
{
    if n == 0 {
        Seq::empty()
    } else {
        ranges_rep(bounds, (n - 1) as nat) + bounds
    }
}

/// Coordinate `j` of individual `i` of the population a seed pins down:
/// the draw served from `[lower_j, upper_j)` after `i` whole individuals
/// and the first `j` coordinates of this one.
pub open spec fn init_coord(seed: u64, bounds: Seq<(i64, i64)>, i: nat, j: nat) -> i64 {
    std_rng_draw(
        seed,
        ranges_rep(bounds, i) + bounds.take(j as int),
        bounds[j as int].0,
        bounds[j as int].1,
    )
}

/// Individual `i` of the population a seed pins down.
pub open spec fn init_vector(seed: u64, bounds: Seq<(i64, i64)>, i: nat) -> Seq<i64> {
    Seq::new(bounds.len(), |j: int| init_coord(seed, bounds, i, j as nat))
}

/// Every bound admits a sample: its lower end strictly below its upper end.
pub open spec fn bounds_ok(bounds: Seq<(i64, i64)>) -> bool {
    forall|j: int| 0 <= j < bounds.len() ==> (#[trigger] bounds[j]).0 < bounds[j].1
}

/// Seed-pinned uniform initialization: one bound per dimension, one draw
/// per coordinate, one evaluation per individual. An instance built
/// without an explicit seed draws one from process entropy once and keeps
/// it, so repeated calls on the same instance reproduce the same
/// population.
pub struct SimpleInitializer {
    bounds: Vec<(i64, i64)>,
    seed: u64,
}

impl SimpleInitializer {
    /// The per-dimension bounds the instance was configured with.
    pub closed spec fn bounds_spec(&self) -> Seq<(i64, i64)> {
        self.bounds@
    }

    /// The seed every call of `initialize` reuses.
    pub closed spec fn seed_spec(&self) -> u64 {
        self.seed
    }

    /// Configure from per-dimension bounds; the seed is drawn once from
    /// process entropy and fixed for the instance's lifetime.
    pub fn new(bounds: Vec<(i64, i64)>) -> (r: SimpleInitializer)
        ensures
            r.bounds_spec() == bounds@,
    {
        let seed = entropy_seed();
        Self::with_seed(bounds, seed)
    }

    /// Configure with one shared bound replicated over `dim` dimensions.
    pub fn from_single_bound(lower: i64, upper: i64, dim: usize) -> (r: SimpleInitializer)
        ensures
            r.bounds_spec().len() == dim,
            forall|j: int| 0 <= j < dim ==> r.bounds_spec()[j] == (lower, upper),
    {
        let mut bounds: Vec<(i64, i64)> = Vec::new();
        let mut j: usize = 0;
        while j < dim
            invariant
                j <= dim,
                bounds@.len() == j,
                forall|k: int| 0 <= k < j ==> bounds@[k] == (lower, upper),
            decreases dim - j,
        {
            bounds.push((lower, upper));
            j = j + 1;
        }
        Self::new(bounds)
    }

    /// Configure from per-dimension bounds and an explicit seed.
    pub fn with_seed(bounds: Vec<(i64, i64)>, seed: u64) -> (r: SimpleInitializer)
        ensures
            r.bounds_spec() == bounds@,
            r.seed_spec() == seed,
    {
        SimpleInitializer { bounds, seed }
    }

    /// Produce and evaluate `population_size` individuals. Per individual,
    /// each coordinate is drawn independently and uniformly from its own
    /// dimension's half-open bound, in a fixed order from the seeded
    /// generator, so the whole population is a function of the seed, the
    /// bounds and the size. A bound whose lower end is not strictly below
    /// its upper end admits no sample and is rejected as invalid
    /// configuration before anything is drawn. An empty bounds list is
    /// accepted and yields zero-dimensional vectors. If any evaluation
    /// fails, the whole call fails and no partial population is returned.
    pub fn initialize<P: Problem>(&self, problem: &P, population_size: usize) -> (r: Result<
        (Vec<Score>, Vec<Variable>),
        DeError,
    >)
        ensures
            !bounds_ok(self.bounds_spec()) ==> (r matches Err(e) && e
                == DeError::InvalidConfiguration),
            r is Err <==> (!bounds_ok(self.bounds_spec()) || exists|i: int|
                0 <= i < population_size && problem.eval_spec(
                    #[trigger] init_vector(self.seed_spec(), self.bounds_spec(), i as nat),
                ) is None),
            bounds_ok(self.bounds_spec()) && r is Err ==> (r matches Err(e) && e
                == DeError::Evaluation),
            r matches Ok(sv) ==> {
                &&& sv.0@.len() == population_size
                &&& sv.1@.len() == population_size
                &&& forall|i: int|
                    0 <= i < population_size ==> (#[trigger] sv.1@[i])@ == init_vector(
                        self.seed_spec(),
                        self.bounds_spec(),
                        i as nat,
                    )
                &&& forall|i: int|
                    0 <= i < population_size ==> (#[trigger] sv.1@[i])@.len()
                        == self.bounds_spec().len()
                &&& forall|i: int|
                    0 <= i < population_size ==> problem.eval_spec(
                        #[trigger] init_vector(self.seed_spec(), self.bounds_spec(), i as nat),
                    ) == Some(sv.0@[i])
                &&& forall|i: int, j: int|
                    0 <= i < population_size && 0 <= j < self.bounds_spec().len()
                        ==> self.bounds_spec()[j].0 <= #[trigger] sv.1@[i]@[j]
                        && sv.1@[i]@[j] < self.bounds_spec()[j].1
            },
    {
        let ghost bs = self.bounds@;
        let ghost sd = self.seed;
        let dim = self.bounds.len();
        let mut j: usize = 0;
        while j < dim
            invariant
                dim == bs.len(),
                bs == self.bounds@,
                j <= dim,
                forall|k: int| 0 <= k < j ==> (#[trigger] bs[k]).0 < bs[k].1,
            decreases dim - j,
        {
            let b = self.bounds[j];
            if b.0 >= b.1 {
                return Err(DeError::InvalidConfiguration);
            }
            j = j + 1;
        }
        assert(bounds_ok(bs));
        let mut rng = SeededRng::from_seed(self.seed);
        let mut scores: Vec<i64> = Vec::new();
        let mut variables: Vec<Variable> = Vec::new();
        let mut i: usize = 0;
        while i < population_size
            invariant
                dim == bs.len(),
                bs == self.bounds@,
                sd == self.seed_spec(),
                bounds_ok(bs),
                rng.seed_spec() == sd,
                rng.hist_spec() == ranges_rep(bs, i as nat),
                i <= population_size,
                scores@.len() == i,
                variables@.len() == i,
                forall|k: int|
                    0 <= k < i ==> (#[trigger] variables@[k])@ == init_vector(sd, bs, k as nat),
                forall|k: int|
                    0 <= k < i ==> problem.eval_spec(#[trigger] init_vector(sd, bs, k as nat))
                        == Some(scores@[k]),
                forall|k: int, t: int|
                    0 <= k < i && 0 <= t < dim ==> bs[t].0 <= #[trigger] variables@[k]@[t]
                        && variables@[k]@[t] < bs[t].1,
            decreases population_size - i,
        {
            let mut x: Vec<i64> = Vec::new();
            let mut j2: usize = 0;
            while j2 < dim
                invariant
                    dim == bs.len(),
                    bs == self.bounds@,
                    sd == self.seed_spec(),
                    bounds_ok(bs),
                    rng.seed_spec() == sd,
                    rng.hist_spec() == ranges_rep(bs, i as nat) + bs.take(j2 as int),
                    j2 <= dim,
                    x@.len() == j2,
                    forall|t: int| 0 <= t < j2 ==> x@[t] == init_coord(sd, bs, i as nat, t as nat),
                    forall|t: int|
                        0 <= t < j2 ==> bs[t].0 <= #[trigger] x@[t] && x@[t] < bs[t].1,
                decreases dim - j2,
            {
                let b = self.bounds[j2];
                assert(bs[j2 as int].0 < bs[j2 as int].1);
                let c = rng.next_in(b.0, b.1);
                proof {
                    assert(ranges_rep(bs, i as nat) + bs.take(j2 as int + 1) =~= (ranges_rep(
                        bs,
                        i as nat,
                    ) + bs.take(j2 as int)).push((b.0, b.1)));
                }
                x.push(c);
                j2 = j2 + 1;
            }
            proof {
                assert(bs.take(dim as int) =~= bs);
                assert(rng.hist_spec() =~= ranges_rep(bs, (i + 1) as nat));
                assert(x@ =~= init_vector(sd, bs, i as nat));
            }
            let v = Variable::from_vec(x);
            match problem.evaluate(&v) {
                Ok(s) => {
                    scores.push(s);
                    variables.push(v);
                },
                Err(_) => {
                    assert(problem.eval_spec(init_vector(sd, bs, i as nat)) is None);
                    return Err(DeError::Evaluation);
                },
            }
            i = i + 1;
        }
        Ok((scores, variables))
    }
}

/// Determinism law: the population `initialize` returns is a function of
/// the seed, the bounds, the population size and the objective's model
/// alone. Any two results that `initialize`'s contract ties to the same
/// seed, bounds, size and objective are identical, whichever instances
/// produced them.
pub proof fn lemma_initialize_deterministic<P: Problem>(
    p: &P,
    seed: u64,
    bounds: Seq<(i64, i64)>,
    n: nat,
    scores1: Seq<i64>,
    vars1: Seq<Seq<i64>>,
    scores2: Seq<i64>,
    vars2: Seq<Seq<i64>>,
)
    requires
        vars1.len() == n,
        vars2.len() == n,
        scores1.len() == n,
        scores2.len() == n,
        forall|i: int| 0 <= i < n ==> #[trigger] vars1[i] == init_vector(seed, bounds, i as nat),
        forall|i: int| 0 <= i < n ==> #[trigger] vars2[i] == init_vector(seed, bounds, i as nat),
        forall|i: int|
            0 <= i < n ==> p.eval_spec(#[trigger] init_vector(seed, bounds, i as nat)) == Some(
                scores1[i],
            ),
        forall|i: int|
            0 <= i < n ==> p.eval_spec(#[trigger] init_vector(seed, bounds, i as nat)) == Some(
                scores2[i],
            ),
    ensures
        vars1 == vars2,
        scores1 == scores2,
{
    assert(vars1 =~= vars2);
    assert forall|i: int| 0 <= i < n implies scores1[i] == scores2[i] by {
        let v = init_vector(seed, bounds, i as nat);
        assert(p.eval_spec(v) == Some(scores1[i]));
        assert(p.eval_spec(v) == Some(scores2[i]));
    }
    assert(scores1 =~= scores2);
}

} // verus!
