use diffevo::de::{
    distinct_triple, SimpleCrossoverOperator, SimpleInitializer, SimpleMutationOperator,
    SimpleSelector,
};
use diffevo::fixed::FP_ONE;
use diffevo::interface::{DeError, EvalError, Problem, Score, Variable};

/// Sum of squares in fixed point: each coordinate is in 1/65536-ths, and so
/// is the score.
struct Sphere;

impl Problem for Sphere {
    fn evaluate(&self, v: &Variable) -> Result<Score, EvalError> {
        let mut acc: i128 = 0;
        let mut j = 0usize;
        while j < v.len() {
            let c = v.coord(j) as i128;
            acc += (c * c) >> 16;
            j += 1;
        }
        Ok(acc as i64)
    }
}

/// An objective that assigns every vector the same fixed score.
struct ConstScore(i64);

impl Problem for ConstScore {
    fn evaluate(&self, _v: &Variable) -> Result<Score, EvalError> {
        Ok(self.0)
    }
}

/// An objective that always fails.
struct AlwaysFails;

impl Problem for AlwaysFails {
    fn evaluate(&self, _v: &Variable) -> Result<Score, EvalError> {
        Err(EvalError)
    }
}

fn fp(units: f64) -> i64 {
    (units * FP_ONE as f64).round() as i64
}

#[test]
fn determinism_same_seed() {
    let bounds = vec![(fp(-5.0), fp(5.0)); 3];
    let a = SimpleInitializer::with_seed(bounds.clone(), 42);
    let b = SimpleInitializer::with_seed(bounds, 42);
    let (scores_a, vars_a) = a.initialize(&Sphere, 8).unwrap();
    let (scores_b, vars_b) = b.initialize(&Sphere, 8).unwrap();
    assert_eq!(scores_a, scores_b);
    assert_eq!(vars_a, vars_b);
}

#[test]
fn same_instance_reproduces_without_explicit_seed() {
    let bounds = vec![(fp(-1.0), fp(1.0)); 2];
    let init = SimpleInitializer::new(bounds);
    let (scores_a, vars_a) = init.initialize(&Sphere, 5).unwrap();
    let (scores_b, vars_b) = init.initialize(&Sphere, 5).unwrap();
    assert_eq!(scores_a, scores_b);
    assert_eq!(vars_a, vars_b);
}

#[test]
fn initializer_dimension_and_count() {
    let bounds = vec![(fp(-5.0), fp(5.0)); 4];
    let init = SimpleInitializer::with_seed(bounds, 9);
    let (scores, vars) = init.initialize(&Sphere, 7).unwrap();
    assert_eq!(scores.len(), 7);
    assert_eq!(vars.len(), 7);
    for v in &vars {
        assert_eq!(v.len(), 4);
    }
}

#[test]
fn initializer_values_within_bounds() {
    let bounds = vec![(fp(-2.0), fp(-1.0)), (fp(3.0), fp(4.0))];
    let init = SimpleInitializer::with_seed(bounds.clone(), 1);
    let (_, vars) = init.initialize(&ConstScore(0), 20).unwrap();
    for v in &vars {
        for (j, (lo, hi)) in bounds.iter().enumerate() {
            let c = v.coord(j);
            assert!(*lo <= c && c < *hi);
        }
    }
}

#[test]
fn initializer_draws_vary() {
    let bounds = vec![(fp(-5.0), fp(5.0)); 2];
    let init = SimpleInitializer::with_seed(bounds, 23);
    let (_, vars) = init.initialize(&ConstScore(0), 20).unwrap();
    let first = vars[0].coord(0);
    assert!(vars
        .iter()
        .any(|v| v.coord(0) != first || v.coord(1) != first));
}

#[test]
fn from_single_bound_replicates() {
    let init = SimpleInitializer::from_single_bound(fp(-1.0), fp(1.0), 5);
    let (_, vars) = init.initialize(&ConstScore(0), 2).unwrap();
    for v in &vars {
        assert_eq!(v.len(), 5);
        for j in 0..5 {
            let c = v.coord(j);
            assert!(fp(-1.0) <= c && c < fp(1.0));
        }
    }
}

#[test]
fn initializer_rejects_inverted_bound() {
    let bounds = vec![(fp(1.0), fp(-1.0))];
    let init = SimpleInitializer::with_seed(bounds, 3);
    assert_eq!(
        init.initialize(&ConstScore(0), 4).unwrap_err(),
        DeError::InvalidConfiguration
    );
}

#[test]
fn initializer_rejects_empty_interval() {
    let bounds = vec![(fp(2.0), fp(2.0))];
    let init = SimpleInitializer::with_seed(bounds, 3);
    assert_eq!(
        init.initialize(&ConstScore(0), 4).unwrap_err(),
        DeError::InvalidConfiguration
    );
}

#[test]
fn initializer_fails_fast_on_evaluation_error() {
    let bounds = vec![(fp(-1.0), fp(1.0)); 2];
    let init = SimpleInitializer::with_seed(bounds, 11);
    assert_eq!(
        init.initialize(&AlwaysFails, 6).unwrap_err(),
        DeError::Evaluation
    );
}

#[test]
fn mutation_indices_distinct() {
    let mut rng = rand::rng();
    for n in 3..12usize {
        for _ in 0..200 {
            let (a, b, c) = distinct_triple(&mut rng, n);
            assert!(a < n && b < n && c < n);
            assert!(a != b && a != c && b != c);
        }
    }
}

#[test]
fn mutation_preserves_dimension() {
    let pop: Vec<Variable> = (0..5)
        .map(|i| Variable::from_vec(vec![fp(i as f64), fp(-1.0), fp(0.5)]))
        .collect();
    let op = SimpleMutationOperator::new(fp(0.8));
    for _ in 0..50 {
        let m = op.mutate_one(&pop).unwrap();
        assert_eq!(m.len(), 3);
    }
}

#[test]
fn mutation_of_identical_members_is_identity() {
    let v = Variable::from_vec(vec![fp(1.5), fp(-2.25)]);
    let pop = vec![v.clone(), v.clone(), v.clone()];
    let op = SimpleMutationOperator::new(fp(0.8));
    for _ in 0..20 {
        let m = op.mutate_one(&pop).unwrap();
        assert_eq!(m, v);
    }
}

#[test]
fn mutation_with_zero_scale_returns_a_member() {
    let pop: Vec<Variable> = (0..4)
        .map(|i| Variable::from_vec(vec![fp(i as f64), fp(i as f64 + 0.5)]))
        .collect();
    let op = SimpleMutationOperator::new(0);
    for _ in 0..20 {
        let m = op.mutate_one(&pop).unwrap();
        assert!(pop.iter().any(|v| *v == m));
    }
}

#[test]
fn mutation_rejects_small_population() {
    let pop = vec![
        Variable::from_vec(vec![fp(1.0)]),
        Variable::from_vec(vec![fp(2.0)]),
    ];
    let op = SimpleMutationOperator::new(fp(0.8));
    assert_eq!(op.mutate_one(&pop).unwrap_err(), DeError::Precondition);
}

#[test]
fn crossover_rate_zero_keeps_current() {
    let current = Variable::from_vec(vec![fp(1.0), fp(2.0), fp(3.0)]);
    let mutant = Variable::from_vec(vec![fp(-1.0), fp(-2.0), fp(-3.0)]);
    let op = SimpleCrossoverOperator::new(0);
    for _ in 0..20 {
        let trial = op.crossover_one(&current, &mutant).unwrap();
        assert_eq!(trial, current);
    }
}

#[test]
fn crossover_rate_one_takes_mutant() {
    let current = Variable::from_vec(vec![fp(1.0), fp(2.0), fp(3.0)]);
    let mutant = Variable::from_vec(vec![fp(-1.0), fp(-2.0), fp(-3.0)]);
    let op = SimpleCrossoverOperator::new(FP_ONE);
    for _ in 0..20 {
        let trial = op.crossover_one(&current, &mutant).unwrap();
        assert_eq!(trial, mutant);
    }
}

#[test]
fn crossover_mixes_genes_only() {
    let current = Variable::from_vec(vec![fp(1.0), fp(2.0)]);
    let mutant = Variable::from_vec(vec![fp(-1.0), fp(-2.0)]);
    let op = SimpleCrossoverOperator::new(fp(0.5));
    for _ in 0..50 {
        let trial = op.crossover_one(&current, &mutant).unwrap();
        assert_eq!(trial.len(), 2);
        for j in 0..2 {
            let c = trial.coord(j);
            assert!(c == current.coord(j) || c == mutant.coord(j));
        }
    }
}

#[test]
fn crossover_rejects_dimension_mismatch() {
    let current = Variable::from_vec(vec![fp(1.0), fp(2.0)]);
    let mutant = Variable::from_vec(vec![fp(-1.0)]);
    let op = SimpleCrossoverOperator::new(fp(0.5));
    assert_eq!(
        op.crossover_one(&current, &mutant).unwrap_err(),
        DeError::Precondition
    );
}

#[test]
fn selector_tie_keeps_incumbent() {
    let sel = SimpleSelector::default();
    let current = Variable::from_vec(vec![fp(1.0)]);
    let trial = Variable::from_vec(vec![fp(9.0)]);
    let (s, v) = sel
        .select_one(&ConstScore(5), 5, current.clone(), trial)
        .unwrap();
    assert_eq!(s, 5);
    assert_eq!(v, current);
}

#[test]
fn selector_takes_strictly_better_trial() {
    let sel = SimpleSelector::new();
    let current = Variable::from_vec(vec![fp(1.0)]);
    let trial = Variable::from_vec(vec![fp(9.0)]);
    let (s, v) = sel
        .select_one(&ConstScore(4), 5, current, trial.clone())
        .unwrap();
    assert_eq!(s, 4);
    assert_eq!(v, trial);
}

#[test]
fn selector_never_regresses() {
    let sel = SimpleSelector::new();
    for trial_score in [-3i64, 0, 4, 5, 6, 100] {
        let current = Variable::from_vec(vec![fp(1.0)]);
        let trial = Variable::from_vec(vec![fp(2.0)]);
        let (s, _) = sel
            .select_one(&ConstScore(trial_score), 5, current, trial)
            .unwrap();
        assert!(s <= 5);
    }
}

#[test]
fn selector_propagates_evaluation_failure() {
    let sel = SimpleSelector::new();
    let current = Variable::from_vec(vec![fp(1.0)]);
    let trial = Variable::from_vec(vec![fp(2.0)]);
    assert_eq!(
        sel.select_one(&AlwaysFails, 5, current, trial).unwrap_err(),
        DeError::Evaluation
    );
}

#[test]
fn variable_arithmetic_exact() {
    let a = Variable::from_vec(vec![fp(1.0), fp(2.0)]);
    let b = Variable::from_vec(vec![fp(0.5), fp(-1.0)]);
    assert_eq!(
        a.plus(&b),
        Variable::from_vec(vec![fp(1.5), fp(1.0)])
    );
    assert_eq!(
        a.minus(&b),
        Variable::from_vec(vec![fp(0.5), fp(3.0)])
    );
    // Half of one whole unit, and truncation toward zero on a negative value:
    // 0.5 * (-3/65536) is -1.5/65536, truncated to -1/65536.
    let c = Variable::from_vec(vec![FP_ONE, -3]);
    assert_eq!(c.scaled(fp(0.5)), Variable::from_vec(vec![FP_ONE / 2, -1]));
}

#[test]
fn end_to_end_sphere() {
    let bounds = vec![(fp(-5.0), fp(5.0)); 2];
    let init = SimpleInitializer::with_seed(bounds, 7);
    let problem = Sphere;
    let population_size = 10usize;
    let (mut scores, mut vars) = init.initialize(&problem, population_size).unwrap();
    let mutation = SimpleMutationOperator::new(fp(0.8));
    let crossover = SimpleCrossoverOperator::new(fp(0.9));
    let selector = SimpleSelector::new();
    for _generation in 0..200 {
        for i in 0..population_size {
            let mutant = mutation.mutate_one(&vars).unwrap();
            let trial = crossover.crossover_one(&vars[i], &mutant).unwrap();
            let (s, v) = selector
                .select_one(&problem, scores[i], vars[i].clone(), trial)
                .unwrap();
            scores[i] = s;
            vars[i] = v;
        }
    }
    let best = scores.iter().min().unwrap();
    // Within 1e-3 of the optimum at the origin: 1e-3 is about 65/65536.
    assert!(*best <= 65, "best score {} did not reach the optimum", best);
}
