use vstd::prelude::*;
use crate::fixed::{fp_mul, fp_mul_i64, iabs, COORD_MAX, SCALED_MAX, SCALE_MAX};

verus! {

/// Objective value: lower is better. It uses the same fixed-point encoding
/// as the coordinates (an `i64` counting 1/65536-ths), so every score is a
/// totally ordered, finite value by construction.
pub type Score = i64;

/// The objective function failed on the vector it was given.
#[derive(Clone, Copy, Debug, PartialEq, Eq, Structural)]
pub struct EvalError;

/// The errors the operators surface to the driving loop.
#[derive(Clone, Copy, Debug, PartialEq, Eq, Structural)]
pub enum DeError {
    /// The objective function failed on a vector; nothing was committed.
    Evaluation,
    /// A size precondition failed: the population holds fewer than three
    /// members, or two vectors of different dimension met.
    Precondition,
    /// A bound admits no sample: its lower end is not strictly below its
    /// upper end, so the half-open sampling interval is empty.
    InvalidConfiguration,
}

/// One point of the search space: an ordered, fixed-length sequence of
/// fixed-point coordinates. Operators never mutate a `Variable`; they build
/// new ones.
#[derive(Clone, Debug, PartialEq, Eq)]
pub struct Variable {
    coords: Vec<i64>,
}

impl View for Variable {
    type V = Seq<i64>;

    closed spec fn view(&self) -> Seq<i64> {
        self.coords@
    }
}

impl Variable {
    /// Wrap a coordinate vector.
    pub fn from_vec(coords: Vec<i64>) -> (r: Variable)
        ensures
            r@ == coords@,
    {
        Variable { coords }
    }

    /// Dimension of the vector.
    pub fn len(&self) -> (r: usize)
        ensures
            r == self@.len(),
    {
        self.coords.len()
    }

    /// The coordinate at one dimension.
    pub fn coord(&self, j: usize) -> (r: i64)
        requires
            j < self@.len(),
        ensures
            r == self@[j as int],
    {
        self.coords[j]
    }

    /// Elementwise sum, a new vector of the same dimension.
    pub fn plus(&self, other: &Variable) -> (r: Variable)
        requires
            self@.len() == other@.len(),
            forall|j: int|
                0 <= j < self@.len() ==> i64::MIN <= #[trigger] self@[j] + other@[j] <= i64::MAX,
        ensures
            r@.len() == self@.len(),
            forall|j: int| 0 <= j < self@.len() ==> r@[j] == self@[j] + other@[j],
    {
        let n = self.coords.len();
        let mut out: Vec<i64> = Vec::new();
        let mut j: usize = 0;
        while j < n
            invariant
                n == self@.len(),
                self@.len() == other@.len(),
                forall|k: int|
                    0 <= k < self@.len() ==> i64::MIN <= #[trigger] self@[k] + other@[k] <= i64::MAX,
                j <= n,
                out@.len() == j,
                forall|k: int| 0 <= k < j ==> out@[k] == self@[k] + other@[k],
            decreases n - j,
        {
            out.push(self.coords[j] + other.coords[j]);
            j = j + 1;
        }
        Variable { coords: out }
    }

    /// Elementwise difference, a new vector of the same dimension.
    pub fn minus(&self, other: &Variable) -> (r: Variable)
        requires
            self@.len() == other@.len(),
            forall|j: int|
                0 <= j < self@.len() ==> i64::MIN <= #[trigger] self@[j] - other@[j] <= i64::MAX,
        ensures
            r@.len() == self@.len(),
            forall|j: int| 0 <= j < self@.len() ==> r@[j] == self@[j] - other@[j],
    {
        let n = self.coords.len();
        let mut out: Vec<i64> = Vec::new();
        let mut j: usize = 0;
        while j < n
            invariant
                n == self@.len(),
                self@.len() == other@.len(),
                forall|k: int|
                    0 <= k < self@.len() ==> i64::MIN <= #[trigger] self@[k] - other@[k] <= i64::MAX,
                j <= n,
                out@.len() == j,
                forall|k: int| 0 <= k < j ==> out@[k] == self@[k] - other@[k],
            decreases n - j,
        {
            out.push(self.coords[j] - other.coords[j]);
            j = j + 1;
        }
        Variable { coords: out }
    }

    /// Scalar-times-vector product with a non-negative fixed-point factor,
    /// each coordinate rounded toward zero.
    pub fn scaled(&self, f: i64) -> (r: Variable)
        requires
            0 <= f <= SCALE_MAX,
            forall|j: int| 0 <= j < self@.len() ==> iabs(self@[j] as int) <= 2 * COORD_MAX,
        ensures
            r@.len() == self@.len(),
            forall|j: int| 0 <= j < self@.len() ==> r@[j] == fp_mul(f as int, self@[j] as int),
            forall|j: int| 0 <= j < self@.len() ==> iabs(r@[j] as int) <= SCALED_MAX,
    {
        let n = self.coords.len();
        let mut out: Vec<i64> = Vec::new();
        let mut j: usize = 0;
        while j < n
            invariant
                n == self@.len(),
                0 <= f <= SCALE_MAX,
                forall|k: int| 0 <= k < self@.len() ==> iabs(self@[k] as int) <= 2 * COORD_MAX,
                j <= n,
                out@.len() == j,
                forall|k: int| 0 <= k < j ==> out@[k] == fp_mul(f as int, self@[k] as int),
                forall|k: int| 0 <= k < j ==> iabs(out@[k] as int) <= SCALED_MAX,
            decreases n - j,
        {
            out.push(fp_mul_i64(f, self.coords[j]));
            j = j + 1;
        }
        Variable { coords: out }
    }
}

/// The external objective function: it assigns to each vector either a score
/// or a failure, deterministically. `eval_spec` is the mathematical model an
/// implementor commits to; `evaluate` must follow it exactly, failing on a
/// vector if and only if the model assigns it no score.
pub trait Problem {
    /// The value the objective assigns to a vector, `None` where evaluation
    /// fails. An implementor overrides this with its own model; the default
    /// body, under which `evaluate` could never succeed, only spares
    /// unverified implementors the item.
    open spec fn eval_spec(&self, v: Seq<i64>) -> Option<Score> {
        None
    }

    /// Evaluate one vector against the objective.
    fn evaluate(&self, v: &Variable) -> (r: Result<Score, EvalError>)
        ensures
            match r {
                Ok(s) => self.eval_spec(v@) == Some(s),
                Err(_) => self.eval_spec(v@) is None,
            },
    ;
}

} // verus!
