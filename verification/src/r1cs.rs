//! Rank-1 constraint systems with their assignment.
//!
//! A constraint is three linear combinations `a`, `b`, `c` of the variables
//! and asks that `a · b = c` in the scalar field. The variables are the
//! instance variables, the first of which is the constant one, followed by
//! the witness variables.

use crate::scalar::{scalar_modulus, Scalar};
use vstd::arithmetic::div_mod::{lemma_add_mod_noop, lemma_mul_mod_noop, lemma_small_mod};
use vstd::prelude::*;

verus! {

/// A synthesized circuit: the three matrices of its constraints, one sparse
/// row of `(coefficient, variable)` terms per constraint, and the values of
/// its variables.
#[derive(Clone, Debug, PartialEq, Eq)]
pub struct ConstraintSystem {
    /// The left factors of the constraints.
    pub a: Vec<Vec<(Scalar, usize)>>,
    /// The right factors of the constraints.
    pub b: Vec<Vec<(Scalar, usize)>>,
    /// The products that the constraints ask for.
    pub c: Vec<Vec<(Scalar, usize)>>,
    /// The values of the instance variables; the first is the constant one.
    pub instance_assignment: Vec<Scalar>,
    /// The values of the witness variables.
    pub witness_assignment: Vec<Scalar>,
}

/// The value of a linear combination under an assignment, as an integer:
/// the sum of its coefficients times the values of their variables.
pub open spec fn lc_value(row: Seq<(Scalar, usize)>, z: Seq<Scalar>) -> int
    decreases row.len(),
{
    if row.len() == 0 {
        0
    } else {
        lc_value(row.drop_last(), z) + row.last().0.value() * z[row.last().1 as int].value()
    }
}

/// Every term of the linear combination names one of `n` variables.
pub open spec fn lc_in_range(row: Seq<(Scalar, usize)>, n: nat) -> bool {
    forall|k: int| 0 <= k < row.len() ==> (#[trigger] row[k]).1 < n
}

/// Every row of the matrix names only variables among the first `n`.
pub open spec fn matrix_in_range(m: Seq<Vec<(Scalar, usize)>>, n: nat) -> bool {
    forall|i: int| 0 <= i < m.len() ==> lc_in_range(#[trigger] m[i]@, n)
}

impl ConstraintSystem {
    /// The values of all variables: instance first, then witness.
    pub open spec fn assignment(&self) -> Seq<Scalar> {
        self.instance_assignment@ + self.witness_assignment@
    }

    /// The three matrices have one row per constraint and name only
    /// variables that exist, and the first instance variable is the constant
    /// one.
    pub open spec fn well_formed(&self) -> bool {
        &&& self.a@.len() == self.b@.len()
        &&& self.a@.len() == self.c@.len()
        &&& self.instance_assignment@.len() > 0
        &&& self.instance_assignment@[0].value() == 1
        &&& matrix_in_range(self.a@, self.assignment().len())
        &&& matrix_in_range(self.b@, self.assignment().len())
        &&& matrix_in_range(self.c@, self.assignment().len())
    }

    /// The assignment meets constraint `i`: the product of the values of its
    /// two factors is the value of its third row, in the scalar field.
    pub open spec fn constraint_holds(&self, i: int) -> bool {
        (lc_value(self.a@[i]@, self.assignment()) * lc_value(self.b@[i]@, self.assignment()))
            % (scalar_modulus() as int) == lc_value(self.c@[i]@, self.assignment()) % (
        scalar_modulus() as int)
    }

    /// The system is well formed and its assignment meets every constraint.
    pub open spec fn satisfied(&self) -> bool {
        &&& self.well_formed()
        &&& forall|i: int| 0 <= i < self.a@.len() ==> self.constraint_holds(i)
    }

    /// The value of variable `index`, where there is such a variable.
    pub fn variable(&self, index: usize) -> (res: Option<Scalar>)
        ensures
            res is Some <==> index < self.assignment().len(),
            res matches Some(v) ==> v == self.assignment()[index as int],
    {
        if index < self.instance_assignment.len() {
            Some(self.instance_assignment[index])
        } else if index - self.instance_assignment.len() < self.witness_assignment.len() {
            Some(self.witness_assignment[index - self.instance_assignment.len()])
        } else {
            None
        }
    }

    /// The value of a linear combination in the scalar field, or `None`
    /// where one of its terms names a variable that does not exist.
    pub fn evaluate(&self, row: &Vec<(Scalar, usize)>) -> (res: Option<Scalar>)
        ensures
            res is Some <==> lc_in_range(row@, self.assignment().len()),
            res matches Some(v) ==> v.value() == lc_value(row@, self.assignment()) % (
            scalar_modulus() as int),
    {
        let ghost z = self.assignment();
        let ghost m = scalar_modulus() as int;
        let mut acc = Scalar::zero();
        let mut k: usize = 0;
        proof {
            lemma_small_mod(0, scalar_modulus());
            assert(row@.subrange(0, 0) =~= Seq::<(Scalar, usize)>::empty());
        }
        while k < row.len()
            invariant
                0 <= k <= row.len(),
                z == self.assignment(),
                m == scalar_modulus() as int,
                lc_in_range(row@.subrange(0, k as int), z.len()),
                acc.value() == lc_value(row@.subrange(0, k as int), z) % m,
            decreases row.len() - k,
        {
            let coeff = row[k].0;
            let index = row[k].1;
            let ghost before = row@.subrange(0, k as int);
            let ghost after = row@.subrange(0, k + 1);
            proof {
                assert(after.drop_last() =~= before);
                assert(after.last() == row@[k as int]);
            }
            match self.variable(index) {
                Some(v) => {
                    let term = coeff.product(&v);
                    let next = acc.sum(&term);
                    proof {
                        let x = lc_value(before, z);
                        let y = (coeff.value() * v.value()) as int;
                        lemma_add_mod_noop(x, y, m);
                        assert(lc_value(after, z) == x + y);
                        assert forall|j: int| 0 <= j < after.len() implies (#[trigger] after[j]).1
                            < z.len() by {
                            if j < k {
                                assert(before[j] == after[j]);
                            }
                        }
                    }
                    acc = next;
                },
                None => {
                    proof {
                        assert(row@[k as int].1 >= z.len());
                    }
                    return None;
                },
            }
            k += 1;
        }
        proof {
            assert(row@.subrange(0, row@.len() as int) =~= row@);
        }
        Some(acc)
    }

    /// Whether every term of the linear combination names a variable that
    /// exists.
    fn row_check(&self, row: &Vec<(Scalar, usize)>) -> (res: bool)
        ensures
            res == lc_in_range(row@, self.assignment().len()),
    {
        let mut k: usize = 0;
        while k < row.len()
            invariant
                0 <= k <= row.len(),
                forall|j: int| 0 <= j < k ==> (#[trigger] row@[j]).1 < self.assignment().len(),
            decreases row.len() - k,
        {
            if self.variable(row[k].1).is_none() {
                return false;
            }
            k += 1;
        }
        true
    }

    /// Whether the matrix names only variables that exist.
    fn matrix_check(&self, m: &Vec<Vec<(Scalar, usize)>>) -> (res: bool)
        ensures
            res == matrix_in_range(m@, self.assignment().len()),
    {
        let mut i: usize = 0;
        while i < m.len()
            invariant
                0 <= i <= m.len(),
                forall|j: int|
                    0 <= j < i ==> lc_in_range(#[trigger] m@[j]@, self.assignment().len()),
            decreases m.len() - i,
        {
            if !self.row_check(&m[i]) {
                return false;
            }
            i += 1;
        }
        true
    }

    /// Whether the system is well formed.
    pub fn is_well_formed(&self) -> (res: bool)
        ensures
            res == self.well_formed(),
    {
        if self.a.len() != self.b.len() || self.a.len() != self.c.len() {
            return false;
        }
        if self.instance_assignment.len() == 0 {
            return false;
        }
        if !self.instance_assignment[0].equals(&Scalar::one()) {
            return false;
        }
        self.matrix_check(&self.a) && self.matrix_check(&self.b) && self.matrix_check(&self.c)
    }

    /// Whether the system is well formed and its assignment meets every
    /// constraint.
    pub fn is_satisfied(&self) -> (res: bool)
        ensures
            res == self.satisfied(),
    {
        if self.a.len() != self.b.len() || self.a.len() != self.c.len() {
            return false;
        }
        if self.instance_assignment.len() == 0 {
            return false;
        }
        if !self.instance_assignment[0].equals(&Scalar::one()) {
            return false;
        }
        let ghost z = self.assignment();
        let ghost m = scalar_modulus() as int;
        let mut i: usize = 0;
        while i < self.a.len()
            invariant
                0 <= i <= self.a.len(),
                self.a@.len() == self.b@.len(),
                self.a@.len() == self.c@.len(),
                z == self.assignment(),
                m == scalar_modulus() as int,
                forall|j: int| 0 <= j < i ==> lc_in_range(#[trigger] self.a@[j]@, z.len()),
                forall|j: int| 0 <= j < i ==> lc_in_range(#[trigger] self.b@[j]@, z.len()),
                forall|j: int| 0 <= j < i ==> lc_in_range(#[trigger] self.c@[j]@, z.len()),
                forall|j: int| 0 <= j < i ==> self.constraint_holds(j),
            decreases self.a.len() - i,
        {
            let left = self.evaluate(&self.a[i]);
            let right = self.evaluate(&self.b[i]);
            let out = self.evaluate(&self.c[i]);
            match (left, right, out) {
                (Some(l), Some(r), Some(o)) => {
                    let product = l.product(&r);
                    proof {
                        lemma_mul_mod_noop(
                            lc_value(self.a@[i as int]@, z),
                            lc_value(self.b@[i as int]@, z),
                            m,
                        );
                    }
                    if !product.equals(&o) {
                        assert(!self.constraint_holds(i as int));
                        return false;
                    }
                },
                _ => {
                    return false;
                },
            }
            i += 1;
        }
        true
    }
}

} // verus!
