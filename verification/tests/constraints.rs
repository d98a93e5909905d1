use ark_groth16::r1cs::ConstraintSystem;
use ark_groth16::scalar::Scalar;

fn n(v: u64) -> Scalar {
    Scalar::from_u64(v)
}

fn largest() -> Scalar {
    Scalar::new([
        0x0a11800000000000,
        0x59aa76fed0000001,
        0x60b44d1e5c37b001,
        0x12ab655e9a2ca556,
    ])
    .unwrap()
}

/// One public x, one witness y, and the constraint x * x = y.
fn square(x: u64, y: u64) -> ConstraintSystem {
    ConstraintSystem {
        a: vec![vec![(n(1), 1)]],
        b: vec![vec![(n(1), 1)]],
        c: vec![vec![(n(1), 2)]],
        instance_assignment: vec![n(1), n(x)],
        witness_assignment: vec![n(y)],
    }
}

#[test]
fn a_square_is_satisfied_by_its_square() {
    assert!(square(3, 9).is_satisfied());
    assert!(square(0, 0).is_satisfied());
    assert!(square(1, 1).is_satisfied());
    assert!(square(1 << 31, 1 << 62).is_satisfied());
    assert!(!square(3, 10).is_satisfied());
    assert!(!square(3, 8).is_satisfied());
    assert!(!square(3, 0).is_satisfied());
    assert!(!square(0, 1).is_satisfied());
    assert!(square(3, 10).is_well_formed());
}

#[test]
fn constraints_hold_in_the_field() {
    // (m - 1) * (m - 1) = 1 in the field.
    let mut system = square(0, 1);
    system.instance_assignment[1] = largest();
    assert!(system.is_satisfied());
    system.witness_assignment[0] = n(2);
    assert!(!system.is_satisfied());

    // (x + (m - 1)) * (2 x) = y with x = 1: 0 * 2 = 0.
    let system = ConstraintSystem {
        a: vec![vec![(n(1), 1), (largest(), 0)]],
        b: vec![vec![(n(2), 1)]],
        c: vec![vec![(n(1), 2)]],
        instance_assignment: vec![n(1), n(1)],
        witness_assignment: vec![n(0)],
    };
    assert!(system.is_satisfied());
    assert_eq!(system.evaluate(&system.a[0]), Some(n(0)));
    assert_eq!(system.evaluate(&system.b[0]), Some(n(2)));
}

#[test]
fn a_linear_combination_is_the_sum_of_its_terms() {
    let system = ConstraintSystem {
        a: vec![],
        b: vec![],
        c: vec![],
        instance_assignment: vec![n(1), n(10)],
        witness_assignment: vec![n(100), n(1000)],
    };
    assert_eq!(system.evaluate(&vec![]), Some(n(0)));
    assert_eq!(system.evaluate(&vec![(n(7), 0)]), Some(n(7)));
    assert_eq!(system.evaluate(&vec![(n(7), 1)]), Some(n(70)));
    assert_eq!(
        system.evaluate(&vec![(n(1), 0), (n(2), 1), (n(3), 2), (n(4), 3)]),
        Some(n(4321))
    );
    assert_eq!(system.evaluate(&vec![(n(2), 3), (n(3), 3)]), Some(n(5000)));
    assert_eq!(system.evaluate(&vec![(largest(), 1), (n(1), 1)]), Some(n(0)));
    assert_eq!(system.evaluate(&vec![(n(1), 4)]), None);
    assert_eq!(system.evaluate(&vec![(n(1), 0), (n(1), usize::MAX)]), None);
    assert_eq!(system.evaluate(&vec![(n(0), 9)]), None);

    assert_eq!(system.variable(0), Some(n(1)));
    assert_eq!(system.variable(1), Some(n(10)));
    assert_eq!(system.variable(2), Some(n(100)));
    assert_eq!(system.variable(3), Some(n(1000)));
    assert_eq!(system.variable(4), None);
    assert_eq!(system.variable(usize::MAX), None);
}

#[test]
fn a_system_without_constraints_is_satisfied() {
    let system = ConstraintSystem {
        a: vec![],
        b: vec![],
        c: vec![],
        instance_assignment: vec![n(1)],
        witness_assignment: vec![],
    };
    assert!(system.is_well_formed());
    assert!(system.is_satisfied());
}

#[test]
fn a_system_that_is_not_well_formed_is_not_satisfied() {
    // No constant one.
    let mut system = square(3, 9);
    system.instance_assignment.clear();
    assert!(!system.is_well_formed());
    assert!(!system.is_satisfied());

    // The first instance variable is not one. With 2 for it and the
    // constraint 1 * 1 = y over the constant, the products would agree.
    let system = ConstraintSystem {
        a: vec![vec![(n(1), 0)]],
        b: vec![vec![(n(1), 0)]],
        c: vec![vec![(n(1), 1)]],
        instance_assignment: vec![n(2)],
        witness_assignment: vec![n(4)],
    };
    assert!(!system.is_well_formed());
    assert!(!system.is_satisfied());

    // Matrices of different heights.
    let mut system = square(3, 9);
    system.b.push(vec![]);
    assert!(!system.is_well_formed());
    assert!(!system.is_satisfied());
    let mut system = square(3, 9);
    system.c.clear();
    assert!(!system.is_well_formed());
    assert!(!system.is_satisfied());

    // A term that names a variable that does not exist, in each matrix.
    let mut system = square(0, 0);
    system.a[0].push((n(1), 3));
    assert!(!system.is_well_formed());
    assert!(!system.is_satisfied());
    let mut system = square(0, 0);
    system.b[0].push((n(1), 3));
    assert!(!system.is_well_formed());
    assert!(!system.is_satisfied());
    let mut system = square(0, 0);
    system.c[0].push((n(0), 3));
    assert!(!system.is_well_formed());
    assert!(!system.is_satisfied());
    let mut system = square(0, 0);
    system.a[0].push((n(1), 2));
    assert!(system.is_well_formed());
}

#[test]
fn every_constraint_has_to_hold() {
    // x * x = y and y * x = z.
    let system = |x: u64, y: u64, z: u64| ConstraintSystem {
        a: vec![vec![(n(1), 1)], vec![(n(1), 2)]],
        b: vec![vec![(n(1), 1)], vec![(n(1), 1)]],
        c: vec![vec![(n(1), 2)], vec![(n(1), 3)]],
        instance_assignment: vec![n(1), n(x)],
        witness_assignment: vec![n(y), n(z)],
    };
    assert!(system(2, 4, 8).is_satisfied());
    assert!(!system(2, 4, 9).is_satisfied());
    assert!(!system(2, 5, 10).is_satisfied());
    assert!(!system(2, 5, 8).is_satisfied());
}
