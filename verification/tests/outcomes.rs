use ipamir::{
    check_status, Call, MaxSatResult, IPAMIR, STATUS_ERROR, STATUS_INTERRUPTED,
    STATUS_INTERRUPTED_WITH_MODEL, STATUS_OPTIMAL, STATUS_UNSAT,
};

#[test]
fn status_codes_have_their_wire_values() {
    assert_eq!(STATUS_INTERRUPTED, 0);
    assert_eq!(STATUS_INTERRUPTED_WITH_MODEL, 10);
    assert_eq!(STATUS_UNSAT, 20);
    assert_eq!(STATUS_OPTIMAL, 30);
    assert_eq!(STATUS_ERROR, 40);
}

#[test]
fn the_five_status_codes_are_known() {
    for code in [0, 10, 20, 30, 40] {
        assert!(check_status(code));
    }
}

#[test]
fn every_other_code_is_unknown() {
    for code in [-1, 1, 5, 9, 11, 15, 19, 21, 29, 31, 39, 41, 50, 99, i32::MIN, i32::MAX] {
        assert!(!check_status(code));
    }
    let known = (-1000..=1000).filter(|code| check_status(*code)).count();
    assert_eq!(known, 5);
}

#[test]
fn interrupted_without_model_exposes_no_solution() {
    let mut handle = IPAMIR::new(1);
    let outcome = handle.solve(None, &[]).conclude(0);
    assert!(matches!(outcome, MaxSatResult::Timeout(None)));
}

#[test]
fn interrupted_with_model_exposes_a_solution() {
    let mut handle = IPAMIR::new(1);
    let outcome = handle.solve(None, &[]).conclude(10);
    assert!(matches!(outcome, MaxSatResult::Timeout(Some(_))));
}

#[test]
fn unsat_exposes_no_solution() {
    let mut handle = IPAMIR::new(1);
    let outcome = handle.solve(None, &[]).conclude(20);
    assert!(matches!(outcome, MaxSatResult::Unsat));
}

#[test]
fn optimal_exposes_a_solution() {
    let mut handle = IPAMIR::new(1);
    let outcome = handle.solve(None, &[]).conclude(30);
    assert!(matches!(outcome, MaxSatResult::Optimal(_)));
}

#[test]
fn engine_error_exposes_no_solution() {
    let mut handle = IPAMIR::new(1);
    let outcome = handle.solve(None, &[]).conclude(40);
    assert!(matches!(outcome, MaxSatResult::Error));
}

#[test]
fn a_solution_issues_the_two_queries() {
    let mut handle = IPAMIR::new(1);
    match handle.solve(None, &[]).conclude(30) {
        MaxSatResult::Optimal(solution) => {
            assert_eq!(solution.get_objective_value(), Call::ValObj);
            assert_eq!(solution.get_literal_value(1), Call::ValLit(1));
            assert_eq!(solution.get_literal_value(-2), Call::ValLit(-2));
        }
        _ => panic!("status 30 is the optimal outcome"),
    }
}

#[test]
fn the_handle_is_usable_again_once_the_solution_is_dropped() {
    let mut handle = IPAMIR::new(1);
    {
        let outcome = handle.solve(None, &[]).conclude(10);
        assert!(matches!(outcome, MaxSatResult::Timeout(Some(_))));
    }
    assert_eq!(handle.add_soft_lit(1, 1), Call::AddSoftLit(1, 1));
    let outcome = handle.solve(None, &[]).conclude(20);
    assert!(matches!(outcome, MaxSatResult::Unsat));
    assert_eq!(handle.release(), Call::Release);
}
