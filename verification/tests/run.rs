use helioselene_contest::divergence::{Divergence, DivergenceKind, Observed};
use helioselene_contest::operation::{Component, Curve, FieldOp, Operation, PointOp};
use helioselene_contest::run::{test_helioselene, RunState, ITERATIONS};
use std::cell::{Cell, RefCell};

fn divergence(operation: Operation) -> Divergence {
    Divergence {
        kind: DivergenceKind::EncodingMismatch,
        operation,
        operands: vec![vec![1; 32], vec![2; 32]],
        candidate: Observed::Encoding(vec![3; 32]),
        reference: Observed::Encoding(vec![4; 32]),
    }
}

#[test]
fn a_thousand_comparisons_per_component() {
    assert_eq!(ITERATIONS, 1000);
}

#[test]
fn the_run_starts_with_the_structural_suite_of_the_field() {
    let state = RunState::start();
    assert_eq!(state, RunState::Suite(Component::Field));
    assert!(!state.ended());
    assert_eq!(state.exit_status(), None);
}

#[test]
fn sampling_follows_the_suite() {
    let state = RunState::start().advance(Ok(()));
    assert_eq!(state, RunState::Sampling(Component::Field, 0));
    let state = state.advance(Ok(()));
    assert_eq!(state, RunState::Sampling(Component::Field, 1));
    assert_eq!(state.exit_status(), None);
}

#[test]
fn the_next_component_follows_the_last_comparison() {
    let state = RunState::Sampling(Component::Field, 998).advance(Ok(()));
    assert_eq!(state, RunState::Sampling(Component::Field, 999));
    let state = state.advance(Ok(()));
    assert_eq!(state, RunState::Suite(Component::Points(Curve::Helios)));
    let state = RunState::Sampling(Component::Points(Curve::Helios), 999).advance(Ok(()));
    assert_eq!(state, RunState::Suite(Component::Points(Curve::Selene)));
    let state = RunState::Sampling(Component::Points(Curve::Selene), 999).advance(Ok(()));
    assert_eq!(state, RunState::Passed);
    assert!(state.ended());
    assert_eq!(state.exit_status(), Some(0));
}

#[test]
fn a_divergence_ends_the_run() {
    let found = divergence(Operation::Field(FieldOp::Mul));
    let state = RunState::Sampling(Component::Field, 3).advance(Err(found.clone()));
    assert_eq!(state, RunState::Failed(found.clone()));
    assert!(state.ended());
    assert_eq!(state.exit_status(), Some(1));
    let state = RunState::Suite(Component::Points(Curve::Selene)).advance(Err(found.clone()));
    assert_eq!(state, RunState::Failed(found));
}

#[test]
fn a_run_that_is_over_stays_as_it_is() {
    let found = divergence(Operation::Field(FieldOp::Mul));
    let later = divergence(Operation::Point(Curve::Helios, PointOp::Add));
    let state = RunState::Failed(found.clone());
    assert_eq!(state.clone().advance(Ok(())), RunState::Failed(found.clone()));
    assert_eq!(state.advance(Err(later.clone())), RunState::Failed(found));
    assert_eq!(RunState::Passed.advance(Ok(())), RunState::Passed);
    assert_eq!(RunState::Passed.advance(Err(later)), RunState::Passed);
}

#[test]
fn a_passing_run_takes_3003_steps() {
    let mut state = RunState::start();
    let mut steps = 0;
    let mut suites = Vec::new();
    let mut comparisons = 0;
    while !state.ended() {
        match &state {
            RunState::Suite(component) => suites.push(*component),
            RunState::Sampling(_, _) => comparisons += 1,
            _ => unreachable!(),
        }
        state = state.advance(Ok(()));
        steps += 1;
    }
    assert_eq!(steps, 3003);
    assert_eq!(comparisons, 3000);
    assert_eq!(suites, Component::all());
    assert_eq!(state, RunState::Passed);
    assert_eq!(state.exit_status(), Some(0));
}

#[test]
fn the_full_run_passes_when_nothing_diverges() {
    let suites = RefCell::new(Vec::new());
    let comparisons = RefCell::new(Vec::new());
    let verdict = test_helioselene(
        |component| suites.borrow_mut().push((component, comparisons.borrow().len())),
        |component, iteration| {
            comparisons.borrow_mut().push((component, iteration));
            Ok(())
        },
    );
    assert_eq!(verdict, Ok(()));
    assert_eq!(
        suites.into_inner(),
        vec![
            (Component::Field, 0),
            (Component::Points(Curve::Helios), 1000),
            (Component::Points(Curve::Selene), 2000)
        ]
    );
    let mut expected = Vec::new();
    for component in Component::all() {
        for iteration in 0..1000u32 {
            expected.push((component, iteration));
        }
    }
    assert_eq!(comparisons.into_inner(), expected);
}

#[test]
fn the_full_run_stops_at_the_first_divergence() {
    let suites = Cell::new(0u32);
    let comparisons = Cell::new(0u32);
    let found = divergence(Operation::Point(Curve::Helios, PointOp::Double));
    let verdict = test_helioselene(
        |_| suites.set(suites.get() + 1),
        |component, iteration| {
            comparisons.set(comparisons.get() + 1);
            if component == Component::Points(Curve::Helios) && iteration == 17 {
                Err(found.clone())
            } else {
                Ok(())
            }
        },
    );
    assert_eq!(verdict, Err(found.clone()));
    assert_eq!(suites.get(), 2);
    assert_eq!(comparisons.get(), 1018);
}

#[test]
fn the_full_run_stops_at_a_divergence_of_the_first_comparison() {
    let comparisons = Cell::new(0u32);
    let found = divergence(Operation::Field(FieldOp::Add));
    let verdict = test_helioselene(
        |_| (),
        |_, _| {
            comparisons.set(comparisons.get() + 1);
            Err(found.clone())
        },
    );
    assert_eq!(verdict, Err(found.clone()));
    assert_eq!(comparisons.get(), 1);
}

#[test]
fn the_full_run_stops_at_a_divergence_of_the_last_comparison() {
    let comparisons = Cell::new(0u32);
    let found = divergence(Operation::Point(Curve::Selene, PointOp::Neg));
    let verdict = test_helioselene(
        |_| (),
        |component, iteration| {
            comparisons.set(comparisons.get() + 1);
            if component == Component::Points(Curve::Selene) && iteration == 999 {
                Err(found.clone())
            } else {
                Ok(())
            }
        },
    );
    assert_eq!(verdict, Err(found.clone()));
    assert_eq!(comparisons.get(), 3000);
}
