//! The correctness run: the structural suite of a component once, then a
//! thousand comparisons on fresh samples, component after component, until
//! all have passed or one has diverged.

use crate::divergence::{report, Divergence, DivergenceView};
use crate::operation::{components, lemma_components_complete, Component};
use vstd::prelude::*;

verus! {

/// Comparisons on fresh samples per component.
pub const ITERATIONS: u32 = 1000;

/// Steps that a component takes in a run that passes: its structural suite
/// and its comparisons.
pub open spec fn steps_per_component() -> int {
    ITERATIONS + 1
}

/// Steps of a run that passes.
pub open spec fn total_steps() -> int {
    components().len() * steps_per_component()
}

/// Where a run stands, which is also what is to be done next.
#[derive(Clone, Debug, PartialEq, Eq)]
pub enum RunState {
    /// The structural suite of the component is to be run.
    Suite(Component),
    /// The component has passed this many comparisons and the next one is to
    /// be made, on fresh samples.
    Sampling(Component, u32),
    /// Every component has passed every comparison.
    Passed,
    /// A step has diverged; nothing was done after it.
    Failed(Divergence),
}

/// Mathematical form of [`RunState`].
pub enum RunStateView {
    Suite(Component),
    Sampling(Component, u32),
    Passed,
    Failed(DivergenceView),
}

impl View for RunState {
    type V = RunStateView;

    open spec fn view(&self) -> RunStateView {
        match self {
            RunState::Suite(component) => RunStateView::Suite(*component),
            RunState::Sampling(component, done) => RunStateView::Sampling(*component, *done),
            RunState::Passed => RunStateView::Passed,
            RunState::Failed(divergence) => RunStateView::Failed(divergence@),
        }
    }
}

impl RunStateView {
    /// The state in which a run starts.
    pub open spec fn start() -> RunStateView {
        RunStateView::Suite(Component::Field)
    }

    /// Whether the run is over.
    pub open spec fn ended(self) -> bool {
        self is Passed || self is Failed
    }

    /// Whether the state occurs in a run: no component samples more often
    /// than it has comparisons.
    pub open spec fn well_formed(self) -> bool {
        self matches RunStateView::Sampling(_, done) ==> done < ITERATIONS
    }

    /// The number of steps that have passed when a run is in this state, for
    /// a state in which the run goes on.
    pub open spec fn steps_done(self) -> int {
        match self {
            RunStateView::Suite(component) => component.position() * steps_per_component(),
            RunStateView::Sampling(component, done) => component.position()
                * steps_per_component() + 1 + done,
            _ => total_steps(),
        }
    }

    /// The state after the step that was due has ended with `outcome`. A
    /// divergence ends the run at once. A step that passes leads to the next
    /// comparison of the component, after the last one to the structural
    /// suite of the next component, and after the last component to the end.
    /// A run that is over stays as it is.
    pub open spec fn step(self, outcome: Option<DivergenceView>) -> RunStateView {
        match self {
            RunStateView::Passed => self,
            RunStateView::Failed(_) => self,
            RunStateView::Suite(component) => match outcome {
                Some(divergence) => RunStateView::Failed(divergence),
                None => RunStateView::Sampling(component, 0),
            },
            RunStateView::Sampling(component, done) => match outcome {
                Some(divergence) => RunStateView::Failed(divergence),
                None => if done < ITERATIONS - 1 {
                    RunStateView::Sampling(component, (done + 1) as u32)
                } else {
                    match component.spec_next() {
                        Some(next) => RunStateView::Suite(next),
                        None => RunStateView::Passed,
                    }
                },
            },
        }
    }

    /// The state after a list of steps with these outcomes.
    pub open spec fn replay(self, outcomes: Seq<Option<DivergenceView>>) -> RunStateView
        decreases outcomes.len(),
    {
        if outcomes.len() == 0 {
            self
        } else {
            self.step(outcomes[0]).replay(outcomes.drop_first())
        }
    }

    /// The status with which the process ends: zero where every comparison
    /// has passed, one where one has diverged, none while the run goes on.
    pub open spec fn exit_status(self) -> Option<u8> {
        match self {
            RunStateView::Passed => Some(0u8),
            RunStateView::Failed(_) => Some(1u8),
            _ => None,
        }
    }
}

impl RunState {
    /// The state in which a run starts: the structural suite of the field is
    /// due.
    pub fn start() -> (state: RunState)
        ensures
            state@ == RunStateView::start(),
    {
        RunState::Suite(Component::Field)
    }

    /// Takes the outcome of the step that was due and says what is due next.
    pub fn advance(self, outcome: Result<(), Divergence>) -> (next: RunState)
        ensures
            next@ == self@.step(report(outcome)),
            self@.well_formed() ==> next@.well_formed(),
    {
        match self {
            RunState::Passed => RunState::Passed,
            RunState::Failed(divergence) => RunState::Failed(divergence),
            RunState::Suite(component) => match outcome {
                Err(divergence) => RunState::Failed(divergence),
                Ok(_) => RunState::Sampling(component, 0),
            },
            RunState::Sampling(component, done) => match outcome {
                Err(divergence) => RunState::Failed(divergence),
                Ok(_) => if done < ITERATIONS - 1 {
                    RunState::Sampling(component, done + 1)
                } else {
                    match component.next() {
                        Some(next) => RunState::Suite(next),
                        None => RunState::Passed,
                    }
                },
            },
        }
    }

    /// Whether the run is over.
    pub fn ended(&self) -> (ended: bool)
        ensures
            ended == self@.ended(),
    {
        match self {
            RunState::Passed => true,
            RunState::Failed(_) => true,
            _ => false,
        }
    }

    /// The status with which the process ends: zero where every comparison
    /// has passed, one where one has diverged, none while the run goes on.
    pub fn exit_status(&self) -> (status: Option<u8>)
        ensures
            status == self@.exit_status(),
    {
        match self {
            RunState::Passed => Some(0),
            RunState::Failed(_) => Some(1),
            _ => None,
        }
    }
}

/// Whether comparison number `earlier` of component `first` is due before
/// comparison number `later` of component `second`.
pub open spec fn due_before(first: Component, earlier: u32, second: Component, later: u32) -> bool {
    first.position() < second.position() || (first == second && earlier < later)
}

/// Whether a run in `state` has made comparison number `iteration` of
/// `component` and seen it pass.
pub open spec fn has_passed(state: RunStateView, component: Component, iteration: u32) -> bool {
    state is Passed || (!state.ended() && component.position() * steps_per_component() + 1
        + iteration < state.steps_done())
}

/// Whether a run with these two functions may have stopped at comparison
/// number `iteration` of `component` with the divergence `found`: that
/// comparison returned `found`, every comparison that is due before it
/// passed, and the structural suite of every component up to this one
/// returned.
pub open spec fn stopped_at<S: Fn(Component), C: Fn(Component, u32) -> Result<(), Divergence>>(
    structural_suite: S,
    comparison: C,
    component: Component,
    iteration: u32,
    found: Divergence,
) -> bool {
    &&& iteration < ITERATIONS
    &&& call_ensures(comparison, (component, iteration), Err(found))
    &&& forall|first: Component, earlier: u32|
        earlier < ITERATIONS && due_before(first, earlier, component, iteration)
            ==> #[trigger] call_ensures(comparison, (first, earlier), Ok(()))
    &&& forall|first: Component|
        first.position() <= component.position() ==> #[trigger] call_ensures(
            structural_suite,
            (first,),
            (),
        )
}

/// The correctness run. `structural_suite` runs the structural suite of a
/// component and returns if it holds. `comparison` draws fresh samples for
/// comparison number `iteration` of a component, pairs them, lets both
/// implementations work on them and returns what the component's comparator
/// found.
///
/// The run takes the field, the points of Helios and the points of Selene in
/// turn, each with its structural suite first and a thousand comparisons
/// after it. It stops at the first comparison that diverges and returns that
/// divergence; it returns `Ok` once every comparison of every component has
/// passed.
///
/// Of the two functions the contract can only say what their calls returned.
/// A run that passes has seen every structural suite return and every
/// comparison pass. A run that fails returns what one comparison found, and
/// has seen pass every comparison that is due before that one, and return the
/// structural suite of every component up to that one.
pub fn test_helioselene<S: Fn(Component), C: Fn(Component, u32) -> Result<(), Divergence>>(
    structural_suite: S,
    comparison: C,
) -> (verdict: Result<(), Divergence>)
    requires
        forall|component: Component| call_requires(structural_suite, (component,)),
        forall|component: Component, iteration: u32|
            iteration < ITERATIONS ==> call_requires(comparison, (component, iteration)),
    ensures
        verdict is Ok ==> forall|component: Component, iteration: u32|
            iteration < ITERATIONS ==> #[trigger] call_ensures(
                comparison,
                (component, iteration),
                Ok(()),
            ),
        verdict is Ok ==> forall|component: Component| #[trigger]
            call_ensures(structural_suite, (component,), ()),
        verdict matches Err(divergence) ==> exists|
            component: Component,
            iteration: u32,
            found: Divergence,
        |
            found@ == divergence@ && #[trigger] stopped_at(
                structural_suite,
                comparison,
                component,
                iteration,
                found,
            ),
{
    let mut state: RunState = RunState::start();
    let ghost mut culprit: Option<(Component, u32, Divergence)> = None;
    loop
        invariant
            state@.well_formed(),
            forall|component: Component| call_requires(structural_suite, (component,)),
            forall|component: Component, iteration: u32|
                iteration < ITERATIONS ==> call_requires(comparison, (component, iteration)),
            forall|component: Component, iteration: u32|
                iteration < ITERATIONS && has_passed(state@, component, iteration)
                    ==> #[trigger] call_ensures(comparison, (component, iteration), Ok(())),
            forall|component: Component|
                (state@ is Passed || (!state@.ended() && (component.position()
                    * steps_per_component() < state@.steps_done()))) ==> #[trigger] call_ensures(
                    structural_suite,
                    (component,),
                    (),
                ),
            state@ matches RunStateView::Failed(divergence) ==> culprit matches Some(
                (component, iteration, found),
            ) && found@ == divergence && stopped_at(
                structural_suite,
                comparison,
                component,
                iteration,
                found,
            ),
        decreases
                (if state@.ended() {
                    0
                } else {
                    total_steps() - state@.steps_done() + 1
                }),
    {
        match state {
            RunState::Passed => {
                return Ok(());
            },
            RunState::Failed(divergence) => {
                return Err(divergence);
            },
            RunState::Suite(component) => {
                proof {
                    lemma_components_complete(component);
                }
                let ghost before = state@;
                structural_suite(component);
                state = RunState::Suite(component).advance(Ok(()));
                assert forall|other: Component, iteration: u32|
                    iteration < ITERATIONS && has_passed(
                        state@,
                        other,
                        iteration,
                    ) implies #[trigger] call_ensures(comparison, (other, iteration), Ok(())) by {
                    lemma_position_order(other, component);
                    lemma_position_order(component, other);
                    assert(has_passed(before, other, iteration));
                }
                assert forall|other: Component|
                    (!state@.ended() && (other.position() * steps_per_component()
                        < state@.steps_done())) implies #[trigger] call_ensures(
                    structural_suite,
                    (other,),
                    (),
                ) by {
                    lemma_components_complete(other);
                    if other.position() != component.position() {
                        assert(other.position() < component.position()) by (nonlinear_arith)
                            requires
                                other.position() * 1001 < component.position() * 1001 + 1,
                                other.position() != component.position(),
                        ;
                        assert(other.position() * 1001 < component.position() * 1001)
                            by (nonlinear_arith)
                            requires
                                other.position() < component.position(),
                        ;
                    }
                }
            },
            RunState::Sampling(component, done) => {
                proof {
                    lemma_components_complete(component);
                }
                let ghost before = state@;
                let outcome: Result<(), Divergence> = comparison(component, done);
                let ghost seen = outcome;
                proof {
                    if let Err(found) = seen {
                        culprit = Some((component, done, found));
                        assert forall|first: Component, earlier: u32|
                            earlier < ITERATIONS && due_before(
                                first,
                                earlier,
                                component,
                                done,
                            ) implies #[trigger] call_ensures(
                            comparison,
                            (first, earlier),
                            Ok(()),
                        ) by {
                            lemma_position_order(first, component);
                            assert(has_passed(before, first, earlier));
                        }
                        assert forall|first: Component|
                            first.position() <= component.position() implies #[trigger] call_ensures(
                            structural_suite,
                            (first,),
                            (),
                        ) by {
                            lemma_position_order(first, component);
                        }
                    }
                }
                state = RunState::Sampling(component, done).advance(outcome);
                proof {
                    lemma_step_keeps_passed(before, component, done);
                }
                assert forall|other: Component, iteration: u32|
                    iteration < ITERATIONS && has_passed(
                        state@,
                        other,
                        iteration,
                    ) implies #[trigger] call_ensures(comparison, (other, iteration), Ok(())) by {
                    assert(seen is Ok);
                    if let Ok(unit) = seen {
                        assert(unit == ());
                    }
                    assert(call_ensures(comparison, (component, done), seen));
                    assert(state@ == before.step(None));
                    if !(other == component && iteration == done) {
                        assert(has_passed(before, other, iteration));
                    }
                }
            },
        }
    }
}

/// A step that passes leaves every earlier step passed, adds the one that
/// was due and nothing else.
proof fn lemma_step_keeps_passed(state: RunStateView, component: Component, done: u32)
    requires
        state == RunStateView::Sampling(component, done),
        done < ITERATIONS,
    ensures
        forall|other: Component, iteration: u32|
            iteration < ITERATIONS && #[trigger] has_passed(state.step(None), other, iteration)
                ==> has_passed(state, other, iteration) || (other == component && iteration
                == done),
        forall|other: Component|
            (state.step(None) is Passed || (!state.step(None).ended() && other.position()
                * steps_per_component() < state.step(None).steps_done())) ==> other.position()
                * steps_per_component() < state.steps_done(),
{
    lemma_components_complete(component);
    let next = state.step(None);
    assert forall|other: Component, iteration: u32|
        iteration < ITERATIONS && #[trigger] has_passed(next, other, iteration) implies has_passed(
        state,
        other,
        iteration,
    ) || (other == component && iteration == done) by {
        lemma_components_complete(other);
        lemma_position_order(other, component);
    }
    assert forall|other: Component|
        (next is Passed || (!next.ended() && other.position() * steps_per_component()
            < next.steps_done())) implies other.position() * steps_per_component()
        < state.steps_done() by {
        lemma_components_complete(other);
        lemma_position_order(other, component);
    }
}

/// Components at different places of the run are a whole component's steps
/// apart.
proof fn lemma_position_order(first: Component, second: Component)
    ensures
        first.position() < second.position() ==> (first.position() + 1) * steps_per_component()
            <= second.position() * steps_per_component(),
        first.position() == second.position() ==> first == second,
        0 <= first.position() * steps_per_component() <= 2 * steps_per_component(),
{
}

/// A list of steps that all pass.
pub open spec fn passes(steps: nat) -> Seq<Option<DivergenceView>> {
    Seq::new(steps, |i: int| None)
}

/// One step of a run that goes on, if it passes, is one step done: the run
/// stays well formed and is over exactly when the last step was taken.
pub proof fn lemma_step_counts(state: RunStateView)
    requires
        state.well_formed(),
        !state.ended(),
    ensures
        state.step(None).well_formed(),
        !(state.step(None) is Failed),
        state.step(None).steps_done() == state.steps_done() + 1,
        0 <= state.steps_done() < total_steps(),
        state.step(None) is Passed <==> state.steps_done() + 1 == total_steps(),
        total_steps() == 3003,
{
    match state {
        RunStateView::Suite(component) => {
            lemma_components_complete(component);
        },
        RunStateView::Sampling(component, done) => {
            lemma_components_complete(component);
        },
        _ => {},
    }
}

/// A run that is over stays as it is, whatever is fed to it.
pub proof fn lemma_ended_run_stays(state: RunStateView, outcomes: Seq<Option<DivergenceView>>)
    requires
        state.ended(),
    ensures
        state.replay(outcomes) == state,
    decreases outcomes.len(),
{
    if outcomes.len() > 0 {
        lemma_ended_run_stays(state, outcomes.drop_first());
    }
}

/// Length of the run. A run in which every step passes is over after the
/// structural suite and a thousand comparisons of each of the three
/// components, 3003 steps in all, and not before; it then ends with status
/// zero.
pub proof fn lemma_passing_run(steps: nat)
    ensures
        RunStateView::start().replay(passes(steps)) is Passed <==> steps >= total_steps(),
        steps >= total_steps() ==> RunStateView::start().replay(passes(steps)).exit_status()
            == Some(0u8),
        steps < total_steps() ==> RunStateView::start().replay(passes(steps)).exit_status()
            is None,
{
    lemma_passing_run_from(RunStateView::start(), steps);
}

/// The same from any state in which the run goes on.
proof fn lemma_passing_run_from(state: RunStateView, steps: nat)
    requires
        state.well_formed(),
        !state.ended(),
    ensures
        state.replay(passes(steps)) is Passed <==> state.steps_done() + steps >= total_steps(),
        state.steps_done() + steps < total_steps() ==> !state.replay(passes(steps)).ended(),
        state.steps_done() + steps < total_steps() ==> state.replay(passes(steps)).well_formed(),
        state.steps_done() + steps < total_steps() ==> state.replay(passes(steps)).steps_done()
            == state.steps_done() + steps,
    decreases steps,
{
    lemma_step_counts(state);
    if steps > 0 {
        let next = state.step(None);
        assert(passes(steps).drop_first() =~= passes((steps - 1) as nat));
        assert(passes(steps)[0] == None::<DivergenceView>);
        if next is Passed {
            lemma_ended_run_stays(next, passes((steps - 1) as nat));
        } else {
            lemma_passing_run_from(next, (steps - 1) as nat);
        }
    }
}

/// Fail-fast. A run ends with the first divergence that is fed to it before
/// its last step: the divergence is kept as it is, nothing that follows
/// changes it, and the status is one.
pub proof fn lemma_run_fails_fast(outcomes: Seq<Option<DivergenceView>>, first: int)
    requires
        0 <= first < outcomes.len(),
        first < total_steps(),
        outcomes[first] is Some,
        forall|i: int| 0 <= i < first ==> outcomes[i] is None,
    ensures
        RunStateView::start().replay(outcomes) == RunStateView::Failed(outcomes[first]->0),
        RunStateView::start().replay(outcomes).exit_status() == Some(1u8),
{
    lemma_run_fails_fast_from(RunStateView::start(), outcomes, first);
}

/// The same from any state in which the run goes on.
proof fn lemma_run_fails_fast_from(
    state: RunStateView,
    outcomes: Seq<Option<DivergenceView>>,
    first: int,
)
    requires
        state.well_formed(),
        !state.ended(),
        0 <= first < outcomes.len(),
        state.steps_done() + first < total_steps(),
        outcomes[first] is Some,
        forall|i: int| 0 <= i < first ==> outcomes[i] is None,
    ensures
        state.replay(outcomes) == RunStateView::Failed(outcomes[first]->0),
    decreases outcomes.len(),
{
    lemma_step_counts(state);
    let rest = outcomes.drop_first();
    if first == 0 {
        lemma_ended_run_stays(state.step(outcomes[0]), rest);
    } else {
        assert(outcomes[0] is None);
        assert(rest[first - 1] == outcomes[first]);
        assert forall|i: int| 0 <= i < first - 1 implies rest[i] is None by {
            assert(rest[i] == outcomes[i + 1]);
        }
        lemma_run_fails_fast_from(state.step(None), rest, first - 1);
    }
}

} // verus!
