//! The plan of the benchmark: which operations are timed, under which names,
//! and in batches of which size, the same for both implementations.

use crate::operation::{components, Component, Curve, Element, FieldOp, Operation, PointOp, Side};
use crate::sample::{sample_plan, samples_for};
use vstd::prelude::*;
use vstd::string::StringExecFns;

verus! {

/// One timed operation: a single measurement applies `operation` to the same
/// operands `batch_size` times and discards the results.
#[derive(Clone, Copy, Debug, PartialEq, Eq, Structural)]
pub struct BenchCase {
    pub operation: Operation,
    pub batch_size: u32,
}

/// One measurement: one side applies `operation` to the operands `batch_size`
/// times, and the time of the batch is recorded under `name`.
#[derive(Clone, Debug, PartialEq, Eq)]
pub struct Measurement {
    pub name: String,
    pub operation: Operation,
    pub side: Side,
    pub batch_size: u32,
}

/// Mathematical form of [`Measurement`].
pub struct MeasurementView {
    pub name: Seq<char>,
    pub operation: Operation,
    pub side: Side,
    pub batch_size: u32,
}

impl View for Measurement {
    type V = MeasurementView;

    open spec fn view(&self) -> MeasurementView {
        MeasurementView {
            name: self.name@,
            operation: self.operation,
            side: self.side,
            batch_size: self.batch_size,
        }
    }
}

/// The mathematical form of every measurement of a list.
pub open spec fn measurement_views(list: Seq<Measurement>) -> Seq<MeasurementView> {
    Seq::new(list.len(), |i: int| list[i]@)
}

/// What is timed of one component.
#[derive(Clone, Debug, PartialEq, Eq)]
pub struct BenchGroup {
    pub component: Component,
    /// The name under which the measurements are grouped.
    pub name: String,
    /// The samples to pair before the first measurement.
    pub samples: Vec<Element>,
    /// The measurements to make, in order: every timed operation on the
    /// candidate and directly after it on the reference, on the same
    /// operands.
    pub measurements: Vec<Measurement>,
}

/// Mathematical form of [`BenchGroup`].
pub struct BenchGroupView {
    pub component: Component,
    pub name: Seq<char>,
    pub samples: Seq<Element>,
    pub measurements: Seq<MeasurementView>,
}

impl View for BenchGroup {
    type V = BenchGroupView;

    open spec fn view(&self) -> BenchGroupView {
        BenchGroupView {
            component: self.component,
            name: self.name@,
            samples: self.samples@,
            measurements: measurement_views(self.measurements@),
        }
    }
}

/// A batch did not run to its end: an operation that the comparison had
/// found to succeed reported an error while it was timed.
#[derive(Clone, Copy, Debug, PartialEq, Eq, Structural)]
pub struct BenchmarkOperationFailure {
    /// The number of the application that failed, which is also the number
    /// of applications that had succeeded before it.
    pub completed: u32,
}

/// A timed field operation.
pub open spec fn field_case(op: FieldOp, batch_size: u32) -> BenchCase {
    BenchCase { operation: Operation::Field(op), batch_size }
}

/// A timed point operation.
pub open spec fn point_case(curve: Curve, op: PointOp, batch_size: u32) -> BenchCase {
    BenchCase { operation: Operation::Point(curve, op), batch_size }
}

/// The timed operations of a component with their batch sizes. Of the field
/// operations, addition, subtraction, doubling and negation run a million
/// times per measurement, multiplication and squaring three hundred thousand
/// times, inversion a thousand times, square root and power five hundred
/// times. Of the point operations, the group law runs ten thousand times and
/// a scalar multiplication fifty times.
pub open spec fn bench_plan(component: Component) -> Seq<BenchCase> {
    match component {
        Component::Field => seq![
            field_case(FieldOp::Add, 1000000),
            field_case(FieldOp::Mul, 300000),
            field_case(FieldOp::Sub, 1000000),
            field_case(FieldOp::Square, 300000),
            field_case(FieldOp::Double, 1000000),
            field_case(FieldOp::Invert, 1000),
            field_case(FieldOp::SqrtOfSquare, 500),
            field_case(FieldOp::Pow, 500),
            field_case(FieldOp::Neg, 1000000),
        ],
        Component::Points(curve) => seq![
            point_case(curve, PointOp::Add, 10000),
            point_case(curve, PointOp::Mul, 50),
            point_case(curve, PointOp::MulGenerator, 50),
            point_case(curve, PointOp::Sub, 10000),
            point_case(curve, PointOp::Double, 10000),
        ],
    }
}

/// The first `upto` operations of a list that are timed, as cases.
pub open spec fn timed_cases(operations: Seq<Operation>, upto: int) -> Seq<BenchCase>
    decreases upto,
{
    if upto <= 0 {
        Seq::empty()
    } else {
        let before = timed_cases(operations, upto - 1);
        match operations[upto - 1].spec_batch_size() {
            Some(batch_size) => before.push(
                BenchCase { operation: operations[upto - 1], batch_size },
            ),
            None => before,
        }
    }
}

/// The name under which one side of a case is measured: the operation's name
/// for the candidate, the same with `-ref` behind it for the reference.
pub open spec fn spec_bench_name(operation: Operation, side: Side) -> Seq<char> {
    match side {
        Side::Candidate => operation.spec_name(),
        Side::Reference => operation.spec_name() + "-ref"@,
    }
}

/// The measurement of one side of a case.
pub open spec fn measurement_of(case: BenchCase, side: Side) -> MeasurementView {
    MeasurementView {
        name: spec_bench_name(case.operation, side),
        operation: case.operation,
        side,
        batch_size: case.batch_size,
    }
}

/// The measurements of a component in the order in which they are made: for
/// every case of the plan the candidate, and directly after it the reference.
pub open spec fn measurements(component: Component) -> Seq<MeasurementView> {
    Seq::new(
        2 * bench_plan(component).len(),
        |i: int|
            measurement_of(
                bench_plan(component)[i / 2],
                if i % 2 == 0 {
                    Side::Candidate
                } else {
                    Side::Reference
                },
            ),
    )
}

/// The whole benchmark: one group per component, in the order of the run.
pub open spec fn bench_groups() -> Seq<BenchGroupView> {
    Seq::new(
        components().len(),
        |i: int|
            BenchGroupView {
                component: components()[i],
                name: components()[i].spec_group_name(),
                samples: sample_plan(components()[i]),
                measurements: measurements(components()[i]),
            },
    )
}

/// The mathematical form of every group of a list.
pub open spec fn group_views(groups: Seq<BenchGroup>) -> Seq<BenchGroupView> {
    Seq::new(groups.len(), |i: int| groups[i]@)
}

/// The plan is what the operations themselves say: the timed cases of a
/// component are its operations that have a batch size, in comparison order,
/// each with that batch size.
pub proof fn lemma_bench_plan_is_timed_operations(component: Component)
    ensures
        bench_plan(component) == timed_cases(
            component.spec_operations(),
            component.spec_operations().len() as int,
        ),
{
    let ops = component.spec_operations();
    reveal_with_fuel(timed_cases, 12);
    match component {
        Component::Field => {
            assert(ops.len() == 11);
            assert(timed_cases(ops, 11) =~= bench_plan(component));
        },
        Component::Points(curve) => {
            assert(ops.len() == 9);
            assert(timed_cases(ops, 9) =~= bench_plan(component));
        },
    }
}

/// The timed cases of a component, in order.
pub fn bench_plan_for(component: Component) -> (cases: Vec<BenchCase>)
    ensures
        cases@ == bench_plan(component),
{
    let operations: Vec<Operation> = component.operations();
    let mut cases: Vec<BenchCase> = Vec::new();
    let mut i: usize = 0;
    while i < operations.len()
        invariant
            i <= operations.len(),
            operations@ == component.spec_operations(),
            cases@ == timed_cases(operations@, i as int),
        decreases operations.len() - i,
    {
        let operation: Operation = operations[i];
        match operation.batch_size() {
            Some(batch_size) => {
                cases.push(BenchCase { operation, batch_size });
            },
            None => {},
        }
        i += 1;
    }
    proof {
        lemma_bench_plan_is_timed_operations(component);
    }
    cases
}

/// The timed field operations: add, multiply, subtract, square, double,
/// invert, square root of the square, power, negate.
pub fn bench_field_ops() -> (cases: Vec<BenchCase>)
    ensures
        cases@ == bench_plan(Component::Field),
{
    bench_plan_for(Component::Field)
}

/// The timed operations on Helios points: add, multiply by the scalar,
/// multiply the generator, subtract, double.
pub fn bench_helios_point_ops() -> (cases: Vec<BenchCase>)
    ensures
        cases@ == bench_plan(Component::Points(Curve::Helios)),
{
    bench_plan_for(Component::Points(Curve::Helios))
}

/// The timed operations on Selene points: add, multiply by the scalar,
/// multiply the generator, subtract, double.
pub fn bench_selene_point_ops() -> (cases: Vec<BenchCase>)
    ensures
        cases@ == bench_plan(Component::Points(Curve::Selene)),
{
    bench_plan_for(Component::Points(Curve::Selene))
}

/// The name under which one side of a case is measured, such as `field-inv`
/// for the candidate and `field-inv-ref` for the reference.
pub fn bench_name(operation: Operation, side: Side) -> (name: String)
    ensures
        name@ == spec_bench_name(operation, side),
{
    let mut name: String = operation.name();
    match side {
        Side::Candidate => {},
        Side::Reference => {
            name.append("-ref");
        },
    }
    name
}

/// The measurements of a component in the order in which they are made:
/// every timed operation on the candidate and directly after it on the
/// reference, under the names of the two sides and in batches of the same
/// size.
pub fn measurements_for(component: Component) -> (list: Vec<Measurement>)
    ensures
        measurement_views(list@) == measurements(component),
        list@.len() == 2 * bench_plan(component).len(),
{
    let cases: Vec<BenchCase> = bench_plan_for(component);
    let mut list: Vec<Measurement> = Vec::new();
    let mut i: usize = 0;
    while i < cases.len()
        invariant
            i <= cases.len(),
            cases@ == bench_plan(component),
            list.len() == 2 * i,
            forall|j: int| 0 <= j < 2 * i ==> (#[trigger] list[j])@ == measurements(component)[j],
        decreases cases.len() - i,
    {
        let case: BenchCase = cases[i];
        list.push(
            Measurement {
                name: bench_name(case.operation, Side::Candidate),
                operation: case.operation,
                side: Side::Candidate,
                batch_size: case.batch_size,
            },
        );
        list.push(
            Measurement {
                name: bench_name(case.operation, Side::Reference),
                operation: case.operation,
                side: Side::Reference,
                batch_size: case.batch_size,
            },
        );
        i += 1;
    }
    assert(measurement_views(list@) =~= measurements(component));
    list
}

/// The whole benchmark, component by component: the field, the points of
/// Helios, the points of Selene. For each group one set of samples is paired
/// and every measurement of the group is then made on those operands.
pub fn bench_helioselene() -> (groups: Vec<BenchGroup>)
    ensures
        group_views(groups@) == bench_groups(),
{
    let all: Vec<Component> = Component::all();
    let mut groups: Vec<BenchGroup> = Vec::new();
    let mut i: usize = 0;
    while i < all.len()
        invariant
            i <= all.len(),
            all@ == components(),
            groups.len() == i,
            forall|j: int| 0 <= j < i ==> (#[trigger] groups[j])@ == bench_groups()[j],
        decreases all.len() - i,
    {
        let component: Component = all[i];
        groups.push(
            BenchGroup {
                component,
                name: String::from_str(component.group_name()),
                samples: samples_for(component),
                measurements: measurements_for(component),
            },
        );
        i += 1;
    }
    assert(group_views(groups@) =~= bench_groups());
    groups
}

/// Applies an operation `n_iters` times and discards what it produces, as
/// one timed measurement does. `op` is handed the number of the application,
/// from zero on, applies the operation once and says whether it succeeded.
/// The batch stops at the first application that did not: a benchmark of a
/// failing operation measures nothing.
///
/// A batch that ran to its end has seen every application from the first to
/// the last succeed. One that did not names the application that failed,
/// and has seen every one before it succeed.
pub fn repeat_op<F: Fn(u32) -> bool>(op: F, n_iters: u32) -> (batch: Result<
    (),
    BenchmarkOperationFailure,
>)
    requires
        forall|i: u32| i < n_iters ==> call_requires(op, (i,)),
    ensures
        batch is Ok ==> forall|i: u32| i < n_iters ==> #[trigger] call_ensures(op, (i,), true),
        batch matches Err(failure) ==> failure.completed < n_iters && call_ensures(
            op,
            (failure.completed,),
            false,
        ) && forall|i: u32| i < failure.completed ==> #[trigger] call_ensures(op, (i,), true),
{
    let mut completed: u32 = 0;
    while completed < n_iters
        invariant
            completed <= n_iters,
            forall|i: u32| i < n_iters ==> call_requires(op, (i,)),
            forall|i: u32| i < completed ==> #[trigger] call_ensures(op, (i,), true),
        decreases n_iters - completed,
    {
        let succeeded: bool = op(completed);
        if !succeeded {
            return Err(BenchmarkOperationFailure { completed });
        }
        completed += 1;
    }
    Ok(())
}

/// Matched configuration. The measurements of a component come in pairs, one
/// pair per case of the plan and in the order of the plan: the candidate
/// first, the reference directly after it, both on the operation of the case
/// and in batches of its size, the candidate under the name of the operation
/// and the reference under that name with `-ref` behind it.
pub proof fn lemma_measurements_are_matched(component: Component, i: int)
    requires
        0 <= i < bench_plan(component).len(),
    ensures
        measurements(component).len() == 2 * bench_plan(component).len(),
        measurements(component)[2 * i].side == Side::Candidate,
        measurements(component)[2 * i + 1].side == Side::Reference,
        measurements(component)[2 * i].operation == bench_plan(component)[i].operation,
        measurements(component)[2 * i + 1].operation == bench_plan(component)[i].operation,
        measurements(component)[2 * i].batch_size == bench_plan(component)[i].batch_size,
        measurements(component)[2 * i + 1].batch_size == bench_plan(component)[i].batch_size,
        measurements(component)[2 * i].name == bench_plan(component)[i].operation.spec_name(),
        measurements(component)[2 * i + 1].name == bench_plan(component)[i].operation.spec_name()
            + "-ref"@,
{
}

/// The range in which the batch size of a timed operation lies: hundreds of
/// thousands to millions for a cheap field operation (addition, subtraction,
/// doubling, negation), hundreds of thousands for a multiplication or a
/// squaring, hundreds to thousands for an inversion, a square root or a
/// power; ten thousand for the group law and tens for a scalar multiplication
/// of a point. No operation that is not timed is calibrated.
pub open spec fn calibrated(operation: Operation, batch_size: u32) -> bool {
    match operation {
        Operation::Field(FieldOp::Add)
        | Operation::Field(FieldOp::Sub)
        | Operation::Field(FieldOp::Double)
        | Operation::Field(FieldOp::Neg) => 100000 <= batch_size < 10000000,
        Operation::Field(FieldOp::Mul) | Operation::Field(FieldOp::Square) => 100000 <= batch_size
            < 1000000,
        Operation::Field(FieldOp::Invert)
        | Operation::Field(FieldOp::SqrtOfSquare)
        | Operation::Field(FieldOp::Pow) => 100 <= batch_size < 10000,
        Operation::Point(_, PointOp::Mul) | Operation::Point(_, PointOp::MulGenerator) => 10
            <= batch_size < 100,
        Operation::Point(_, PointOp::Add)
        | Operation::Point(_, PointOp::Sub)
        | Operation::Point(_, PointOp::Double) => batch_size == 10000,
        _ => false,
    }
}

/// Calibration. Every case of the plan carries the batch size of its
/// operation, and that size lies in the range that the cost of the operation
/// asks for.
pub proof fn lemma_batch_sizes_follow_cost(component: Component, i: int)
    requires
        0 <= i < bench_plan(component).len(),
    ensures
        bench_plan(component)[i].operation.spec_batch_size() == Some(
            bench_plan(component)[i].batch_size,
        ),
        calibrated(bench_plan(component)[i].operation, bench_plan(component)[i].batch_size),
{
}

} // verus!
