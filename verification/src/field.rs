//! The field law comparator: every field operation, applied by both
//! implementations to one pair of sampled operands.

use crate::bytes::copy_bytes;
use crate::comparison::{
    compare, divergence_at, first_divergence, lemma_first_divergence, reading_views, Reading,
    ReadingView,
};
use crate::divergence::{
    observed_partial, operand_views, optional_bytes, report, Divergence, DivergenceView, Observed,
    ObservedView,
};
use crate::operation::{field_ops, lemma_field_ops_complete, FieldOp, Operation};
use crate::oracle::judge;
use crate::sample::PairedSample;
use vstd::prelude::*;

verus! {

/// What one implementation produced for the operands `a` and `b`: for each
/// operation the canonical encoding of the result, `None` where a partial
/// operation reported an error, and the answers of the two parity tests.
#[derive(Clone, Debug, PartialEq, Eq)]
pub struct FieldOutcomes {
    /// `a + b`
    pub add: Vec<u8>,
    /// `a * b`
    pub mul: Vec<u8>,
    /// `a - b`
    pub sub: Vec<u8>,
    /// `a * a`
    pub square: Vec<u8>,
    /// `a + a`
    pub double: Vec<u8>,
    /// The inverse of `a`, which exists unless `a` is zero.
    pub invert: Option<Vec<u8>>,
    /// The square root of `a * a` that the implementation chooses.
    pub sqrt: Option<Vec<u8>>,
    /// `a` raised to the integer that `b` represents.
    pub pow: Vec<u8>,
    /// `-a`
    pub neg: Vec<u8>,
    pub is_odd: bool,
    pub is_even: bool,
}

/// Mathematical form of [`FieldOutcomes`].
pub struct FieldOutcomesView {
    pub add: Seq<u8>,
    pub mul: Seq<u8>,
    pub sub: Seq<u8>,
    pub square: Seq<u8>,
    pub double: Seq<u8>,
    pub invert: Option<Seq<u8>>,
    pub sqrt: Option<Seq<u8>>,
    pub pow: Seq<u8>,
    pub neg: Seq<u8>,
    pub is_odd: bool,
    pub is_even: bool,
}

impl View for FieldOutcomes {
    type V = FieldOutcomesView;

    open spec fn view(&self) -> FieldOutcomesView {
        FieldOutcomesView {
            add: self.add@,
            mul: self.mul@,
            sub: self.sub@,
            square: self.square@,
            double: self.double@,
            invert: optional_bytes(self.invert),
            sqrt: optional_bytes(self.sqrt),
            pow: self.pow@,
            neg: self.neg@,
            is_odd: self.is_odd,
            is_even: self.is_even,
        }
    }
}

impl FieldOutcomesView {
    /// What the implementation was seen to produce for one operation.
    pub open spec fn observed(self, op: FieldOp) -> ObservedView {
        match op {
            FieldOp::Add => ObservedView::Encoding(self.add),
            FieldOp::Mul => ObservedView::Encoding(self.mul),
            FieldOp::Sub => ObservedView::Encoding(self.sub),
            FieldOp::Square => ObservedView::Encoding(self.square),
            FieldOp::Double => ObservedView::Encoding(self.double),
            FieldOp::Invert => observed_partial(self.invert),
            FieldOp::SqrtOfSquare => observed_partial(self.sqrt),
            FieldOp::Pow => ObservedView::Encoding(self.pow),
            FieldOp::Neg => ObservedView::Encoding(self.neg),
            FieldOp::IsOdd => ObservedView::Flag(self.is_odd),
            FieldOp::IsEven => ObservedView::Flag(self.is_even),
        }
    }

    /// Whether every partial operation produced a result.
    pub open spec fn complete(self) -> bool {
        self.invert is Some && self.sqrt is Some
    }
}

impl FieldOutcomes {
    /// What the implementation was seen to produce for one operation.
    pub fn observed(&self, op: FieldOp) -> (observed: Observed)
        ensures
            observed@ == self@.observed(op),
    {
        match op {
            FieldOp::Add => Observed::of_encoding(&self.add),
            FieldOp::Mul => Observed::of_encoding(&self.mul),
            FieldOp::Sub => Observed::of_encoding(&self.sub),
            FieldOp::Square => Observed::of_encoding(&self.square),
            FieldOp::Double => Observed::of_encoding(&self.double),
            FieldOp::Invert => Observed::of_partial(&self.invert),
            FieldOp::SqrtOfSquare => Observed::of_partial(&self.sqrt),
            FieldOp::Pow => Observed::of_encoding(&self.pow),
            FieldOp::Neg => Observed::of_encoding(&self.neg),
            FieldOp::IsOdd => Observed::Flag(self.is_odd),
            FieldOp::IsEven => Observed::Flag(self.is_even),
        }
    }
}

/// Both sides of one field operation.
pub open spec fn field_reading(
    op: FieldOp,
    candidate: FieldOutcomesView,
    reference: FieldOutcomesView,
) -> ReadingView {
    ReadingView {
        operation: Operation::Field(op),
        candidate: candidate.observed(op),
        reference: reference.observed(op),
    }
}

/// Both sides of every field operation, in comparison order.
pub open spec fn field_readings(
    candidate: FieldOutcomesView,
    reference: FieldOutcomesView,
) -> Seq<ReadingView> {
    Seq::new(field_ops().len(), |i: int| field_reading(field_ops()[i], candidate, reference))
}

/// What the field law comparator reports for the operands with encodings `a`
/// and `b`: the first operation, in comparison order, on which the
/// implementations differ.
pub open spec fn field_verdict(
    a: Seq<u8>,
    b: Seq<u8>,
    candidate: FieldOutcomesView,
    reference: FieldOutcomesView,
) -> Option<DivergenceView> {
    first_divergence(seq![a, b], field_readings(candidate, reference))
}

/// Whether `divergence` is what the comparator reports when `op` is the
/// first operation on which the sides disagree: every operation that is
/// compared before `op` agrees, `op` does not, and the report holds the kind
/// of the disagreement, the operation, both operands and what either side
/// produced.
pub open spec fn stops_at_field_op(
    divergence: DivergenceView,
    op: FieldOp,
    a: Seq<u8>,
    b: Seq<u8>,
    candidate: FieldOutcomesView,
    reference: FieldOutcomesView,
) -> bool {
    &&& forall|earlier: FieldOp|
        earlier.position() < op.position() ==> #[trigger] field_reading(
            earlier,
            candidate,
            reference,
        ).agrees()
    &&& judge(Operation::Field(op), candidate.observed(op), reference.observed(op)) == Some(
        divergence.kind,
    )
    &&& divergence.operation == Operation::Field(op)
    &&& divergence.operands == seq![a, b]
    &&& divergence.candidate == candidate.observed(op)
    &&& divergence.reference == reference.observed(op)
}

/// Lays both sides of every field operation out in comparison order.
pub fn read_field_ops(candidate: &FieldOutcomes, reference: &FieldOutcomes) -> (readings: Vec<
    Reading,
>)
    ensures
        reading_views(readings@) == field_readings(candidate@, reference@),
{
    let ops: Vec<FieldOp> = FieldOp::all();
    let mut readings: Vec<Reading> = Vec::new();
    let mut i: usize = 0;
    while i < ops.len()
        invariant
            i <= ops.len(),
            ops@ == field_ops(),
            readings.len() == i,
            forall|j: int|
                0 <= j < i ==> readings[j]@ == field_reading(
                    field_ops()[j],
                    candidate@,
                    reference@,
                ),
        decreases ops.len() - i,
    {
        let op: FieldOp = ops[i];
        readings.push(
            Reading {
                operation: Operation::Field(op),
                candidate: candidate.observed(op),
                reference: reference.observed(op),
            },
        );
        i += 1;
    }
    assert(reading_views(readings@) =~= field_readings(candidate@, reference@));
    readings
}

/// The field law comparator. `a` and `b` are the paired operands;
/// `candidate` and `reference` hold what either implementation produced from
/// them. The operations are compared in order: add, multiply, subtract,
/// square, double, invert, square root of the square, power, negate, is-odd,
/// is-even.
///
/// The comparison passes exactly if no partial operation failed on the
/// candidate's side and the candidate produced, operation by operation, what
/// the reference produced. Otherwise the first operation that differs is
/// reported, with both operands and what either side produced: as an
/// `OperationDivergence` where inversion or the square root failed on either
/// side, as an `EncodingMismatch` in every other case.
pub fn test_field_ops(
    a: &PairedSample,
    b: &PairedSample,
    candidate: &FieldOutcomes,
    reference: &FieldOutcomes,
) -> (verdict: Result<(), Divergence>)
    ensures
        report(verdict) == field_verdict(a@.encoding, b@.encoding, candidate@, reference@),
        verdict is Ok <==> candidate@.complete() && candidate@ == reference@,
        verdict matches Err(divergence) ==> exists|op: FieldOp| #[trigger]
            stops_at_field_op(divergence@, op, a@.encoding, b@.encoding, candidate@, reference@),
{
    let operands: Vec<Vec<u8>> = vec![copy_bytes(a.encoding()), copy_bytes(b.encoding())];
    let readings: Vec<Reading> = read_field_ops(candidate, reference);
    proof {
        assert(operand_views(operands@) =~= seq![a@.encoding, b@.encoding]);
        lemma_field_pass(a@.encoding, b@.encoding, candidate@, reference@);
        lemma_field_report(a@.encoding, b@.encoding, candidate@, reference@);
    }
    compare(&operands, &readings)
}

/// Cross-implementation equivalence. The field law comparator passes exactly
/// if every field operation has the same result on both sides and no partial
/// operation failed: what it certifies of the candidate is that, on these
/// operands, it cannot be told from the reference.
pub proof fn lemma_field_pass(
    a: Seq<u8>,
    b: Seq<u8>,
    candidate: FieldOutcomesView,
    reference: FieldOutcomesView,
)
    ensures
        field_verdict(a, b, candidate, reference) is None <==> candidate.complete() && candidate
            == reference,
        field_verdict(a, b, candidate, reference) is None <==> forall|op: FieldOp|
            (#[trigger] field_reading(op, candidate, reference)).agrees(),
{
    let readings = field_readings(candidate, reference);
    lemma_first_divergence(seq![a, b], readings);
    if field_verdict(a, b, candidate, reference) is None {
        assert(readings[0].agrees());
        assert(readings[1].agrees());
        assert(readings[2].agrees());
        assert(readings[3].agrees());
        assert(readings[4].agrees());
        assert(readings[5].agrees());
        assert(readings[6].agrees());
        assert(readings[7].agrees());
        assert(readings[8].agrees());
        assert(readings[9].agrees());
        assert(readings[10].agrees());
        assert forall|op: FieldOp| (#[trigger] field_reading(op, candidate, reference)).agrees() by {
            lemma_field_ops_complete(op);
            assert(readings[op.position()] == field_reading(op, candidate, reference));
        }
    }
    if candidate.complete() && candidate == reference {
        assert forall|i: int| 0 <= i < readings.len() implies (#[trigger] readings[i]).agrees() by {
            let op = field_ops()[i];
            assert(readings[i] == field_reading(op, candidate, reference));
        }
    }
    if forall|op: FieldOp| (#[trigger] field_reading(op, candidate, reference)).agrees() {
        assert forall|i: int| 0 <= i < readings.len() implies (#[trigger] readings[i]).agrees() by {
            let op = field_ops()[i];
            assert(field_reading(op, candidate, reference).agrees());
        }
    }
}

/// Fail-fast. Where the field law comparator does not pass, it reports one
/// operation on which the sides disagree, with the operands and with what
/// either side produced, and every operation that is compared before it
/// agrees.
pub proof fn lemma_field_report(
    a: Seq<u8>,
    b: Seq<u8>,
    candidate: FieldOutcomesView,
    reference: FieldOutcomesView,
)
    ensures
        field_verdict(a, b, candidate, reference) matches Some(divergence) ==> exists|
            op: FieldOp,
        | #[trigger] stops_at_field_op(divergence, op, a, b, candidate, reference),
{
    let readings = field_readings(candidate, reference);
    lemma_first_divergence(seq![a, b], readings);
    if let Some(divergence) = field_verdict(a, b, candidate, reference) {
        let i = choose|i: int|
            0 <= i < readings.len() && divergence_at(
                seq![a, b],
                #[trigger] readings[i],
            ) == Some(divergence) && forall|j: int|
                0 <= j < i ==> (#[trigger] readings[j]).agrees();
        let op = field_ops()[i];
        assert(readings[i] == field_reading(op, candidate, reference));
        assert(op.position() == i);
        assert forall|earlier: FieldOp| earlier.position() < op.position() implies (
        #[trigger] field_reading(earlier, candidate, reference)).agrees() by {
            assert(readings[earlier.position()] == field_reading(earlier, candidate, reference));
        }
        assert(stops_at_field_op(divergence, op, a, b, candidate, reference));
    }
}

/// What holds of the reference's results holds of the candidate's, once the
/// comparison has passed. So a property that the reference is known to have,
/// such as that the chosen root squares to the square it was taken of or that
/// an element is not both odd and even, is inherited by a candidate that
/// passes.
pub proof fn lemma_field_pass_transfers(
    a: Seq<u8>,
    b: Seq<u8>,
    candidate: FieldOutcomesView,
    reference: FieldOutcomesView,
    property: spec_fn(FieldOutcomesView) -> bool,
)
    requires
        field_verdict(a, b, candidate, reference) is None,
        property(reference),
    ensures
        property(candidate),
{
    lemma_field_pass(a, b, candidate, reference);
}

/// Root and parity agreement. A candidate that passes chose the same square
/// root as the reference and gave the same answers to both parity tests; if
/// exactly one of the two answers is `true` for the reference, so it is for
/// the candidate.
pub proof fn lemma_field_pass_root_and_parity(
    a: Seq<u8>,
    b: Seq<u8>,
    candidate: FieldOutcomesView,
    reference: FieldOutcomesView,
)
    requires
        field_verdict(a, b, candidate, reference) is None,
    ensures
        candidate.sqrt is Some,
        candidate.sqrt == reference.sqrt,
        candidate.square == reference.square,
        candidate.is_odd == reference.is_odd,
        candidate.is_even == reference.is_even,
        reference.is_odd != reference.is_even ==> candidate.is_odd != candidate.is_even,
{
    lemma_field_pass(a, b, candidate, reference);
}

} // verus!
