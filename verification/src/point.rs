//! The group law comparators: every point operation of one curve, applied by
//! both implementations to one set of sampled operands.

use crate::bytes::{copy_bytes, ENCODING_LEN};
use crate::comparison::{
    compare, divergence_at, first_divergence, lemma_first_divergence, reading_views, Reading,
    ReadingView,
};
use crate::divergence::{
    decoding_view, operand_views, report, Divergence, DivergenceView, Observed, ObservedView,
};
use crate::operation::{lemma_point_ops_complete, point_ops, Curve, Operation, PointOp};
use crate::oracle::judge;
use crate::sample::PairedSample;
use vstd::prelude::*;

verus! {

/// What one implementation produced for the points `a` and `b` and the
/// scalar `s`: for each operation the compressed encoding of the result, and
/// how decoding the encoding of `a` went.
#[derive(Clone, Debug, PartialEq, Eq)]
pub struct PointOutcomes {
    /// The compressed encoding of `a`.
    pub encoding: Vec<u8>,
    /// Whether the point decoded from `encoding` equals `a`; `None` where the
    /// implementation could not decode its own encoding.
    pub decompress: Option<bool>,
    /// `a + b`
    pub add: Vec<u8>,
    /// `a * s`
    pub mul: Vec<u8>,
    /// The generator.
    pub generator: Vec<u8>,
    /// The generator multiplied by `s`.
    pub mul_generator: Vec<u8>,
    /// `a - b`
    pub sub: Vec<u8>,
    /// `a + a`
    pub double: Vec<u8>,
    /// `-a`
    pub neg: Vec<u8>,
}

/// Mathematical form of [`PointOutcomes`].
pub struct PointOutcomesView {
    pub encoding: Seq<u8>,
    pub decompress: Option<bool>,
    pub add: Seq<u8>,
    pub mul: Seq<u8>,
    pub generator: Seq<u8>,
    pub mul_generator: Seq<u8>,
    pub sub: Seq<u8>,
    pub double: Seq<u8>,
    pub neg: Seq<u8>,
}

impl View for PointOutcomes {
    type V = PointOutcomesView;

    open spec fn view(&self) -> PointOutcomesView {
        PointOutcomesView {
            encoding: self.encoding@,
            decompress: self.decompress,
            add: self.add@,
            mul: self.mul@,
            generator: self.generator@,
            mul_generator: self.mul_generator@,
            sub: self.sub@,
            double: self.double@,
            neg: self.neg@,
        }
    }
}

impl PointOutcomesView {
    /// What the implementation was seen to produce for one operation.
    pub open spec fn observed(self, op: PointOp) -> ObservedView {
        match op {
            PointOp::Compress => ObservedView::Encoding(self.encoding),
            PointOp::Decompress => decoding_view(self.decompress),
            PointOp::Add => ObservedView::Encoding(self.add),
            PointOp::Mul => ObservedView::Encoding(self.mul),
            PointOp::Generator => ObservedView::Encoding(self.generator),
            PointOp::MulGenerator => ObservedView::Encoding(self.mul_generator),
            PointOp::Sub => ObservedView::Encoding(self.sub),
            PointOp::Double => ObservedView::Encoding(self.double),
            PointOp::Neg => ObservedView::Encoding(self.neg),
        }
    }

    /// Whether the point has the fixed-width encoding and survived it.
    pub open spec fn round_trips(self) -> bool {
        self.encoding.len() == ENCODING_LEN && self.decompress == Some(true)
    }
}

impl PointOutcomes {
    /// What the implementation was seen to produce for one operation.
    pub fn observed(&self, op: PointOp) -> (observed: Observed)
        ensures
            observed@ == self@.observed(op),
    {
        match op {
            PointOp::Compress => Observed::of_encoding(&self.encoding),
            PointOp::Decompress => Observed::of_decoding(self.decompress),
            PointOp::Add => Observed::of_encoding(&self.add),
            PointOp::Mul => Observed::of_encoding(&self.mul),
            PointOp::Generator => Observed::of_encoding(&self.generator),
            PointOp::MulGenerator => Observed::of_encoding(&self.mul_generator),
            PointOp::Sub => Observed::of_encoding(&self.sub),
            PointOp::Double => Observed::of_encoding(&self.double),
            PointOp::Neg => Observed::of_encoding(&self.neg),
        }
    }
}

/// Both sides of one point operation.
pub open spec fn point_reading(
    curve: Curve,
    op: PointOp,
    candidate: PointOutcomesView,
    reference: PointOutcomesView,
) -> ReadingView {
    ReadingView {
        operation: Operation::Point(curve, op),
        candidate: candidate.observed(op),
        reference: reference.observed(op),
    }
}

/// Both sides of every point operation, in comparison order.
pub open spec fn point_readings(
    curve: Curve,
    candidate: PointOutcomesView,
    reference: PointOutcomesView,
) -> Seq<ReadingView> {
    Seq::new(
        point_ops().len(),
        |i: int| point_reading(curve, point_ops()[i], candidate, reference),
    )
}

/// What the group law comparator of a curve reports for the points with
/// encodings `a` and `b` and the scalar with encoding `s`: the first
/// operation, in comparison order, on which the implementations differ.
pub open spec fn point_verdict(
    curve: Curve,
    a: Seq<u8>,
    b: Seq<u8>,
    s: Seq<u8>,
    candidate: PointOutcomesView,
    reference: PointOutcomesView,
) -> Option<DivergenceView> {
    first_divergence(seq![a, b, s], point_readings(curve, candidate, reference))
}

/// Whether `divergence` is what the comparator of `curve` reports when `op`
/// is the first operation on which the sides disagree: every operation that
/// is compared before `op` agrees, `op` does not, and the report holds the
/// kind of the disagreement, the operation, the three operands and what
/// either side produced.
pub open spec fn stops_at_point_op(
    divergence: DivergenceView,
    curve: Curve,
    op: PointOp,
    a: Seq<u8>,
    b: Seq<u8>,
    s: Seq<u8>,
    candidate: PointOutcomesView,
    reference: PointOutcomesView,
) -> bool {
    &&& forall|earlier: PointOp|
        earlier.position() < op.position() ==> #[trigger] point_reading(
            curve,
            earlier,
            candidate,
            reference,
        ).agrees()
    &&& judge(Operation::Point(curve, op), candidate.observed(op), reference.observed(op))
        == Some(divergence.kind)
    &&& divergence.operation == Operation::Point(curve, op)
    &&& divergence.operands == seq![a, b, s]
    &&& divergence.candidate == candidate.observed(op)
    &&& divergence.reference == reference.observed(op)
}

/// Lays both sides of every point operation out in comparison order.
pub fn read_point_ops(curve: Curve, candidate: &PointOutcomes, reference: &PointOutcomes) -> (readings:
    Vec<Reading>)
    ensures
        reading_views(readings@) == point_readings(curve, candidate@, reference@),
{
    let ops: Vec<PointOp> = PointOp::all();
    let mut readings: Vec<Reading> = Vec::new();
    let mut i: usize = 0;
    while i < ops.len()
        invariant
            i <= ops.len(),
            ops@ == point_ops(),
            readings.len() == i,
            forall|j: int|
                0 <= j < i ==> readings[j]@ == point_reading(
                    curve,
                    point_ops()[j],
                    candidate@,
                    reference@,
                ),
        decreases ops.len() - i,
    {
        let op: PointOp = ops[i];
        readings.push(
            Reading {
                operation: Operation::Point(curve, op),
                candidate: candidate.observed(op),
                reference: reference.observed(op),
            },
        );
        i += 1;
    }
    assert(reading_views(readings@) =~= point_readings(curve, candidate@, reference@));
    readings
}

/// The group law comparator of one curve. `a` and `b` are the paired points
/// and `s` the paired scalar; `candidate` and `reference` hold what either
/// implementation produced from them. The operations are compared in order:
/// compress, decompress, add, multiply by the scalar, the generator, the
/// generator multiplied by the scalar, subtract, double, negate.
///
/// The comparison passes exactly if the candidate's encoding of `a` has 32
/// bytes, the point decoded from it equals `a`, and the candidate produced,
/// operation by operation, what the reference produced. Otherwise the first
/// operation that differs is reported, with the three operands and what
/// either side produced: as a `DecodeFailure` where an implementation could
/// not decode its own encoding, as an `EncodingMismatch` in every other case.
pub fn test_point_ops(
    curve: Curve,
    a: &PairedSample,
    b: &PairedSample,
    s: &PairedSample,
    candidate: &PointOutcomes,
    reference: &PointOutcomes,
) -> (verdict: Result<(), Divergence>)
    ensures
        report(verdict) == point_verdict(
            curve,
            a@.encoding,
            b@.encoding,
            s@.encoding,
            candidate@,
            reference@,
        ),
        verdict is Ok <==> candidate@.round_trips() && candidate@ == reference@,
        verdict matches Err(divergence) ==> exists|op: PointOp| #[trigger]
            stops_at_point_op(
                divergence@,
                curve,
                op,
                a@.encoding,
                b@.encoding,
                s@.encoding,
                candidate@,
                reference@,
            ),
{
    let operands: Vec<Vec<u8>> = vec![
        copy_bytes(a.encoding()),
        copy_bytes(b.encoding()),
        copy_bytes(s.encoding()),
    ];
    let readings: Vec<Reading> = read_point_ops(curve, candidate, reference);
    proof {
        assert(operand_views(operands@) =~= seq![a@.encoding, b@.encoding, s@.encoding]);
        lemma_point_pass(curve, a@.encoding, b@.encoding, s@.encoding, candidate@, reference@);
        lemma_point_report(curve, a@.encoding, b@.encoding, s@.encoding, candidate@, reference@);
    }
    compare(&operands, &readings)
}

/// The group law comparator of Helios.
pub fn test_helios_point_ops(
    a: &PairedSample,
    b: &PairedSample,
    s: &PairedSample,
    candidate: &PointOutcomes,
    reference: &PointOutcomes,
) -> (verdict: Result<(), Divergence>)
    ensures
        report(verdict) == point_verdict(
            Curve::Helios,
            a@.encoding,
            b@.encoding,
            s@.encoding,
            candidate@,
            reference@,
        ),
        verdict is Ok <==> candidate@.round_trips() && candidate@ == reference@,
{
    test_point_ops(Curve::Helios, a, b, s, candidate, reference)
}

/// The group law comparator of Selene.
pub fn test_selene_point_ops(
    a: &PairedSample,
    b: &PairedSample,
    s: &PairedSample,
    candidate: &PointOutcomes,
    reference: &PointOutcomes,
) -> (verdict: Result<(), Divergence>)
    ensures
        report(verdict) == point_verdict(
            Curve::Selene,
            a@.encoding,
            b@.encoding,
            s@.encoding,
            candidate@,
            reference@,
        ),
        verdict is Ok <==> candidate@.round_trips() && candidate@ == reference@,
{
    test_point_ops(Curve::Selene, a, b, s, candidate, reference)
}

/// Cross-implementation equivalence and round trip. A group law comparator
/// passes exactly if the point survived its fixed-width encoding and every
/// point operation has the same result on both sides.
pub proof fn lemma_point_pass(
    curve: Curve,
    a: Seq<u8>,
    b: Seq<u8>,
    s: Seq<u8>,
    candidate: PointOutcomesView,
    reference: PointOutcomesView,
)
    ensures
        point_verdict(curve, a, b, s, candidate, reference) is None <==> candidate.round_trips()
            && candidate == reference,
        point_verdict(curve, a, b, s, candidate, reference) is None <==> forall|op: PointOp|
            (#[trigger] point_reading(curve, op, candidate, reference)).agrees(),
{
    let readings = point_readings(curve, candidate, reference);
    lemma_first_divergence(seq![a, b, s], readings);
    if point_verdict(curve, a, b, s, candidate, reference) is None {
        assert(readings[0].agrees());
        assert(readings[1].agrees());
        assert(readings[2].agrees());
        assert(readings[3].agrees());
        assert(readings[4].agrees());
        assert(readings[5].agrees());
        assert(readings[6].agrees());
        assert(readings[7].agrees());
        assert(readings[8].agrees());
        assert forall|op: PointOp| (#[trigger] point_reading(
            curve,
            op,
            candidate,
            reference,
        )).agrees() by {
            lemma_point_ops_complete(op);
            assert(readings[op.position()] == point_reading(curve, op, candidate, reference));
        }
    }
    if candidate.round_trips() && candidate == reference {
        assert forall|i: int| 0 <= i < readings.len() implies (#[trigger] readings[i]).agrees() by {
            let op = point_ops()[i];
            assert(readings[i] == point_reading(curve, op, candidate, reference));
        }
    }
    if forall|op: PointOp| (#[trigger] point_reading(curve, op, candidate, reference)).agrees() {
        assert forall|i: int| 0 <= i < readings.len() implies (#[trigger] readings[i]).agrees() by {
            let op = point_ops()[i];
            assert(point_reading(curve, op, candidate, reference).agrees());
        }
    }
}

/// Fail-fast. Where a group law comparator does not pass, it reports one
/// operation on which the sides disagree, with the operands and with what
/// either side produced, and every operation that is compared before it
/// agrees.
pub proof fn lemma_point_report(
    curve: Curve,
    a: Seq<u8>,
    b: Seq<u8>,
    s: Seq<u8>,
    candidate: PointOutcomesView,
    reference: PointOutcomesView,
)
    ensures
        point_verdict(curve, a, b, s, candidate, reference) matches Some(divergence) ==> exists|
            op: PointOp,
        | #[trigger] stops_at_point_op(divergence, curve, op, a, b, s, candidate, reference),
{
    let readings = point_readings(curve, candidate, reference);
    lemma_first_divergence(seq![a, b, s], readings);
    if let Some(divergence) = point_verdict(curve, a, b, s, candidate, reference) {
        let i = choose|i: int|
            0 <= i < readings.len() && divergence_at(seq![a, b, s], #[trigger] readings[i])
                == Some(divergence) && forall|j: int|
                0 <= j < i ==> (#[trigger] readings[j]).agrees();
        let op = point_ops()[i];
        assert(readings[i] == point_reading(curve, op, candidate, reference));
        assert(op.position() == i);
        assert forall|earlier: PointOp| earlier.position() < op.position() implies (
        #[trigger] point_reading(curve, earlier, candidate, reference)).agrees() by {
            assert(readings[earlier.position()] == point_reading(
                curve,
                earlier,
                candidate,
                reference,
            ));
        }
        assert(stops_at_point_op(divergence, curve, op, a, b, s, candidate, reference));
    }
}

/// Round trip. A pass certifies of both implementations that decoding the
/// compressed encoding of the point gave the point back, and that the
/// encoding has the fixed width.
pub proof fn lemma_point_pass_round_trips(
    curve: Curve,
    a: Seq<u8>,
    b: Seq<u8>,
    s: Seq<u8>,
    candidate: PointOutcomesView,
    reference: PointOutcomesView,
)
    requires
        point_verdict(curve, a, b, s, candidate, reference) is None,
    ensures
        candidate.round_trips(),
        reference.round_trips(),
        candidate.encoding == reference.encoding,
{
    lemma_point_pass(curve, a, b, s, candidate, reference);
}

/// Generator agreement. A pass certifies that both implementations encode
/// their generator to the same bytes, and its multiple by the sampled scalar
/// too.
pub proof fn lemma_point_pass_generators_agree(
    curve: Curve,
    a: Seq<u8>,
    b: Seq<u8>,
    s: Seq<u8>,
    candidate: PointOutcomesView,
    reference: PointOutcomesView,
)
    requires
        point_verdict(curve, a, b, s, candidate, reference) is None,
    ensures
        candidate.generator == reference.generator,
        candidate.mul_generator == reference.mul_generator,
{
    lemma_point_pass(curve, a, b, s, candidate, reference);
}

/// What holds of the reference's results holds of the candidate's, once the
/// comparison has passed. So a law of the group that the reference is known
/// to obey on these operands, such as that doubling a point is adding it to
/// itself, is inherited by a candidate that passes.
pub proof fn lemma_point_pass_transfers(
    curve: Curve,
    a: Seq<u8>,
    b: Seq<u8>,
    s: Seq<u8>,
    candidate: PointOutcomesView,
    reference: PointOutcomesView,
    property: spec_fn(PointOutcomesView) -> bool,
)
    requires
        point_verdict(curve, a, b, s, candidate, reference) is None,
        property(reference),
    ensures
        property(candidate),
{
    lemma_point_pass(curve, a, b, s, candidate, reference);
}

} // verus!
