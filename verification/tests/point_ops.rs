use helioselene_contest::divergence::{Divergence, DivergenceKind, Observed};
use helioselene_contest::operation::{Curve, Element, Operation, PointOp};
use helioselene_contest::point::{
    read_point_ops, test_helios_point_ops, test_point_ops, test_selene_point_ops, PointOutcomes,
};
use helioselene_contest::sample::{pair_sample, PairedSample};

fn sample(element: Element, fill: u8) -> PairedSample {
    let bytes = vec![fill; 32];
    pair_sample(element, bytes.clone(), Some(bytes)).unwrap()
}

fn operands(curve: Curve) -> (PairedSample, PairedSample, PairedSample) {
    (
        sample(Element::Point(curve), 0xa),
        sample(Element::Point(curve), 0xb),
        sample(Element::Scalar(curve), 0xc),
    )
}

fn outcomes() -> PointOutcomes {
    PointOutcomes {
        encoding: vec![0xa; 32],
        decompress: Some(true),
        add: vec![1; 32],
        mul: vec![2; 32],
        generator: vec![3; 32],
        mul_generator: vec![4; 32],
        sub: vec![5; 32],
        double: vec![6; 32],
        neg: vec![7; 32],
    }
}

fn check(curve: Curve, candidate: &PointOutcomes, reference: &PointOutcomes) -> Result<(), Divergence> {
    let (a, b, s) = operands(curve);
    test_point_ops(curve, &a, &b, &s, candidate, reference)
}

fn expect(
    verdict: Result<(), Divergence>,
    kind: DivergenceKind,
    operation: Operation,
    candidate: Observed,
    reference: Observed,
) {
    assert_eq!(
        verdict,
        Err(Divergence {
            kind,
            operation,
            operands: vec![vec![0xa; 32], vec![0xb; 32], vec![0xc; 32]],
            candidate,
            reference,
        })
    );
}

#[test]
fn identical_point_outcomes_pass() {
    assert_eq!(check(Curve::Helios, &outcomes(), &outcomes()), Ok(()));
    assert_eq!(check(Curve::Selene, &outcomes(), &outcomes()), Ok(()));
}

#[test]
fn the_curve_comparators_name_their_curve() {
    let mut candidate = outcomes();
    candidate.add = vec![0; 32];
    let (a, b, s) = operands(Curve::Helios);
    expect(
        test_helios_point_ops(&a, &b, &s, &candidate, &outcomes()),
        DivergenceKind::EncodingMismatch,
        Operation::Point(Curve::Helios, PointOp::Add),
        Observed::Encoding(vec![0; 32]),
        Observed::Encoding(vec![1; 32]),
    );
    let (a, b, s) = operands(Curve::Selene);
    expect(
        test_selene_point_ops(&a, &b, &s, &candidate, &outcomes()),
        DivergenceKind::EncodingMismatch,
        Operation::Point(Curve::Selene, PointOp::Add),
        Observed::Encoding(vec![0; 32]),
        Observed::Encoding(vec![1; 32]),
    );
    assert_eq!(test_helios_point_ops(&a, &b, &s, &outcomes(), &outcomes()), Ok(()));
    assert_eq!(test_selene_point_ops(&a, &b, &s, &outcomes(), &outcomes()), Ok(()));
}

#[test]
fn every_point_encoding_is_compared() {
    let cases: Vec<(PointOp, fn(&mut PointOutcomes), u8)> = vec![
        (PointOp::Compress, |o| o.encoding[0] ^= 0x80, 0xa),
        (PointOp::Add, |o| o.add[0] ^= 0x80, 1),
        (PointOp::Mul, |o| o.mul[0] ^= 0x80, 2),
        (PointOp::Generator, |o| o.generator[0] ^= 0x80, 3),
        (PointOp::MulGenerator, |o| o.mul_generator[0] ^= 0x80, 4),
        (PointOp::Sub, |o| o.sub[0] ^= 0x80, 5),
        (PointOp::Double, |o| o.double[0] ^= 0x80, 6),
        (PointOp::Neg, |o| o.neg[0] ^= 0x80, 7),
    ];
    for (op, corrupt, fill) in cases {
        let mut candidate = outcomes();
        corrupt(&mut candidate);
        let mut corrupted = vec![fill; 32];
        corrupted[0] ^= 0x80;
        expect(
            check(Curve::Selene, &candidate, &outcomes()),
            DivergenceKind::EncodingMismatch,
            Operation::Point(Curve::Selene, op),
            Observed::Encoding(corrupted),
            Observed::Encoding(vec![fill; 32]),
        );
    }
}

#[test]
fn a_compressed_point_of_another_width_is_a_mismatch() {
    let mut both = outcomes();
    both.encoding = vec![0xa; 33];
    expect(
        check(Curve::Helios, &both, &both),
        DivergenceKind::EncodingMismatch,
        Operation::Point(Curve::Helios, PointOp::Compress),
        Observed::Encoding(vec![0xa; 33]),
        Observed::Encoding(vec![0xa; 33]),
    );
    let mut candidate = outcomes();
    candidate.encoding = vec![0xa; 31];
    expect(
        check(Curve::Helios, &candidate, &outcomes()),
        DivergenceKind::EncodingMismatch,
        Operation::Point(Curve::Helios, PointOp::Compress),
        Observed::Encoding(vec![0xa; 31]),
        Observed::Encoding(vec![0xa; 32]),
    );
}

#[test]
fn an_encoding_that_does_not_decode_is_a_decode_failure() {
    let mut candidate = outcomes();
    candidate.decompress = None;
    expect(
        check(Curve::Helios, &candidate, &outcomes()),
        DivergenceKind::DecodeFailure,
        Operation::Point(Curve::Helios, PointOp::Decompress),
        Observed::Failure,
        Observed::Flag(true),
    );
    let mut reference = outcomes();
    reference.decompress = None;
    expect(
        check(Curve::Helios, &outcomes(), &reference),
        DivergenceKind::DecodeFailure,
        Operation::Point(Curve::Helios, PointOp::Decompress),
        Observed::Flag(true),
        Observed::Failure,
    );
}

#[test]
fn a_point_that_does_not_survive_its_encoding_is_a_mismatch() {
    let mut candidate = outcomes();
    candidate.decompress = Some(false);
    expect(
        check(Curve::Selene, &candidate, &outcomes()),
        DivergenceKind::EncodingMismatch,
        Operation::Point(Curve::Selene, PointOp::Decompress),
        Observed::Flag(false),
        Observed::Flag(true),
    );
    let mut both = outcomes();
    both.decompress = Some(false);
    expect(
        check(Curve::Selene, &both, &both),
        DivergenceKind::EncodingMismatch,
        Operation::Point(Curve::Selene, PointOp::Decompress),
        Observed::Flag(false),
        Observed::Flag(false),
    );
}

#[test]
fn the_first_of_several_point_mismatches_is_reported() {
    let mut candidate = outcomes();
    candidate.neg = vec![0; 32];
    candidate.mul_generator = vec![0; 32];
    candidate.decompress = None;
    expect(
        check(Curve::Helios, &candidate, &outcomes()),
        DivergenceKind::DecodeFailure,
        Operation::Point(Curve::Helios, PointOp::Decompress),
        Observed::Failure,
        Observed::Flag(true),
    );
    let mut candidate = outcomes();
    candidate.neg = vec![0; 32];
    candidate.mul_generator = vec![0; 32];
    expect(
        check(Curve::Helios, &candidate, &outcomes()),
        DivergenceKind::EncodingMismatch,
        Operation::Point(Curve::Helios, PointOp::MulGenerator),
        Observed::Encoding(vec![0; 32]),
        Observed::Encoding(vec![4; 32]),
    );
}

#[test]
fn point_readings_follow_the_comparison_order() {
    let readings = read_point_ops(Curve::Selene, &outcomes(), &outcomes());
    let operations: Vec<Operation> = readings.iter().map(|reading| reading.operation).collect();
    let expected: Vec<Operation> =
        PointOp::all().into_iter().map(|op| Operation::Point(Curve::Selene, op)).collect();
    assert_eq!(operations, expected);
    assert_eq!(readings[1].candidate, Observed::Flag(true));
    assert_eq!(readings[4].reference, Observed::Encoding(vec![3; 32]));
    assert_eq!(outcomes().observed(PointOp::Double), Observed::Encoding(vec![6; 32]));
}
