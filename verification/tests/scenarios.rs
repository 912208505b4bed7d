use dalek_ff_group::{EdwardsPoint, FieldElement, Scalar};
use group::ff::{Field, PrimeField};
use group::{Group, GroupEncoding};
use helioselene_contest::divergence::{Divergence, DivergenceKind, Observed};
use helioselene_contest::field::{test_field_ops, FieldOutcomes};
use helioselene_contest::operation::{Curve, Element, FieldOp, Operation, PointOp};
use helioselene_contest::oracle::judge_observed;
use helioselene_contest::point::{test_point_ops, PointOutcomes};
use helioselene_contest::sample::{pair_sample, PairedSample};
use rand_core::OsRng;

fn encode(element: &FieldElement) -> Vec<u8> {
    element.to_repr().to_vec()
}

fn decode(bytes: &[u8]) -> Option<FieldElement> {
    let mut repr = [0u8; 32];
    if bytes.len() != repr.len() {
        return None;
    }
    repr.copy_from_slice(bytes);
    Option::from(FieldElement::from_repr(repr))
}

fn compress(point: &EdwardsPoint) -> Vec<u8> {
    point.to_bytes().to_vec()
}

fn decompress(bytes: &[u8]) -> Option<EdwardsPoint> {
    let mut repr = [0u8; 32];
    if bytes.len() != repr.len() {
        return None;
    }
    repr.copy_from_slice(bytes);
    Option::from(EdwardsPoint::from_bytes(&repr))
}

fn pair_field_element(element: &FieldElement) -> Result<PairedSample, Divergence> {
    let reference = encode(element);
    let candidate = decode(&reference).map(|read| encode(&read));
    pair_sample(Element::Scalar(Curve::Selene), reference, candidate)
}

fn pair_scalar(scalar: &Scalar) -> Result<PairedSample, Divergence> {
    let reference = scalar.to_repr().to_vec();
    let candidate =
        Option::<Scalar>::from(Scalar::from_repr(scalar.to_repr())).map(|read| read.to_repr().to_vec());
    pair_sample(Element::Scalar(Curve::Helios), reference, candidate)
}

fn pair_point(point: &EdwardsPoint) -> Result<PairedSample, Divergence> {
    let reference = compress(point);
    let candidate = decompress(&reference).map(|read| compress(&read));
    pair_sample(Element::Point(Curve::Helios), reference, candidate)
}

fn field_outcomes(a: FieldElement, b: FieldElement) -> FieldOutcomes {
    FieldOutcomes {
        add: encode(&(a + b)),
        mul: encode(&(a * b)),
        sub: encode(&(a - b)),
        square: encode(&a.square()),
        double: encode(&a.double()),
        invert: Option::<FieldElement>::from(a.invert()).map(|inverse| encode(&inverse)),
        sqrt: Option::<FieldElement>::from(a.square().sqrt()).map(|root| encode(&root)),
        pow: encode(&a.pow(b)),
        neg: encode(&-a),
        is_odd: bool::from(a.is_odd()),
        is_even: bool::from(a.is_even()),
    }
}

fn point_outcomes(a: EdwardsPoint, b: EdwardsPoint, s: Scalar) -> PointOutcomes {
    let encoding = compress(&a);
    PointOutcomes {
        decompress: decompress(&encoding).map(|decoded| decoded == a),
        encoding,
        add: compress(&(a + b)),
        mul: compress(&(a * s)),
        generator: compress(&EdwardsPoint::generator()),
        mul_generator: compress(&(EdwardsPoint::generator() * s)),
        sub: compress(&(a - b)),
        double: compress(&a.double()),
        neg: compress(&-a),
    }
}

#[test]
fn scenario_inversion_of_a_drawn_field_element() {
    let a = FieldElement::random(&mut OsRng);
    let sample = pair_field_element(&a).unwrap();
    assert_eq!(sample.encoding(), &encode(&a));

    let candidate = decode(sample.encoding()).unwrap();
    let inverse_reference = Option::<FieldElement>::from(a.invert()).map(|x| encode(&x));
    let inverse_candidate = Option::<FieldElement>::from(candidate.invert()).map(|x| encode(&x));
    assert_eq!(
        judge_observed(
            Operation::Field(FieldOp::Invert),
            &Observed::of_partial(&inverse_candidate),
            &Observed::of_partial(&inverse_reference),
        ),
        None
    );

    let twice = a.invert().unwrap().invert().unwrap();
    assert_eq!(encode(&twice), encode(&a));
    assert_eq!(pair_sample(sample.element(), encode(&a), Some(encode(&twice))), Ok(sample));
}

#[test]
fn scenario_doubling_of_a_drawn_point() {
    let a = EdwardsPoint::random(&mut OsRng);
    let encoding = compress(&a);
    assert_eq!(encoding.len(), 32);
    assert_eq!(decompress(&encoding), Some(a));

    let doubled = Observed::Encoding(compress(&a.double()));
    let added = Observed::Encoding(compress(&(a + a)));
    let op = Operation::Point(Curve::Helios, PointOp::Double);
    assert_eq!(judge_observed(op, &doubled, &added), None);
    assert_eq!(judge_observed(op, &added, &doubled), None);

    let b = EdwardsPoint::random(&mut OsRng);
    let s = Scalar::random(&mut OsRng);
    let reference = point_outcomes(a, b, s);
    let mut candidate = point_outcomes(a, b, s);
    candidate.double = compress(&(a + a));
    let (a, b, s) = (pair_point(&a).unwrap(), pair_point(&b).unwrap(), pair_scalar(&s).unwrap());
    assert_eq!(test_point_ops(Curve::Helios, &a, &b, &s, &candidate, &reference), Ok(()));
}

#[test]
fn an_implementation_agrees_with_itself_on_field_operations() {
    for _ in 0..10 {
        let a = FieldElement::random(&mut OsRng);
        let b = FieldElement::random(&mut OsRng);
        let (paired_a, paired_b) = (pair_field_element(&a).unwrap(), pair_field_element(&b).unwrap());
        let candidate = field_outcomes(decode(paired_a.encoding()).unwrap(), decode(paired_b.encoding()).unwrap());
        let reference = field_outcomes(a, b);
        assert_eq!(test_field_ops(&paired_a, &paired_b, &candidate, &reference), Ok(()));
    }
}

#[test]
fn an_implementation_agrees_with_itself_on_point_operations() {
    for _ in 0..5 {
        let a = EdwardsPoint::random(&mut OsRng);
        let b = EdwardsPoint::random(&mut OsRng);
        let s = Scalar::random(&mut OsRng);
        let (paired_a, paired_b, paired_s) =
            (pair_point(&a).unwrap(), pair_point(&b).unwrap(), pair_scalar(&s).unwrap());
        let candidate = point_outcomes(
            decompress(paired_a.encoding()).unwrap(),
            decompress(paired_b.encoding()).unwrap(),
            s,
        );
        let reference = point_outcomes(a, b, s);
        assert_eq!(
            test_point_ops(Curve::Helios, &paired_a, &paired_b, &paired_s, &candidate, &reference),
            Ok(())
        );
    }
}

#[test]
fn an_implementation_that_picks_the_other_root_is_caught() {
    let a = FieldElement::random(&mut OsRng);
    let b = FieldElement::random(&mut OsRng);
    let reference = field_outcomes(a, b);
    let mut candidate = field_outcomes(a, b);
    let root = a.square().sqrt().unwrap();
    candidate.sqrt = Some(encode(&-root));
    let (paired_a, paired_b) = (pair_field_element(&a).unwrap(), pair_field_element(&b).unwrap());
    let divergence = test_field_ops(&paired_a, &paired_b, &candidate, &reference).unwrap_err();
    assert_eq!(divergence.kind, DivergenceKind::EncodingMismatch);
    assert_eq!(divergence.operation, Operation::Field(FieldOp::SqrtOfSquare));
    assert_eq!(divergence.operands, vec![encode(&a), encode(&b)]);
    assert_eq!(divergence.candidate, Observed::Encoding(encode(&-root)));
    assert_eq!(divergence.reference, Observed::Encoding(encode(&root)));
}

#[test]
fn an_implementation_that_subtracts_the_wrong_way_is_caught() {
    let a = EdwardsPoint::random(&mut OsRng);
    let b = EdwardsPoint::random(&mut OsRng);
    let s = Scalar::random(&mut OsRng);
    let reference = point_outcomes(a, b, s);
    let mut candidate = point_outcomes(a, b, s);
    candidate.sub = compress(&(b - a));
    let (paired_a, paired_b, paired_s) =
        (pair_point(&a).unwrap(), pair_point(&b).unwrap(), pair_scalar(&s).unwrap());
    let divergence =
        test_point_ops(Curve::Helios, &paired_a, &paired_b, &paired_s, &candidate, &reference)
            .unwrap_err();
    assert_eq!(divergence.kind, DivergenceKind::EncodingMismatch);
    assert_eq!(divergence.operation, Operation::Point(Curve::Helios, PointOp::Sub));
    assert_eq!(divergence.candidate, Observed::Encoding(compress(&(b - a))));
    assert_eq!(divergence.reference, Observed::Encoding(compress(&(a - b))));
}

#[test]
fn bytes_that_are_no_field_element_are_a_decode_failure() {
    let bytes = vec![0xffu8; 32];
    let candidate = decode(&bytes).map(|read| encode(&read));
    assert_eq!(candidate, None);
    let divergence = pair_sample(Element::Scalar(Curve::Selene), bytes, candidate).unwrap_err();
    assert_eq!(divergence.kind, DivergenceKind::DecodeFailure);
}

#[test]
fn field_elements_and_points_survive_their_encoding() {
    for _ in 0..10 {
        let x = FieldElement::random(&mut OsRng);
        assert_eq!(decode(&encode(&x)), Some(x));
        assert_eq!(encode(&decode(&encode(&x)).unwrap()), encode(&x));
        let p = EdwardsPoint::random(&mut OsRng);
        assert_eq!(decompress(&compress(&p)), Some(p));
        assert_eq!(compress(&decompress(&compress(&p)).unwrap()), compress(&p));
        assert_eq!(
            judge_observed(
                Operation::Point(Curve::Helios, PointOp::Decompress),
                &Observed::of_decoding(decompress(&compress(&p)).map(|decoded| decoded == p)),
                &Observed::Flag(true),
            ),
            None
        );
    }
}

#[test]
fn the_root_of_a_square_squares_back() {
    for _ in 0..10 {
        let a = FieldElement::random(&mut OsRng);
        let square = a.square();
        let root = square.sqrt().unwrap();
        assert_eq!(encode(&root.square()), encode(&square));
        let outcomes = field_outcomes(a, a);
        assert_eq!(outcomes.sqrt, Some(encode(&root)));
        assert_eq!(outcomes.square, encode(&square));
    }
}

#[test]
fn a_field_element_is_odd_or_even_and_not_both() {
    let mut elements = vec![FieldElement::ONE, FieldElement::ONE.double(), -FieldElement::ONE];
    for _ in 0..10 {
        elements.push(FieldElement::random(&mut OsRng));
    }
    for x in elements {
        let outcomes = field_outcomes(x, x);
        assert_ne!(outcomes.is_odd, outcomes.is_even);
        assert_eq!(outcomes.is_odd, encode(&x)[0] & 1 == 1);
    }
}

#[test]
fn the_generator_times_a_scalar_is_the_scalar_multiple_of_the_generator() {
    let s = Scalar::random(&mut OsRng);
    let a = EdwardsPoint::random(&mut OsRng);
    let outcomes = point_outcomes(a, a, s);
    assert_eq!(outcomes.generator, compress(&EdwardsPoint::generator()));
    assert_eq!(outcomes.mul_generator, compress(&(EdwardsPoint::generator() * s)));
    let op = Operation::Point(Curve::Helios, PointOp::Generator);
    assert_eq!(
        judge_observed(
            op,
            &Observed::of_encoding(&outcomes.generator),
            &Observed::Encoding(compress(&EdwardsPoint::generator())),
        ),
        None
    );
    let mut other = point_outcomes(a, a, s);
    other.generator = compress(&EdwardsPoint::generator().double());
    let paired = (pair_point(&a).unwrap(), pair_scalar(&s).unwrap());
    let divergence =
        test_point_ops(Curve::Helios, &paired.0, &paired.0, &paired.1, &other, &outcomes)
            .unwrap_err();
    assert_eq!(divergence.operation, op);
}

#[test]
fn a_point_and_its_negation_add_up_to_the_identity() {
    let identity = compress(&EdwardsPoint::identity());
    for _ in 0..10 {
        let a = EdwardsPoint::random(&mut OsRng);
        let b = decompress(&compress(&a)).unwrap();
        let sum = Observed::Encoding(compress(&(a + (-a))));
        let other_sum = Observed::Encoding(compress(&(b + (-b))));
        assert_eq!(sum, Observed::Encoding(identity.clone()));
        assert_eq!(
            judge_observed(Operation::Point(Curve::Helios, PointOp::Add), &other_sum, &sum),
            None
        );
    }
}
