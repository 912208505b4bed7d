//! Paired samples: one value, drawn by the reference implementation and read
//! by the candidate from the reference's encoding of it.

use crate::bytes::{copy_bytes, same_bytes, ENCODING_LEN};
use crate::comparison::{divergence_at, ReadingView};
use crate::divergence::{partial_view, Divergence, DivergenceKind, Observed, ObservedView};
use crate::operation::{Component, Curve, Element, Operation};
use vstd::prelude::*;

verus! {

/// A value that both implementations hold and encode to the same 32 bytes.
/// One is only made by [`pair_sample`], after the two encodings were
/// compared.
#[derive(Debug, PartialEq, Eq)]
pub struct PairedSample {
    element: Element,
    encoding: Vec<u8>,
}

/// Mathematical form of [`PairedSample`].
pub struct PairedSampleView {
    pub element: Element,
    pub encoding: Seq<u8>,
}

impl View for PairedSample {
    type V = PairedSampleView;

    closed spec fn view(&self) -> PairedSampleView {
        PairedSampleView { element: self.element, encoding: self.encoding@ }
    }
}

impl Clone for PairedSample {
    fn clone(&self) -> (copy: PairedSample)
        ensures
            copy@ == self@,
    {
        proof {
            use_type_invariant(self);
        }
        PairedSample { element: self.element, encoding: copy_bytes(&self.encoding) }
    }
}

impl PairedSample {
    /// A paired sample holds a canonical encoding, which has the fixed width.
    #[verifier::type_invariant]
    closed spec fn canonical(&self) -> bool {
        self.encoding@.len() == ENCODING_LEN
    }

    /// The algebraic type of the sampled value.
    pub fn element(&self) -> (element: Element)
        ensures
            element == self@.element,
    {
        self.element
    }

    /// The canonical encoding that both implementations give the value.
    pub fn encoding(&self) -> (encoding: &Vec<u8>)
        ensures
            encoding@ == self@.encoding,
            encoding@.len() == ENCODING_LEN,
    {
        proof {
            use_type_invariant(self);
        }
        &self.encoding
    }
}

/// What was seen when the candidate read the reference's encoding of a fresh
/// sample: its own encoding of what it decoded, or a failure to decode.
pub open spec fn sample_reading(
    element: Element,
    reference: Seq<u8>,
    candidate: Option<Vec<u8>>,
) -> ReadingView {
    ReadingView {
        operation: Operation::Generate(element),
        candidate: partial_view(candidate),
        reference: ObservedView::Encoding(reference),
    }
}

/// Pairs a sample. `reference` is the reference implementation's encoding of
/// the value it drew. `candidate` is the candidate's encoding of what it
/// decoded from those bytes, or `None` where it could not decode them.
///
/// The sample is paired exactly if the candidate decoded the bytes and
/// encodes the value to the same bytes, and these are the 32 bytes of a
/// canonical encoding. A candidate that cannot decode gives a
/// `DecodeFailure`; one that encodes otherwise, or an encoding of another
/// width, an `EncodingMismatch`. Both name the reference's encoding as the
/// operand.
pub fn pair_sample(element: Element, reference: Vec<u8>, candidate: Option<Vec<u8>>) -> (paired:
    Result<PairedSample, Divergence>)
    ensures
        paired is Ok <==> (candidate matches Some(bytes) && bytes@ == reference@
            && reference@.len() == ENCODING_LEN),
        paired matches Ok(sample) ==> sample@ == (PairedSampleView {
            element,
            encoding: reference@,
        }),
        paired matches Ok(sample) ==> sample@.encoding.len() == ENCODING_LEN,
        paired matches Err(divergence) ==> Some(divergence@) == divergence_at(
            seq![reference@],
            sample_reading(element, reference@, candidate),
        ),
        paired matches Err(divergence) ==> divergence.kind == (if candidate is None {
            DivergenceKind::DecodeFailure
        } else {
            DivergenceKind::EncodingMismatch
        }),
{
    let operation: Operation = Operation::Generate(element);
    match candidate {
        None => {
            let operand: Vec<u8> = copy_bytes(&reference);
            let operands: Vec<Vec<u8>> = vec![operand];
            let divergence: Divergence = Divergence {
                kind: DivergenceKind::DecodeFailure,
                operation,
                operands,
                candidate: Observed::Failure,
                reference: Observed::Encoding(reference),
            };
            assert(divergence@.operands =~= seq![reference@]);
            Err(divergence)
        },
        Some(bytes) => {
            if same_bytes(&bytes, &reference) && reference.len() == ENCODING_LEN {
                Ok(PairedSample { element, encoding: reference })
            } else {
                let operand: Vec<u8> = copy_bytes(&reference);
                let operands: Vec<Vec<u8>> = vec![operand];
                let divergence: Divergence = Divergence {
                    kind: DivergenceKind::EncodingMismatch,
                    operation,
                    operands,
                    candidate: Observed::Encoding(bytes),
                    reference: Observed::Encoding(reference),
                };
                assert(divergence@.operands =~= seq![reference@]);
                Err(divergence)
            }
        },
    }
}

/// The samples that one comparison of a component reads, in the order in
/// which they are drawn: two field elements for the field; two points and a
/// scalar of the same curve for its points.
pub open spec fn sample_plan(component: Component) -> Seq<Element> {
    match component {
        Component::Field => seq![Element::Scalar(Curve::Helios), Element::Scalar(Curve::Helios)],
        Component::Points(curve) => seq![
            Element::Point(curve),
            Element::Point(curve),
            Element::Scalar(curve),
        ],
    }
}

/// The samples to draw before one comparison, or one benchmark, of a
/// component.
pub fn samples_for(component: Component) -> (plan: Vec<Element>)
    ensures
        plan@ == sample_plan(component),
{
    let plan: Vec<Element> = match component {
        Component::Field => vec![Element::Scalar(Curve::Helios), Element::Scalar(Curve::Helios)],
        Component::Points(curve) => vec![
            Element::Point(curve),
            Element::Point(curve),
            Element::Scalar(curve),
        ],
    };
    assert(plan@ =~= sample_plan(component));
    plan
}

} // verus!
