//! What is reported when the two implementations part ways.

use crate::bytes::copy_bytes;
use crate::operation::Operation;
use vstd::prelude::*;

verus! {

/// The ways in which a comparison can fail. Each of them ends the run.
#[derive(Clone, Copy, Debug, PartialEq, Eq, Structural)]
pub enum DivergenceKind {
    /// Both implementations produced a result for the same operation, and the
    /// results are not the same canonical encoding or the same answer.
    EncodingMismatch,
    /// An implementation rejected bytes that an encoder had produced.
    DecodeFailure,
    /// An implementation reported an error where a result was due, or the two
    /// reported results of different kinds.
    OperationDivergence,
}

/// What one implementation was seen to produce for one operation.
#[derive(Clone, Debug, PartialEq, Eq)]
pub enum Observed {
    /// The canonical encoding of the resulting element.
    Encoding(Vec<u8>),
    /// The answer of a predicate.
    Flag(bool),
    /// The operation reported an error.
    Failure,
}

/// Mathematical form of [`Observed`].
pub enum ObservedView {
    Encoding(Seq<u8>),
    Flag(bool),
    Failure,
}

impl View for Observed {
    type V = ObservedView;

    open spec fn view(&self) -> ObservedView {
        match self {
            Observed::Encoding(bytes) => ObservedView::Encoding(bytes@),
            Observed::Flag(flag) => ObservedView::Flag(*flag),
            Observed::Failure => ObservedView::Failure,
        }
    }
}

impl Observed {
    /// A copy that shares nothing with the original.
    pub fn duplicate(&self) -> (copy: Observed)
        ensures
            copy@ == self@,
    {
        match self {
            Observed::Encoding(bytes) => Observed::Encoding(copy_bytes(bytes)),
            Observed::Flag(flag) => Observed::Flag(*flag),
            Observed::Failure => Observed::Failure,
        }
    }

    /// What was seen of an operation that yields an encoding without fail.
    pub fn of_encoding(bytes: &Vec<u8>) -> (observed: Observed)
        ensures
            observed@ == ObservedView::Encoding(bytes@),
    {
        Observed::Encoding(copy_bytes(bytes))
    }

    /// What was seen of an operation that yields an encoding or fails.
    pub fn of_partial(bytes: &Option<Vec<u8>>) -> (observed: Observed)
        ensures
            observed@ == partial_view(*bytes),
    {
        match bytes {
            Some(bytes) => Observed::Encoding(copy_bytes(bytes)),
            None => Observed::Failure,
        }
    }

    /// What was seen of a decoding that yields an answer or fails.
    pub fn of_decoding(flag: Option<bool>) -> (observed: Observed)
        ensures
            observed@ == decoding_view(flag),
    {
        match flag {
            Some(flag) => Observed::Flag(flag),
            None => Observed::Failure,
        }
    }
}

/// An optional byte string as a value of its own.
pub open spec fn optional_bytes(bytes: Option<Vec<u8>>) -> Option<Seq<u8>> {
    match bytes {
        Some(bytes) => Some(bytes@),
        None => None,
    }
}

/// An optional encoding as an observation: absent means failed.
pub open spec fn observed_partial(bytes: Option<Seq<u8>>) -> ObservedView {
    match bytes {
        Some(bytes) => ObservedView::Encoding(bytes),
        None => ObservedView::Failure,
    }
}

/// An optional encoding, as the program holds it, as an observation.
pub open spec fn partial_view(bytes: Option<Vec<u8>>) -> ObservedView {
    observed_partial(optional_bytes(bytes))
}

/// An optional answer as an observation: absent means failed.
pub open spec fn decoding_view(flag: Option<bool>) -> ObservedView {
    match flag {
        Some(flag) => ObservedView::Flag(flag),
        None => ObservedView::Failure,
    }
}

/// The first point at which the candidate parted from the reference, with
/// what is needed to reproduce it: the operation, the encodings of the
/// operands and what either side produced.
#[derive(Clone, Debug, PartialEq, Eq)]
pub struct Divergence {
    pub kind: DivergenceKind,
    pub operation: Operation,
    pub operands: Vec<Vec<u8>>,
    pub candidate: Observed,
    pub reference: Observed,
}

/// Mathematical form of [`Divergence`].
pub struct DivergenceView {
    pub kind: DivergenceKind,
    pub operation: Operation,
    pub operands: Seq<Seq<u8>>,
    pub candidate: ObservedView,
    pub reference: ObservedView,
}

/// The byte strings that a list of operand encodings holds.
pub open spec fn operand_views(operands: Seq<Vec<u8>>) -> Seq<Seq<u8>> {
    Seq::new(operands.len(), |i: int| operands[i]@)
}

impl View for Divergence {
    type V = DivergenceView;

    open spec fn view(&self) -> DivergenceView {
        DivergenceView {
            kind: self.kind,
            operation: self.operation,
            operands: operand_views(self.operands@),
            candidate: self.candidate@,
            reference: self.reference@,
        }
    }
}

/// What a comparison reports: nothing where it passed, the divergence where
/// it did not.
pub open spec fn report(verdict: Result<(), Divergence>) -> Option<DivergenceView> {
    match verdict {
        Ok(_) => None,
        Err(divergence) => Some(divergence@),
    }
}

/// A fresh copy of a list of operand encodings.
pub fn copy_operands(operands: &Vec<Vec<u8>>) -> (copy: Vec<Vec<u8>>)
    ensures
        operand_views(copy@) == operand_views(operands@),
{
    let n: usize = operands.len();
    let mut copy: Vec<Vec<u8>> = Vec::new();
    let mut i: usize = 0;
    while i < n
        invariant
            i <= n,
            n == operands.len(),
            copy.len() == i,
            forall|j: int| 0 <= j < i ==> copy[j]@ == operands[j]@,
        decreases n - i,
    {
        copy.push(copy_bytes(&operands[i]));
        i += 1;
    }
    assert(operand_views(copy@) =~= operand_views(operands@));
    copy
}

} // verus!
