//! The equivalence oracle: given what both implementations produced for one
//! operation, whether they agree, and if not, in which way they differ.

use crate::bytes::{same_bytes, ENCODING_LEN};
use crate::divergence::{DivergenceKind, Observed, ObservedView};
use crate::operation::{FieldOp, Operation, PointOp};
use vstd::prelude::*;

verus! {

impl Operation {
    /// Whether the operation answers with a boolean rather than an element.
    pub open spec fn yields_flag(self) -> bool {
        match self {
            Operation::Field(FieldOp::IsOdd) => true,
            Operation::Field(FieldOp::IsEven) => true,
            Operation::Point(_, PointOp::Decompress) => true,
            _ => false,
        }
    }

    /// Whether the operation's answer says that a value survived its own
    /// encoding, which either implementation owes on its own.
    pub open spec fn round_trips(self) -> bool {
        match self {
            Operation::Point(_, PointOp::Decompress) => true,
            _ => false,
        }
    }

    /// Whether the encodings that the operation yields must have the fixed
    /// width: those of a fresh sample and of a compressed point, which are
    /// where an encoding enters the comparison.
    pub open spec fn fixes_width(self) -> bool {
        match self {
            Operation::Generate(_) => true,
            Operation::Point(_, PointOp::Compress) => true,
            _ => false,
        }
    }

    /// Whether a failure of the operation is a failure to decode.
    pub open spec fn decodes(self) -> bool {
        match self {
            Operation::Generate(_) => true,
            Operation::Point(_, PointOp::Decompress) => true,
            _ => false,
        }
    }

    /// The kind under which a failure of the operation is reported.
    pub open spec fn failure_kind(self) -> DivergenceKind {
        if self.decodes() {
            DivergenceKind::DecodeFailure
        } else {
            DivergenceKind::OperationDivergence
        }
    }
}

/// The oracle. Two observations of one operation agree when neither is a
/// failure, both are of the kind that the operation yields, and
/// - encodings are the same bytes, of the fixed width where the operation
///   fixes it;
/// - answers of a predicate are the same;
/// - answers of a round trip are both `true`.
/// Otherwise the result is the kind of the divergence. A failure on either
/// side diverges even where both fail: the operands are chosen so that the
/// operation succeeds.
pub open spec fn judge(
    operation: Operation,
    candidate: ObservedView,
    reference: ObservedView,
) -> Option<DivergenceKind> {
    match (candidate, reference) {
        (ObservedView::Failure, _) => Some(operation.failure_kind()),
        (_, ObservedView::Failure) => Some(operation.failure_kind()),
        (ObservedView::Encoding(c), ObservedView::Encoding(r)) => {
            if operation.yields_flag() {
                Some(DivergenceKind::OperationDivergence)
            } else if c == r && (operation.fixes_width() ==> c.len() == ENCODING_LEN) {
                None
            } else {
                Some(DivergenceKind::EncodingMismatch)
            }
        },
        (ObservedView::Flag(c), ObservedView::Flag(r)) => {
            if !operation.yields_flag() {
                Some(DivergenceKind::OperationDivergence)
            } else if operation.round_trips() {
                if c && r {
                    None
                } else {
                    Some(DivergenceKind::EncodingMismatch)
                }
            } else if c == r {
                None
            } else {
                Some(DivergenceKind::EncodingMismatch)
            }
        },
        _ => Some(DivergenceKind::OperationDivergence),
    }
}

/// Whether two observations of one operation agree.
pub open spec fn agree(operation: Operation, candidate: ObservedView, reference: ObservedView) -> bool {
    judge(operation, candidate, reference) is None
}

/// Whether the operation answers with a boolean.
fn yields_flag(operation: Operation) -> (yields: bool)
    ensures
        yields == operation.yields_flag(),
{
    match operation {
        Operation::Field(FieldOp::IsOdd) => true,
        Operation::Field(FieldOp::IsEven) => true,
        Operation::Point(_, PointOp::Decompress) => true,
        _ => false,
    }
}

/// Whether the operation is a round trip through the encoding.
fn round_trips(operation: Operation) -> (round_trips: bool)
    ensures
        round_trips == operation.round_trips(),
{
    match operation {
        Operation::Point(_, PointOp::Decompress) => true,
        _ => false,
    }
}

/// Whether the operation yields encodings of the fixed width only.
fn fixes_width(operation: Operation) -> (fixes: bool)
    ensures
        fixes == operation.fixes_width(),
{
    match operation {
        Operation::Generate(_) => true,
        Operation::Point(_, PointOp::Compress) => true,
        _ => false,
    }
}

/// The kind under which a failure of the operation is reported.
fn failure_kind(operation: Operation) -> (kind: DivergenceKind)
    ensures
        kind == operation.failure_kind(),
{
    match operation {
        Operation::Generate(_) => DivergenceKind::DecodeFailure,
        Operation::Point(_, PointOp::Decompress) => DivergenceKind::DecodeFailure,
        _ => DivergenceKind::OperationDivergence,
    }
}

/// Applies the oracle to what was observed of one operation.
pub fn judge_observed(
    operation: Operation,
    candidate: &Observed,
    reference: &Observed,
) -> (kind: Option<DivergenceKind>)
    ensures
        kind == judge(operation, candidate@, reference@),
{
    match (candidate, reference) {
        (Observed::Failure, _) => Some(failure_kind(operation)),
        (_, Observed::Failure) => Some(failure_kind(operation)),
        (Observed::Encoding(c), Observed::Encoding(r)) => {
            if yields_flag(operation) {
                Some(DivergenceKind::OperationDivergence)
            } else if same_bytes(c, r) && (!fixes_width(operation) || c.len() == ENCODING_LEN) {
                None
            } else {
                Some(DivergenceKind::EncodingMismatch)
            }
        },
        (Observed::Flag(c), Observed::Flag(r)) => {
            if !yields_flag(operation) {
                Some(DivergenceKind::OperationDivergence)
            } else if round_trips(operation) {
                if *c && *r {
                    None
                } else {
                    Some(DivergenceKind::EncodingMismatch)
                }
            } else if *c == *r {
                None
            } else {
                Some(DivergenceKind::EncodingMismatch)
            }
        },
        _ => Some(DivergenceKind::OperationDivergence),
    }
}

} // verus!
