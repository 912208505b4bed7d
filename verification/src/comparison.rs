//! Comparing a whole list of operations and stopping at the first one on
//! which the implementations differ.

use crate::divergence::{
    copy_operands, operand_views, report, Divergence, DivergenceView, Observed, ObservedView,
};
use crate::operation::Operation;
use crate::oracle::{agree, judge, judge_observed};
use vstd::prelude::*;

verus! {

/// What both implementations were seen to produce for one operation.
#[derive(Clone, Debug, PartialEq, Eq)]
pub struct Reading {
    pub operation: Operation,
    pub candidate: Observed,
    pub reference: Observed,
}

/// Mathematical form of [`Reading`].
pub struct ReadingView {
    pub operation: Operation,
    pub candidate: ObservedView,
    pub reference: ObservedView,
}

impl View for Reading {
    type V = ReadingView;

    open spec fn view(&self) -> ReadingView {
        ReadingView {
            operation: self.operation,
            candidate: self.candidate@,
            reference: self.reference@,
        }
    }
}

impl ReadingView {
    /// Whether the two sides of the reading agree.
    pub open spec fn agrees(self) -> bool {
        agree(self.operation, self.candidate, self.reference)
    }
}

/// The mathematical form of every reading of a list.
pub open spec fn reading_views(readings: Seq<Reading>) -> Seq<ReadingView> {
    Seq::new(readings.len(), |i: int| readings[i]@)
}

/// The divergence that one reading gives rise to, if its sides disagree.
pub open spec fn divergence_at(operands: Seq<Seq<u8>>, reading: ReadingView) -> Option<
    DivergenceView,
> {
    match judge(reading.operation, reading.candidate, reading.reference) {
        Some(kind) => Some(
            DivergenceView {
                kind,
                operation: reading.operation,
                operands,
                candidate: reading.candidate,
                reference: reading.reference,
            },
        ),
        None => None,
    }
}

/// The divergence of the first reading from place `from` on whose sides
/// disagree.
pub open spec fn first_divergence_from(
    operands: Seq<Seq<u8>>,
    readings: Seq<ReadingView>,
    from: int,
) -> Option<DivergenceView>
    decreases readings.len() - from,
{
    if from < 0 || from >= readings.len() {
        None
    } else {
        match divergence_at(operands, readings[from]) {
            Some(divergence) => Some(divergence),
            None => first_divergence_from(operands, readings, from + 1),
        }
    }
}

/// What comparing a list of readings in order reports: the divergence of the
/// first reading whose sides disagree, or nothing where all agree.
pub open spec fn first_divergence(operands: Seq<Seq<u8>>, readings: Seq<ReadingView>) -> Option<
    DivergenceView,
> {
    first_divergence_from(operands, readings, 0)
}

/// Compares the readings in order and fails fast: the first reading whose
/// sides disagree is reported with the operands, later readings are not
/// looked at.
pub fn compare(operands: &Vec<Vec<u8>>, readings: &Vec<Reading>) -> (verdict: Result<
    (),
    Divergence,
>)
    ensures
        report(verdict) == first_divergence(operand_views(operands@), reading_views(readings@)),
{
    let n: usize = readings.len();
    let mut i: usize = 0;
    while i < n
        invariant
            i <= n,
            n == readings.len(),
            first_divergence(operand_views(operands@), reading_views(readings@))
                == first_divergence_from(
                operand_views(operands@),
                reading_views(readings@),
                i as int,
            ),
        decreases n - i,
    {
        let reading: &Reading = &readings[i];
        assert(reading_views(readings@)[i as int] == reading@);
        match judge_observed(reading.operation, &reading.candidate, &reading.reference) {
            Some(kind) => {
                return Err(
                    Divergence {
                        kind,
                        operation: reading.operation,
                        operands: copy_operands(operands),
                        candidate: reading.candidate.duplicate(),
                        reference: reading.reference.duplicate(),
                    },
                );
            },
            None => {},
        }
        i += 1;
    }
    Ok(())
}

/// Fail-fast comparison, stated without recursion. A comparison passes
/// exactly if every reading agrees. Where it does not pass, the report is
/// that of a reading before which every reading agrees.
pub proof fn lemma_first_divergence(operands: Seq<Seq<u8>>, readings: Seq<ReadingView>)
    ensures
        first_divergence(operands, readings) is None <==> forall|i: int|
            0 <= i < readings.len() ==> (#[trigger] readings[i]).agrees(),
        first_divergence(operands, readings) matches Some(divergence) ==> exists|i: int|
            0 <= i < readings.len() && divergence_at(operands, #[trigger] readings[i]) == Some(
                divergence,
            ) && forall|j: int| 0 <= j < i ==> (#[trigger] readings[j]).agrees(),
{
    lemma_first_divergence_from(operands, readings, 0);
}

/// The same from any place of the list on.
proof fn lemma_first_divergence_from(
    operands: Seq<Seq<u8>>,
    readings: Seq<ReadingView>,
    from: int,
)
    requires
        0 <= from,
    ensures
        first_divergence_from(operands, readings, from) is None <==> forall|i: int|
            from <= i < readings.len() ==> (#[trigger] readings[i]).agrees(),
        first_divergence_from(operands, readings, from) matches Some(divergence) ==> exists|
            i: int,
        |
            from <= i < readings.len() && divergence_at(operands, #[trigger] readings[i]) == Some(
                divergence,
            ) && forall|j: int| from <= j < i ==> (#[trigger] readings[j]).agrees(),
    decreases readings.len() - from,
{
    if from < readings.len() {
        lemma_first_divergence_from(operands, readings, from + 1);
        if readings[from].agrees() {
            assert forall|i: int| from <= i < readings.len() && first_divergence_from(
                operands,
                readings,
                from,
            ) is None implies (#[trigger] readings[i]).agrees() by {
                if i > from {
                }
            }
            if let Some(divergence) = first_divergence_from(operands, readings, from) {
                let i = choose|i: int|
                    from + 1 <= i < readings.len() && divergence_at(
                        operands,
                        #[trigger] readings[i],
                    ) == Some(divergence) && forall|j: int|
                        from + 1 <= j < i ==> (#[trigger] readings[j]).agrees();
                assert forall|j: int| from <= j < i implies (#[trigger] readings[j]).agrees() by {
                    if j > from {
                    }
                }
            }
        } else {
            assert(divergence_at(operands, readings[from]) is Some);
        }
    }
}

} // verus!
