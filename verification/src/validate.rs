//! The response validator: does what came back fit what was sent?

use crate::client::HttpClient;
use crate::error::{ErrorKind, ErrorKindView, Shape};
use crate::ids::{CorrelationId, IdView};
use crate::json::{values_view, JsonValue, JsonView};
use crate::response::{outputs_view, Output, OutputView, Response, ResponseView};
use std::collections::HashSet;
use vstd::prelude::*;

verus! {

broadcast use vstd::std_specs::hash::group_hash_axioms;

/// The verdict on one answer to the call that went out under `expected_id`:
/// an answer under another identifier, or under none that is a number, is
/// refused; a server error is handed on; a result is the payload.
pub open spec fn output_verdict(output: OutputView, expected_id: u64) -> Result<
    JsonView,
    ErrorKindView,
> {
    if output.id() != IdView::Num(expected_id) {
        Err(ErrorKindView::InvalidId)
    } else {
        match output {
            OutputView::Success { result, .. } => Ok(result),
            OutputView::Failure { error, .. } => Err(ErrorKindView::RpcError(error)),
        }
    }
}

/// The verdict on the response to a single call.
pub open spec fn single_verdict(response: ResponseView, expected_id: u64) -> Result<
    JsonView,
    ErrorKindView,
> {
    match response {
        ResponseView::Single(output) => output_verdict(output, expected_id),
        ResponseView::Batch(_) => Err(
            ErrorKindView::ShapeMismatch { expected: Shape::Single, received: Shape::Batch },
        ),
        ResponseView::Notif(_) => Err(
            ErrorKindView::ShapeMismatch { expected: Shape::Single, received: Shape::Notification },
        ),
    }
}

/// The value of a verdict that carries one payload.
pub open spec fn payload_view(verdict: Result<JsonValue, ErrorKind>) -> Result<
    JsonView,
    ErrorKindView,
> {
    match verdict {
        Ok(value) => Ok(value@),
        Err(error) => Err(error@),
    }
}

/// The value of a verdict that carries the payloads of a batch.
pub open spec fn payloads_view(verdict: Result<Vec<JsonValue>, ErrorKind>) -> Result<
    Seq<JsonView>,
    ErrorKindView,
> {
    match verdict {
        Ok(values) => Ok(values_view(values@)),
        Err(error) => Err(error@),
    }
}

impl HttpClient {
    /// Checks one answer against the identifier of the call it should belong
    /// to and takes its payload out.
    pub fn process_response(response: Output, expected_id: CorrelationId) -> (verdict: Result<
        JsonValue,
        ErrorKind,
    >)
        ensures
            payload_view(verdict) == output_verdict(response@, expected_id),
    {
        match response.id().as_number() {
            Some(n) => {
                if n == expected_id {
                    match response.into_payload() {
                        Ok(value) => Ok(value),
                        Err(error) => Err(ErrorKind::RpcError(error)),
                    }
                } else {
                    Err(ErrorKind::InvalidId)
                }
            },
            None => Err(ErrorKind::InvalidId),
        }
    }
}

/// Validates the response to a single call: it must be a single answer under
/// the expected identifier.
pub fn validate_single(response: Response, expected_id: CorrelationId) -> (verdict: Result<
    JsonValue,
    ErrorKind,
>)
    ensures
        payload_view(verdict) == single_verdict(response@, expected_id),
{
    match response {
        Response::Single(output) => HttpClient::process_response(output, expected_id),
        Response::Batch(_) => Err(
            ErrorKind::ShapeMismatch { expected: Shape::Single, received: Shape::Batch },
        ),
        Response::Notif(_) => Err(
            ErrorKind::ShapeMismatch { expected: Shape::Single, received: Shape::Notification },
        ),
    }
}

/// Whether none of the first `i` answers carries the identifier `id`.
pub open spec fn unused_before(outputs: Seq<OutputView>, id: u64, i: int) -> bool {
    forall|j: int| 0 <= j < i ==> (#[trigger] outputs[j]).id() != IdView::Num(id)
}

/// Whether the identifier of the answer at `i` is taken: it is a number, it
/// is awaited, and no earlier answer of the batch has used it.
pub open spec fn id_awaited(outputs: Seq<OutputView>, expected: Set<u64>, i: int) -> bool {
    &&& outputs[i].id() matches IdView::Num(id)
    &&& expected.contains(id)
    &&& unused_before(outputs, id, i)
}

/// Whether the answer at `i` is accepted: its identifier is taken and it
/// holds a result.
pub open spec fn accepted(outputs: Seq<OutputView>, expected: Set<u64>, i: int) -> bool {
    &&& id_awaited(outputs, expected, i)
    &&& outputs[i] is Success
}

/// Whether the answer at `k` is the first of the batch that is not accepted.
pub open spec fn rejected_at(outputs: Seq<OutputView>, expected: Set<u64>, k: int) -> bool {
    &&& 0 <= k < outputs.len()
    &&& !accepted(outputs, expected, k)
    &&& forall|j: int| 0 <= j < k ==> accepted(outputs, expected, j)
}

/// The error that an answer which is not accepted fails the batch with.
pub open spec fn rejection(outputs: Seq<OutputView>, expected: Set<u64>, k: int) -> ErrorKindView {
    if id_awaited(outputs, expected, k) {
        match outputs[k] {
            OutputView::Failure { error, .. } => ErrorKindView::RpcError(error),
            OutputView::Success { .. } => ErrorKindView::InvalidId,
        }
    } else {
        ErrorKindView::InvalidId
    }
}

/// The results that the answers hold, in the order of the answers.
pub open spec fn results(outputs: Seq<OutputView>) -> Seq<JsonView> {
    Seq::new(outputs.len(), |i: int| outputs[i]->result)
}

/// The verdict on the answers of a batch, for the identifiers that went out:
/// the results in the order received where every answer is accepted, else
/// the error of the first answer that is not. Answers may be fewer than the
/// identifiers.
pub open spec fn outputs_verdict(outputs: Seq<OutputView>, expected: Set<u64>) -> Result<
    Seq<JsonView>,
    ErrorKindView,
> {
    if forall|i: int| 0 <= i < outputs.len() ==> accepted(outputs, expected, i) {
        Ok(results(outputs))
    } else {
        Err(rejection(outputs, expected, choose|k: int| rejected_at(outputs, expected, k)))
    }
}

/// The verdict on the response to a batch.
pub open spec fn batch_verdict(response: ResponseView, expected: Set<u64>) -> Result<
    Seq<JsonView>,
    ErrorKindView,
> {
    match response {
        ResponseView::Batch(outputs) => outputs_verdict(outputs, expected),
        ResponseView::Single(_) => Err(
            ErrorKindView::ShapeMismatch { expected: Shape::Batch, received: Shape::Single },
        ),
        ResponseView::Notif(_) => Err(
            ErrorKindView::ShapeMismatch { expected: Shape::Batch, received: Shape::Notification },
        ),
    }
}

/// At most one answer is the first that is not accepted, and it decides the
/// verdict.
pub proof fn lemma_first_rejected_decides(outputs: Seq<OutputView>, expected: Set<u64>, k: int)
    requires
        rejected_at(outputs, expected, k),
    ensures
        outputs_verdict(outputs, expected) == Err::<Seq<JsonView>, ErrorKindView>(
            rejection(outputs, expected, k),
        ),
{
    let chosen = choose|c: int| rejected_at(outputs, expected, c);
    assert(rejected_at(outputs, expected, chosen));
    if chosen < k {
        assert(accepted(outputs, expected, chosen));
    } else if k < chosen {
        assert(accepted(outputs, expected, k));
    }
    assert(chosen == k);
}

/// A batch of answers is accepted exactly where each answer holds a result
/// under an awaited identifier that no other answer of the batch carries. The
/// order of the answers plays no part in that, and the results come out in
/// the order of the answers.
pub proof fn lemma_accepted_batch(outputs: Seq<OutputView>, expected: Set<u64>)
    ensures
        outputs_verdict(outputs, expected) is Ok <==> {
            &&& forall|i: int|
                0 <= i < outputs.len() ==> {
                    &&& (#[trigger] outputs[i]) is Success
                    &&& outputs[i].id() matches IdView::Num(id)
                    &&& expected.contains(id)
                }
            &&& forall|i: int, j: int|
                0 <= i < j < outputs.len() ==> (#[trigger] outputs[i]).id() != (
                #[trigger] outputs[j]).id()
        },
        outputs_verdict(outputs, expected) is Ok ==> outputs_verdict(outputs, expected) == Ok::<
            Seq<JsonView>,
            ErrorKindView,
        >(results(outputs)),
{
    if outputs_verdict(outputs, expected) is Ok {
        assert forall|i: int| 0 <= i < outputs.len() implies {
            &&& (#[trigger] outputs[i]) is Success
            &&& outputs[i].id() matches IdView::Num(id)
            &&& expected.contains(id)
        } by {
            assert(accepted(outputs, expected, i));
        }
        assert forall|i: int, j: int| 0 <= i < j < outputs.len() implies (#[trigger] outputs[i]).id()
            != (#[trigger] outputs[j]).id() by {
            assert(accepted(outputs, expected, j));
        }
    } else {
        let k = choose|k: int| 0 <= k < outputs.len() && !accepted(outputs, expected, k);
        if outputs[k] is Success && outputs[k].id() is Num && expected.contains(
            outputs[k].id()->Num_0,
        ) {
            assert(!unused_before(outputs, outputs[k].id()->Num_0, k));
        }
    }
}

/// Validates the response to a batch: it must be a batch, and each answer
/// must carry an identifier that went out and that no earlier answer has
/// used. The first answer that does not, or that holds a server error, fails
/// the whole batch.
#[verifier::loop_isolation(false)]
pub fn validate_batch(response: Response, expected_ids: HashSet<CorrelationId>) -> (verdict:
    Result<Vec<JsonValue>, ErrorKind>)
    ensures
        payloads_view(verdict) == batch_verdict(response@, expected_ids@),
{
    match response {
        Response::Single(_) => Err(
            ErrorKind::ShapeMismatch { expected: Shape::Batch, received: Shape::Single },
        ),
        Response::Notif(_) => Err(
            ErrorKind::ShapeMismatch { expected: Shape::Batch, received: Shape::Notification },
        ),
        Response::Batch(outputs) => {
            let ghost answers = outputs_view(outputs@);
            let ghost expected = expected_ids@;
            let mut working = expected_ids;
            let mut values: Vec<JsonValue> = Vec::with_capacity(working.len());
            for output in it: outputs.into_iter()
                invariant
                    it.seq() == outputs@,
                    answers == outputs_view(outputs@),
                    values.len() == it.index(),
                    forall|j: int| 0 <= j < it.index() ==> accepted(answers, expected, j),
                    forall|j: int| 0 <= j < it.index() ==> values[j]@ == answers[j]->result,
                    forall|n: u64|
                        #[trigger] working@.contains(n) <==> expected.contains(n) && unused_before(
                            answers,
                            n,
                            it.index() as int,
                        ),
            {
                let ghost k = it.index() as int;
                let id = match output.id().as_number() {
                    Some(n) => n,
                    None => {
                        proof {
                            lemma_first_rejected_decides(answers, expected, k);
                        }
                        return Err(ErrorKind::InvalidId);
                    },
                };
                let ghost before = working@;
                if !working.remove(&id) {
                    proof {
                        lemma_first_rejected_decides(answers, expected, k);
                    }
                    return Err(ErrorKind::InvalidId);
                }
                proof {
                    assert(before.contains(id));
                    assert forall|n: u64|
                        working@.contains(n) <==> expected.contains(n) && unused_before(
                            answers,
                            n,
                            k + 1,
                        ) by {
                        if unused_before(answers, n, k + 1) {
                            assert(answers[k].id() != IdView::Num(n));
                        }
                    }
                }
                match output.into_payload() {
                    Ok(value) => {
                        values.push(value);
                    },
                    Err(error) => {
                        proof {
                            lemma_first_rejected_decides(answers, expected, k);
                        }
                        return Err(ErrorKind::RpcError(error));
                    },
                }
            }
            assert(values_view(values@) =~= results(answers));
            Ok(values)
        },
    }
}

} // verus!
