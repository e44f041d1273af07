//! What holds of the library as a whole, stated over the models that the
//! contracts of its functions use.

use crate::buffer::BufferState;
use crate::error::{class_of, FloatError};
use crate::ieee::{Ieee, Kind};
use crate::nanpack::{Decoded, NanPack, Payload};
use crate::ops::{can_carry, combined, verdict, Operation, Verdict};
use vstd::prelude::*;

verus! {

/// Every index that fits the payload field is read back from the NaN that
/// was made for it, and that NaN carries something.
pub proof fn payload_round_trip<T, F: NanPack<T>>(index: T)
    requires
        F::encodable(index),
    ensures
        F::encoded(index).nan(),
        F::encoded(index).payloaded(),
        F::encoded(index).payload() == Some(index),
        F::encoded(index).decoded() == Decoded::Payload(index),
{
    F::encoded_fields(index);
    F::empty_nan_fields();
}

/// A NaN whose payload field is zero decodes as empty and is never taken for
/// one that carries a failure. The empty NaN is such a NaN.
pub proof fn empty_payload_carries_nothing<T, F: NanPack<T>>(f: F)
    requires
        f.nan(),
        f.payload_bits() == 0,
    ensures
        f.decoded() == Decoded::<T>::EmptyNaN,
        !f.payloaded(),
        f.payload() == None::<T>,
        F::empty_nan().decoded() == Decoded::<T>::EmptyNaN,
{
    F::empty_nan_fields();
}

/// A value that is no NaN carries nothing, whatever its low fraction bits
/// hold.
pub proof fn numbers_carry_nothing<T, F: NanPack<T>>(f: F)
    requires
        !f.nan(),
    ensures
        f.decoded() == Decoded::<T>::NotNaN,
        !f.payloaded(),
        f.payload() == None::<T>,
{
}

/// The first failure sticks: an operand that carries an index comes out of
/// an operation with an operand that carries none as it went in, on either
/// side, whatever the operation and whatever the hardware computed.
pub proof fn first_failure_sticks<F: NanPack<usize>>(op: Operation, tainted: F, other: F, native: F)
    requires
        tainted.payloaded(),
        !other.payloaded(),
    ensures
        verdict(op, tainted, other, native) == Verdict::Keep(tainted),
        verdict(op, other, tainted, native) == Verdict::Keep(tainted),
{
}

/// An operation on a value that carries an index and one that carries none
/// returns the first as it is and leaves the buffer as it is, so that
/// sanitizing the result finds the failure that the operand stood for.
pub proof fn failure_survives_operation<F: NanPack<usize>>(
    op: Operation,
    tainted: F,
    other: F,
    native: F,
    before: BufferState,
    after: BufferState,
    result: F,
)
    requires
        tainted.payloaded(),
        !other.payloaded(),
        combined(op, tainted, other, native, before, after, result) || combined(
            op,
            other,
            tainted,
            native,
            before,
            after,
            result,
        ),
    ensures
        result == tainted,
        result.payload() == tainted.payload(),
        after == before,
{
}

/// Where both operands carry an index, the left one is returned.
pub proof fn left_failure_wins<F: NanPack<usize>>(op: Operation, a: F, b: F, native: F)
    requires
        a.payloaded(),
        b.payloaded(),
    ensures
        verdict(op, a, b, native) == Verdict::Keep(a),
{
}

/// An operation on operands that carry nothing files a failure exactly when
/// the hardware's result is a NaN, and the failure names the operation and
/// the classes of both operands.
pub proof fn new_failure_is_diagnosed<F: NanPack<usize>>(op: Operation, a: F, b: F, native: F)
    requires
        !a.payloaded(),
        !b.payloaded(),
    ensures
        native.nan() ==> verdict(op, a, b, native) == Verdict::<F>::Diagnose(
            op.failure(class_of(a), class_of(b)),
        ),
        !native.nan() ==> verdict(op, a, b, native) == Verdict::Keep(native),
{
}

/// A failure that was filed is the one that sanitizing finds: the NaN made
/// for the next index carries that index, the failure waits under it, and
/// taking it out leaves the failures that waited before.
pub proof fn filed_failure_is_found<F: NanPack<usize>>(state: BufferState, error: FloatError)
    requires
        state.wf(),
        can_carry::<F>(state),
    ensures
        F::encoded(state.next()).payload() == Some(state.next()),
        state.inserted(error).wf(),
        state.inserted(error).records.contains_key(state.next()),
        state.inserted(error).records[state.next()] == error,
        state.inserted(error).removed(state.next()).records == state.records,
        !state.inserted(error).removed(state.next()).records.contains_key(state.next()),
{
    payload_round_trip::<usize, F>(state.next());
    assert(!state.records.contains_key(state.next()));
    assert(state.inserted(error).removed(state.next()).records =~= state.records);
}

/// An operation that newly gives a NaN, on a buffer that has an index left
/// which the format can carry, returns a NaN that carries the next index, and
/// under that index waits a failure that names the operation and the classes
/// of both operands. Sanitizing the result is then allowed, finds that
/// failure, and leaves the failures that waited before.
pub proof fn diagnosis_is_recovered<F: NanPack<usize>>(
    op: Operation,
    a: F,
    b: F,
    native: F,
    before: BufferState,
    after: BufferState,
    result: F,
)
    requires
        before.wf(),
        can_carry::<F>(before),
        !a.payloaded(),
        !b.payloaded(),
        native.nan(),
        combined(op, a, b, native, before, after, result),
    ensures
        result.nan(),
        result.payload() == Some(before.next()),
        after.wf(),
        after.records.contains_key(before.next()),
        after.records[before.next()].variant == op.failure(class_of(a), class_of(b)),
        after.removed(before.next()).records == before.records,
{
    filed_failure_is_found::<F>(before, after.records[before.next()]);
    payload_round_trip::<usize, F>(before.next());
}

/// The state after the failures of `errors` were stored one after the other.
pub open spec fn inserted_all(state: BufferState, errors: Seq<FloatError>) -> BufferState
    decreases errors.len(),
{
    if errors.len() == 0 {
        state
    } else {
        inserted_all(state, errors.drop_last()).inserted(errors.last())
    }
}

/// The index that the failure stored as number `i` (from 0) gets.
pub open spec fn nth_index(state: BufferState, i: int) -> usize {
    (state.issued + 1 + i) as usize
}

/// However many failures are stored one after the other, each gets an index
/// of its own, in the order of the calls; none is lost, none displaces
/// another, and what waited before still waits. A lock that lets one `insert`
/// through at a time puts the calls of many threads in such an order.
pub proof fn indices_are_never_shared(state: BufferState, errors: Seq<FloatError>)
    requires
        state.wf(),
        state.issued + errors.len() <= usize::MAX,
    ensures
        inserted_all(state, errors).wf(),
        inserted_all(state, errors).issued == state.issued + errors.len(),
        forall|i: int, j: int|
            0 <= i < j < errors.len() ==> #[trigger] nth_index(state, i) != #[trigger] nth_index(
                state,
                j,
            ),
        forall|i: int|
            #![trigger errors[i]]
            #![trigger nth_index(state, i)]
            0 <= i < errors.len() ==> {
                &&& !state.records.contains_key(nth_index(state, i))
                &&& inserted_all(state, errors).records.contains_key(nth_index(state, i))
                &&& inserted_all(state, errors).records[nth_index(state, i)] == errors[i]
            },
        forall|k: usize| #[trigger]
            state.records.contains_key(k) ==> inserted_all(state, errors).records.contains_key(k)
                && inserted_all(state, errors).records[k] == state.records[k],
    decreases errors.len(),
{
    if errors.len() > 0 {
        let front = errors.drop_last();
        indices_are_never_shared(state, front);
        let before = inserted_all(state, front);
        let after = inserted_all(state, errors);
        assert(after == before.inserted(errors.last()));
        assert forall|i: int|
            #![trigger errors[i]]
            #![trigger nth_index(state, i)]
            0 <= i < errors.len() implies {
            &&& !state.records.contains_key(nth_index(state, i))
            &&& after.records.contains_key(nth_index(state, i))
            &&& after.records[nth_index(state, i)] == errors[i]
        } by {
            if i < front.len() {
                assert(front[i] == errors[i]);
                assert(before.records.contains_key(nth_index(state, i)));
            }
        }
        assert forall|k: usize| #[trigger] state.records.contains_key(k) implies after.records.contains_key(
            k,
        ) && after.records[k] == state.records[k] by {
            assert(before.records.contains_key(k));
        }
    }
}

} // verus!
