//! The rules that every array-shaped native output goes through.
//!
//! An array arrives as a count and a pointer. Its shape is judged first
//! ([`classify_array`]); only an array with elements is converted, one
//! element at a time, and the per-element outcomes are then combined
//! all-or-nothing ([`all_or_errors`]): every element converted, or every
//! failure reported, in element order.
use vstd::prelude::*;

verus! {

/// The shape of an array that arrived as a count and a pointer.
#[derive(Debug, Clone, Copy, PartialEq, Eq)]
pub enum ArrayShape {
    /// The count is zero: there is nothing to read, whatever the pointer.
    Empty,
    /// The count is negative; the value is the count.
    InvalidCount(i32),
    /// The count is positive and the pointer is null.
    NullPointer,
    /// The count is positive and the pointer refers to the elements.
    Elements,
}

/// The shape of an array with the given count whose pointer is null or not.
pub open spec fn spec_classify_array(count: i32, is_null: bool) -> ArrayShape {
    if count == 0 {
        ArrayShape::Empty
    } else if count < 0 {
        ArrayShape::InvalidCount(count)
    } else if is_null {
        ArrayShape::NullPointer
    } else {
        ArrayShape::Elements
    }
}

/// Judges the shape of an array from its count and from whether its pointer
/// is null. The pointer is not looked at unless the count is positive.
pub fn classify_array(count: i32, is_null: bool) -> (shape: ArrayShape)
    ensures
        shape == spec_classify_array(count, is_null),
        count < 0 ==> shape == ArrayShape::InvalidCount(count),
        count == 0 ==> shape == ArrayShape::Empty,
{
    if count == 0 {
        ArrayShape::Empty
    } else if count < 0 {
        ArrayShape::InvalidCount(count)
    } else if is_null {
        ArrayShape::NullPointer
    } else {
        ArrayShape::Elements
    }
}

/// How many elements an array with the given count has, if `readable` of them
/// can be read behind its pointer: as many as the count says, and never more
/// than can be read.
pub open spec fn spec_element_count(count: int, readable: int) -> int {
    if count <= 0 {
        0
    } else if count <= readable {
        count
    } else {
        readable
    }
}

/// The elements of an array with the given count, if `items` is what can be
/// read behind its pointer: exactly the first `count` of them.
pub open spec fn spec_elements<T>(count: int, items: Seq<T>) -> Seq<T> {
    items.take(spec_element_count(count, items.len() as int))
}

/// How many elements an array with the given count has, if `readable` of them
/// can be read behind its pointer.
pub fn element_count(count: i32, readable: usize) -> (n: usize)
    ensures
        n == spec_element_count(count as int, readable as int),
        n <= readable,
{
    if count <= 0 {
        0
    } else if (count as usize) <= readable {
        count as usize
    } else {
        readable
    }
}

/// The count to tell the service for an array of `len` elements, if the
/// count fits the integer that the interface uses.
pub fn native_count(len: usize) -> (count: Option<i32>)
    ensures
        len <= i32::MAX ==> count == Some(len as i32),
        len > i32::MAX ==> count is None,
{
    if len <= 0x7fff_ffff {
        Some(len as i32)
    } else {
        None
    }
}

/// A negative count is an invalid count, and the error carries the count as
/// it is; whether the pointer is null plays no part, so no marshaller looks
/// behind it.
pub proof fn law_negative_count_is_invalid(count: i32, is_null: bool)
    requires
        count < 0,
    ensures
        spec_classify_array(count, is_null) == ArrayShape::InvalidCount(count),
        spec_classify_array(count, is_null) == spec_classify_array(count, !is_null),
{
}

/// A count of zero is an empty array, whatever the pointer, null included.
pub proof fn law_zero_count_is_empty(is_null: bool)
    ensures
        spec_classify_array(0, is_null) == ArrayShape::Empty,
{
}

/// The values of the successful outcomes, in element order.
pub open spec fn successes<T, E>(results: Seq<Result<T, E>>) -> Seq<T>
    decreases results.len(),
{
    if results.len() == 0 {
        Seq::empty()
    } else {
        match results.last() {
            Ok(value) => successes(results.drop_last()).push(value),
            Err(_) => successes(results.drop_last()),
        }
    }
}

/// The errors of the failed outcomes, in element order.
pub open spec fn failures<T, E>(results: Seq<Result<T, E>>) -> Seq<E>
    decreases results.len(),
{
    if results.len() == 0 {
        Seq::empty()
    } else {
        match results.last() {
            Ok(_) => failures(results.drop_last()),
            Err(error) => failures(results.drop_last()).push(error),
        }
    }
}

/// The positions of the failed outcomes, ascending.
pub open spec fn failure_positions<T, E>(results: Seq<Result<T, E>>) -> Seq<int>
    decreases results.len(),
{
    if results.len() == 0 {
        Seq::empty()
    } else {
        match results.last() {
            Ok(_) => failure_positions(results.drop_last()),
            Err(_) => failure_positions(results.drop_last()).push(results.len() - 1),
        }
    }
}

/// The outcome of a batch: all values if every element succeeded, otherwise
/// all errors.
pub open spec fn all_or_errors<T, E>(results: Seq<Result<T, E>>) -> Result<Seq<T>, Seq<E>> {
    if failures(results).len() == 0 {
        Ok(successes(results))
    } else {
        Err(failures(results))
    }
}

/// Appending one outcome appends to exactly one of the two projections.
pub proof fn lemma_push_outcome<T, E>(results: Seq<Result<T, E>>, outcome: Result<T, E>)
    ensures
        successes(results.push(outcome)) == match outcome {
            Ok(value) => successes(results).push(value),
            Err(_) => successes(results),
        },
        failures(results.push(outcome)) == match outcome {
            Ok(_) => failures(results),
            Err(error) => failures(results).push(error),
        },
        failure_positions(results.push(outcome)) == match outcome {
            Ok(_) => failure_positions(results),
            Err(_) => failure_positions(results).push(results.len() as int),
        },
{
    assert(results.push(outcome).drop_last() =~= results);
}

/// Taking one more element of a batch appends that element's outcome.
pub proof fn lemma_take_next<T, E>(results: Seq<Result<T, E>>, i: int)
    requires
        0 <= i < results.len(),
    ensures
        results.take(i + 1) == results.take(i).push(results[i]),
        successes(results.take(i + 1)) == match results[i] {
            Ok(value) => successes(results.take(i)).push(value),
            Err(_) => successes(results.take(i)),
        },
        failures(results.take(i + 1)) == match results[i] {
            Ok(_) => failures(results.take(i)),
            Err(error) => failures(results.take(i)).push(error),
        },
{
    assert(results.take(i + 1) =~= results.take(i).push(results[i]));
    lemma_push_outcome(results.take(i), results[i]);
}

/// Every element is counted once: as a success or as a failure.
pub proof fn lemma_outcome_counts<T, E>(results: Seq<Result<T, E>>)
    ensures
        successes(results).len() + failures(results).len() == results.len(),
        failure_positions(results).len() == failures(results).len(),
    decreases results.len(),
{
    if results.len() > 0 {
        lemma_outcome_counts(results.drop_last());
    }
}

/// The failures are exactly the errors found at the failure positions, and
/// those positions are all the positions that failed, in ascending order.
pub proof fn lemma_failures_in_order<T, E>(results: Seq<Result<T, E>>)
    ensures
        failure_positions(results).len() == failures(results).len(),
        forall|k: int|
            0 <= k < failures(results).len() ==> {
                let p = #[trigger] failure_positions(results)[k];
                0 <= p < results.len() && results[p] == Err::<T, E>(failures(results)[k])
            },
        forall|j: int, k: int|
            0 <= j < k < failures(results).len() ==> failure_positions(results)[j]
                < failure_positions(results)[k],
        forall|i: int|
            0 <= i < results.len() && results[i] is Err ==> failure_positions(results).contains(i),
    decreases results.len(),
{
    lemma_outcome_counts(results);
    if results.len() > 0 {
        let init = results.drop_last();
        lemma_failures_in_order(init);
        lemma_outcome_counts(init);
        let pos = failure_positions(results);
        assert forall|i: int| 0 <= i < results.len() && results[i] is Err implies pos.contains(
            i,
        ) by {
            if i < init.len() {
                assert(init[i] == results[i]);
                assert(failure_positions(init).contains(i));
                let k = choose|k: int|
                    0 <= k < failure_positions(init).len() && failure_positions(init)[k] == i;
                assert(pos[k] == i);
            } else {
                assert(pos[pos.len() - 1] == i);
            }
        }
        assert forall|k: int| 0 <= k < failures(results).len() implies {
            let p = #[trigger] failure_positions(results)[k];
            0 <= p < results.len() && results[p] == Err::<T, E>(failures(results)[k])
        } by {
            if k < failures(init).len() {
                let p = failure_positions(init)[k];
                assert(init[p] == results[p]);
            }
        }
    }
}

/// The successes are the values of the elements that succeeded, in element
/// order; with no failure they are the values of all elements.
pub proof fn lemma_successes_complete<T, E>(results: Seq<Result<T, E>>)
    requires
        failures(results).len() == 0,
    ensures
        successes(results).len() == results.len(),
        forall|i: int|
            0 <= i < results.len() ==> #[trigger] results[i] == Ok::<T, E>(successes(results)[i]),
    decreases results.len(),
{
    lemma_outcome_counts(results);
    if results.len() > 0 {
        let init = results.drop_last();
        lemma_outcome_counts(init);
        lemma_successes_complete(init);
        assert forall|i: int| 0 <= i < results.len() implies #[trigger] results[i] == Ok::<T, E>(
            successes(results)[i],
        ) by {
            if i < init.len() {
                assert(init[i] == results[i]);
            }
        }
    }
}

/// The batch law. With `N` elements of which `K` failed: if `K` is zero the
/// batch succeeds with `N` values, the value of each element at that
/// element's place; otherwise it fails with exactly `K` errors, which are the
/// errors of the failed elements in element order.
pub proof fn law_all_or_errors<T, E>(results: Seq<Result<T, E>>)
    ensures
        failures(results).len() == results.filter(|r: Result<T, E>| r is Err).len(),
        failures(results).len() == 0 ==> (all_or_errors(results) matches Ok(values)
            && values.len() == results.len() && forall|i: int|
            0 <= i < results.len() ==> #[trigger] results[i] == Ok::<T, E>(values[i])),
        failures(results).len() > 0 ==> (all_or_errors(results) matches Err(errors)
            && errors.len() == failure_positions(results).len() && (forall|k: int|
            0 <= k < errors.len() ==> {
                let p = #[trigger] failure_positions(results)[k];
                0 <= p < results.len() && results[p] == Err::<T, E>(errors[k])
            }) && (forall|j: int, k: int|
            0 <= j < k < errors.len() ==> failure_positions(results)[j] < failure_positions(
                results,
            )[k]) && (forall|i: int|
            0 <= i < results.len() && results[i] is Err ==> failure_positions(results).contains(
                i,
            ))),
{
    lemma_failures_in_order(results);
    lemma_failure_count(results);
    if failures(results).len() == 0 {
        lemma_successes_complete(results);
    }
}

/// The number of failures is the number of elements that are errors.
pub proof fn lemma_failure_count<T, E>(results: Seq<Result<T, E>>)
    ensures
        failures(results).len() == results.filter(|r: Result<T, E>| r is Err).len(),
    decreases results.len(),
{
    reveal(Seq::filter);
    if results.len() > 0 {
        lemma_failure_count(results.drop_last());
    }
}

/// Combines the outcomes of a batch: all values if every element succeeded,
/// otherwise every error, both in element order.
pub fn collect_all<T, E>(results: Vec<Result<T, E>>) -> (combined: Result<Vec<T>, Vec<E>>)
    ensures
        match combined {
            Ok(values) => all_or_errors(results@) == Ok::<Seq<T>, Seq<E>>(values@),
            Err(errors) => all_or_errors(results@) == Err::<Seq<T>, Seq<E>>(errors@),
        },
{
    let mut values: Vec<T> = Vec::new();
    let mut errors: Vec<E> = Vec::new();
    let ghost all = results@;
    for outcome in it: results
        invariant
            it.seq() == all,
            values@ == successes(all.take(it.index() as int)),
            errors@ == failures(all.take(it.index() as int)),
    {
        proof {
            lemma_take_next(all, it.index() as int);
        }
        match outcome {
            Ok(value) => values.push(value),
            Err(error) => errors.push(error),
        }
    }
    proof {
        assert(all.take(all.len() as int) =~= all);
    }
    if errors.len() == 0 {
        Ok(values)
    } else {
        Err(errors)
    }
}

/// The positions of the failed outcomes of a batch, ascending: the elements
/// that the errors of [`collect_all`] belong to, in the same order.
pub fn failed_positions<T, E>(results: &Vec<Result<T, E>>) -> (positions: Vec<usize>)
    ensures
        positions@.len() == failure_positions(results@).len(),
        forall|k: int|
            0 <= k < positions@.len() ==> #[trigger] positions@[k] == failure_positions(
                results@,
            )[k],
{
    let mut positions: Vec<usize> = Vec::new();
    let mut i: usize = 0;
    while i < results.len()
        invariant
            i <= results.len(),
            positions@.len() == failure_positions(results@.take(i as int)).len(),
            forall|k: int|
                0 <= k < positions@.len() ==> #[trigger] positions@[k] == failure_positions(
                    results@.take(i as int),
                )[k],
        decreases results.len() - i,
    {
        proof {
            assert(results@.take(i + 1) =~= results@.take(i as int).push(results@[i as int]));
            lemma_push_outcome(results@.take(i as int), results@[i as int]);
        }
        match &results[i] {
            Ok(_) => {},
            Err(_) => {
                positions.push(i);
            },
        }
        i += 1;
    }
    proof {
        assert(results@.take(i as int) =~= results@);
    }
    positions
}

} // verus!
