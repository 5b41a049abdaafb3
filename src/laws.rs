//! What holds across operations on the store.
use crate::codec::{decode, encode, lemma_decode_encode};
use crate::counter::Counter;
use crate::day::{day_file_name, distinct_days, lemma_distinct_day_files, DayDate};
use crate::store::{after, load_rewrites, loaded, overflows, write_of, Operation};
use vstd::prelude::*;

verus! {

/// The operation that records one build outcome.
pub open spec fn outcome_op(succeeded: bool) -> Operation {
    if succeeded {
        Operation::Success
    } else {
        Operation::Fail
    }
}

/// The day file after recording `outcomes` in order, starting without one.
pub open spec fn replay(outcomes: Seq<bool>) -> Option<Seq<char>>
    decreases outcomes.len(),
{
    if outcomes.len() == 0 {
        None
    } else {
        let prev = replay(outcomes.drop_last());
        after(prev, write_of(outcome_op(outcomes.last()), prev))
    }
}

/// How many of `outcomes` equal `b`.
pub open spec fn count_of(outcomes: Seq<bool>, b: bool) -> nat
    decreases outcomes.len(),
{
    if outcomes.len() == 0 {
        0
    } else {
        count_of(outcomes.drop_last(), b) + if outcomes.last() == b {
            1nat
        } else {
            0nat
        }
    }
}

proof fn lemma_count_bound(outcomes: Seq<bool>, b: bool)
    ensures
        count_of(outcomes, b) <= outcomes.len(),
    decreases outcomes.len(),
{
    if outcomes.len() > 0 {
        lemma_count_bound(outcomes.drop_last(), b);
    }
}

/// Saving a tally and reading it back gives the same tally, and the file
/// is left as it is.
pub proof fn lemma_save_then_load(c: Counter)
    ensures
        loaded(Some(encode(c))) == c,
        !load_rewrites(Some(encode(c))),
{
    lemma_decode_encode(c);
}

/// One more recorded outcome on top of `prev`.
proof fn lemma_replay_step(outcomes: Seq<bool>)
    requires
        outcomes.len() > 0,
        !overflows(outcome_op(outcomes.last()), replay(outcomes.drop_last())),
    ensures
        loaded(replay(outcomes)) == crate::store::recorded(
            loaded(replay(outcomes.drop_last())),
            outcomes.last(),
        ),
{
    let prev = replay(outcomes.drop_last());
    let next = crate::store::recorded(loaded(prev), outcomes.last());
    assert(write_of(outcome_op(outcomes.last()), prev) == Some(encode(next)));
    assert(replay(outcomes) == Some(encode(next)));
    lemma_save_then_load(next);
}

/// Recording outcomes one by one on a day without a file never overflows
/// and leaves as many successes and failures as were recorded.
pub proof fn lemma_tally_counts_calls(outcomes: Seq<bool>)
    requires
        outcomes.len() < usize::MAX,
    ensures
        loaded(replay(outcomes)) == (Counter {
            success: count_of(outcomes, true) as usize,
            fail: count_of(outcomes, false) as usize,
        }),
        forall|i: int|
            0 <= i < outcomes.len() ==> !overflows(
                outcome_op(#[trigger] outcomes[i]),
                replay(outcomes.take(i)),
            ),
    decreases outcomes.len(),
{
    if outcomes.len() == 0 {
        assert(replay(outcomes) == None::<Seq<char>>);
    } else {
        let prev = outcomes.drop_last();
        lemma_tally_counts_calls(prev);
        lemma_count_bound(prev, true);
        lemma_count_bound(prev, false);
        assert(!overflows(outcome_op(outcomes.last()), replay(prev)));
        lemma_replay_step(outcomes);
        assert forall|i: int| 0 <= i < outcomes.len() implies !overflows(
            outcome_op(#[trigger] outcomes[i]),
            replay(outcomes.take(i)),
        ) by {
            if i < prev.len() {
                assert(outcomes.take(i) =~= prev.take(i));
                assert(outcomes[i] == prev[i]);
            } else {
                assert(outcomes.take(i) =~= prev);
            }
        }
    }
}

/// After a reset the day's tally reads as zero, whatever the file held.
pub proof fn lemma_reset_zero(prior: Option<Seq<char>>)
    ensures
        loaded(after(prior, write_of(Operation::Reset, prior))) == Counter::zero_spec(),
{
    lemma_save_then_load(Counter::zero_spec());
}

/// A corrupt day file reads as zero, and the read rewrites it with a zero
/// tally.
pub proof fn lemma_corrupt_file_resets(text: Seq<char>)
    requires
        decode(text) is None,
    ensures
        loaded(Some(text)) == Counter::zero_spec(),
        load_rewrites(Some(text)),
        write_of(Operation::Status, Some(text)) == Some(encode(Counter::zero_spec())),
        write_of(Operation::Tmux, Some(text)) == Some(encode(Counter::zero_spec())),
        loaded(after(Some(text), write_of(Operation::Status, Some(text))))
            == Counter::zero_spec(),
{
    lemma_save_then_load(Counter::zero_spec());
}

/// The text of the file `name` among the store root's day files.
pub open spec fn file_in(files: Map<Seq<char>, Seq<char>>, name: Seq<char>) -> Option<Seq<char>> {
    if files.contains_key(name) {
        Some(files[name])
    } else {
        None
    }
}

/// The store root's day files after running `op` on the file `name`.
pub open spec fn run_on(files: Map<Seq<char>, Seq<char>>, name: Seq<char>, op: Operation) -> Map<
    Seq<char>,
    Seq<char>,
> {
    match write_of(op, file_in(files, name)) {
        Some(t) => files.insert(name, t),
        None => files,
    }
}

/// An operation run on one day leaves the file of every other day, and every
/// other file of the store root, as it was; a day without a file starts at
/// zero whatever earlier days hold.
pub proof fn lemma_days_independent(
    files: Map<Seq<char>, Seq<char>>,
    a: DayDate,
    b: DayDate,
    op: Operation,
)
    requires
        a.wf(),
        b.wf(),
        distinct_days(a, b),
    ensures
        file_in(run_on(files, day_file_name(b), op), day_file_name(a)) == file_in(
            files,
            day_file_name(a),
        ),
        forall|n: Seq<char>|
            n != day_file_name(b) ==> #[trigger] file_in(run_on(files, day_file_name(b), op), n)
                == file_in(files, n),
        file_in(files, day_file_name(b)) is None ==> loaded(file_in(files, day_file_name(b)))
            == Counter::zero_spec(),
{
    lemma_distinct_day_files(a, b);
}

} // verus!
