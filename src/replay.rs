//! Laws of the replay model, over the step tool's and the dispatcher's specs.
use crate::function::ServableFn;
use crate::handler::{last_index_of, response_spec, slugs, BodyView};
use crate::step_tool::{after_step, fresh_state, memo_lookup, step_action, Error, StepAction, StepState};
use serde_json::Value;
use vstd::prelude::*;

verus! {

/// A step completed in the memo is replayed every time it is reached: its
/// closure never runs, the state is unchanged, and the second call hands back
/// the same memoized value as the first.
pub proof fn lemma_replay_idempotent(
    s: StepState,
    name: Seq<char>,
    first: Result<Value, Seq<char>>,
    second: Result<Value, Seq<char>>,
)
    requires
        memo_lookup(s.memo, name) is Some,
    ensures
        step_action(s, name) == StepAction::Replay(memo_lookup(s.memo, name)->Some_0),
        after_step(s, name, first) == s,
        step_action(after_step(s, name, first), name) == StepAction::Replay(
            memo_lookup(s.memo, name)->Some_0,
        ),
        after_step(after_step(s, name, first), name, second) == s,
{
}

/// Once a round has discovered an operation or a failed step, no later step
/// of that round runs or changes what is reported.
pub proof fn lemma_first_discovery_kept(s: StepState, name: Seq<char>, out: Result<Value, Seq<char>>)
    requires
        s.pending is Some || s.error is Some,
    ensures
        step_action(s, name) != StepAction::Execute,
        after_step(s, name, out) == s,
{
}

/// A function that runs the new steps `a` then `b` reports exactly `a` in its
/// first round; once `a` is memoized, it reports exactly `b`.
pub proof fn lemma_one_new_step_per_round(
    memo: Seq<(Seq<char>, Option<Value>)>,
    a: Seq<char>,
    b: Seq<char>,
    va: Value,
    vb: Value,
    out_b: Result<Value, Seq<char>>,
)
    requires
        a != b,
        memo_lookup(memo, a) is None,
        memo_lookup(memo, b) is None,
    ensures
        step_action(fresh_state(memo), a) == StepAction::Execute,
        step_action(after_step(fresh_state(memo), a, Ok(va)), b) == StepAction::Skip,
        response_spec(
            Err(Error::Interrupt),
            after_step(after_step(fresh_state(memo), a, Ok(va)), b, out_b),
        ) == (206u16, BodyView::Pending(a, va)),
        step_action(fresh_state(memo.push((a, Some(va)))), a) == StepAction::Replay(va),
        step_action(fresh_state(memo.push((a, Some(va)))), b) == StepAction::Execute,
        response_spec(
            Err(Error::Interrupt),
            after_step(after_step(fresh_state(memo.push((a, Some(va)))), a, out_b), b, Ok(vb)),
        ) == (206u16, BodyView::Pending(b, vb)),
{
    let m2 = memo.push((a, Some(va)));
    assert(m2.drop_last() == memo);
    assert(m2.last() == (a, Some(va)));
}

/// A function that runs no step completes in one round with its return value.
pub proof fn lemma_terminal_completion(v: Value, s: StepState)
    ensures
        response_spec(Ok(v), s) == (200u16, BodyView::Json(v)),
{
}

/// A failed step is reported with its error, is not added to the memo, and
/// runs again in the next round.
pub proof fn lemma_step_failure_not_memoized(
    memo: Seq<(Seq<char>, Option<Value>)>,
    name: Seq<char>,
    e: Seq<char>,
)
    requires
        memo_lookup(memo, name) is None,
    ensures
        response_spec(Err(Error::Interrupt), after_step(fresh_state(memo), name, Err(e))) == (
            500u16,
            BodyView::Failed(name, e),
        ),
        after_step(fresh_state(memo), name, Err(e)).memo == memo,
        step_action(fresh_state(after_step(fresh_state(memo), name, Err(e)).memo), name)
            == StepAction::Execute,
{
}

/// After a function is registered, looking up its slug finds it.
pub proof fn lemma_register_then_lookup<T, F>(funcs: Seq<ServableFn<T, F>>, func: ServableFn<T, F>)
    ensures
        match last_index_of(slugs(funcs), func.slug_spec()) {
            Some(j) => last_index_of(slugs(funcs.update(j, func)), func.slug_spec()) == Some(j)
                && funcs.update(j, func)[j] == func,
            None => last_index_of(slugs(funcs.push(func)), func.slug_spec()) == Some(
                funcs.len() as int,
            ) && funcs.push(func)[funcs.len() as int] == func,
        },
{
    crate::handler::lemma_last_index_of(slugs(funcs), func.slug_spec());
    match last_index_of(slugs(funcs), func.slug_spec()) {
        Some(j) => {
            assert(slugs(funcs.update(j, func)) == slugs(funcs));
        },
        None => {
            assert(slugs(funcs.push(func)).drop_last() == slugs(funcs));
        },
    }
}

} // verus!
