//! The step tool: memoized durable steps and the suspension signal.
use serde_json::Value;
use vstd::prelude::*;

verus! {

/// Why user code stopped before returning a value.
pub enum Error {
    /// The step tool asks the caller to checkpoint now. This is control flow,
    /// not a failure.
    Interrupt,
    /// The function failed on its own account, outside any step.
    Basic(String),
}

/// What a newly discovered operation asks the orchestrator to do.
#[derive(Clone, Copy, PartialEq, Eq, Structural)]
pub enum OpKind {
    /// Persist the output of a step that ran in this round.
    StepRun,
}

/// An operation discovered in this round, to be persisted by the orchestrator.
pub struct Operation {
    pub kind: OpKind,
    pub name: String,
    pub data: Value,
}

/// A step whose producing closure failed in this round.
pub struct StepError {
    pub name: String,
    pub message: String,
}

/// The mathematical state of a step tool.
pub struct StepState {
    /// The memo in the order the orchestrator sent it; a later entry for a
    /// name overrides an earlier one. `None` means no completed value.
    pub memo: Seq<(Seq<char>, Option<Value>)>,
    /// The operation discovered this round: step name and produced value.
    pub pending: Option<(Seq<char>, Value)>,
    /// The step that failed this round: step name and error message.
    pub error: Option<(Seq<char>, Seq<char>)>,
}

/// The value the memo holds for `name`, if the step is completed.
pub open spec fn memo_lookup(memo: Seq<(Seq<char>, Option<Value>)>, name: Seq<char>) -> Option<
    Value,
>
    decreases memo.len(),
{
    if memo.len() == 0 {
        None
    } else if memo.last().0 == name {
        memo.last().1
    } else {
        memo_lookup(memo.drop_last(), name)
    }
}

/// The state a step tool starts a round in.
pub open spec fn fresh_state(memo: Seq<(Seq<char>, Option<Value>)>) -> StepState {
    StepState { memo, pending: None, error: None }
}

/// What `StepTool::run` does with a step of the given name.
pub enum StepAction {
    /// The step is completed in the memo: hand back its value.
    Replay(Value),
    /// The step is new and nothing else was discovered this round: run it.
    Execute,
    /// The step is new but another step already stopped this round.
    Skip,
}

/// What a step of the given name does in state `s`.
pub open spec fn step_action(s: StepState, name: Seq<char>) -> StepAction {
    match memo_lookup(s.memo, name) {
        Some(v) => StepAction::Replay(v),
        None => if s.pending is None && s.error is None {
            StepAction::Execute
        } else {
            StepAction::Skip
        },
    }
}

/// The state after a step of the given name, whose closure would give `out`
/// if it ran.
pub open spec fn after_step(s: StepState, name: Seq<char>, out: Result<Value, Seq<char>>) -> StepState {
    match step_action(s, name) {
        StepAction::Execute => match out {
            Ok(v) => StepState { pending: Some((name, v)), ..s },
            Err(e) => StepState { error: Some((name, e)), ..s },
        },
        _ => s,
    }
}

/// A closure's result, with the error message as text.
pub open spec fn result_view(out: Result<Value, String>) -> Result<Value, Seq<char>> {
    match out {
        Ok(v) => Ok(v),
        Err(e) => Err(e@),
    }
}

/// The per-invocation step state. Each invocation owns its own tool.
pub struct StepTool {
    memo: Vec<(String, Option<Value>)>,
    pending: Option<Operation>,
    error: Option<StepError>,
}

/// The memo as step names and values.
pub open spec fn memo_view(memo: Seq<(String, Option<Value>)>) -> Seq<(Seq<char>, Option<Value>)> {
    memo.map_values(|e: (String, Option<Value>)| (e.0@, e.1))
}

pub open spec fn pending_view(op: Option<Operation>) -> Option<(Seq<char>, Value)> {
    match op {
        Some(op) => Some((op.name@, op.data)),
        None => None,
    }
}

pub open spec fn error_view(e: Option<StepError>) -> Option<(Seq<char>, Seq<char>)> {
    match e {
        Some(e) => Some((e.name@, e.message@)),
        None => None,
    }
}

impl View for StepTool {
    type V = StepState;

    closed spec fn view(&self) -> StepState {
        StepState {
            memo: memo_view(self.memo@),
            pending: pending_view(self.pending),
            error: error_view(self.error),
        }
    }
}

impl StepTool {
    /// A tool for one round, seeded from the orchestrator's memo.
    pub fn new(memo: Vec<(String, Option<Value>)>) -> (r: StepTool)
        ensures
            r@ == fresh_state(memo_view(memo@)),
    {
        StepTool { memo, pending: None, error: None }
    }

    /// The completed value that the memo holds for `name`.
    fn completed(&self, name: &String) -> (r: Option<Value>)
        ensures
            r == memo_lookup(self@.memo, name@),
    {
        let ghost m = self@.memo;
        let mut i: usize = self.memo.len();
        assert(m.take(i as int) == m);
        while i > 0
            invariant
                i <= self.memo@.len(),
                m == memo_view(self.memo@),
                memo_lookup(m, name@) == memo_lookup(m.take(i as int), name@),
            decreases i,
        {
            let entry = &self.memo[i - 1];
            assert(m.take(i as int).drop_last() == m.take(i - 1));
            if entry.0 == *name {
                return match &entry.1 {
                    Some(v) => Some(v.clone()),
                    None => None,
                };
            }
            i = i - 1;
        }
        None
    }

    /// Ends the round: the operation discovered and the step error recorded.
    pub fn into_parts(self) -> (r: (Option<Operation>, Option<StepError>))
        ensures
            pending_view(r.0) == self@.pending,
            error_view(r.1) == self@.error,
    {
        (self.pending, self.error)
    }

    /// Runs the durable step `name`, whose side effects are produced by `f`.
    ///
    /// A step completed in the memo hands back its stored value and `f` does
    /// not run. A new step runs `f` only when nothing else stopped this round;
    /// its output, or its error, is recorded and the interrupt is returned so
    /// that the caller unwinds to the dispatcher.
    pub fn run<F: FnOnce() -> Result<Value, String>>(&mut self, name: &str, f: F) -> (r: Result<
        Value,
        Error,
    >)
        requires
            f.requires(()),
        ensures
            match step_action(old(self)@, name@) {
                StepAction::Replay(v) => r == Ok::<Value, Error>(v) && final(self)@ == old(self)@,
                StepAction::Skip => r == Err::<Value, Error>(Error::Interrupt) && final(self)@
                    == old(self)@,
                StepAction::Execute => r == Err::<Value, Error>(Error::Interrupt) && exists|
                    out: Result<Value, String>,
                |
                    #[trigger] f.ensures((), out) && final(self)@ == after_step(
                        old(self)@,
                        name@,
                        result_view(out),
                    ),
            },
    {
        let key = name.to_owned();
        match self.completed(&key) {
            Some(v) => Ok(v),
            None => {
                if self.pending.is_some() || self.error.is_some() {
                    return Err(Error::Interrupt);
                }
                let out = f();
                let ghost produced = out;
                match out {
                    Ok(v) => {
                        self.pending = Some(Operation { kind: OpKind::StepRun, name: key, data: v });
                    },
                    Err(e) => {
                        self.error = Some(StepError { name: key, message: e });
                    },
                }
                assert(f.ensures((), produced));
                Err(Error::Interrupt)
            },
        }
    }
}

} // verus!
