//! Function definitions, their options, and the registration payload shapes.
use crate::step_tool::{Error, StepTool};
use serde_json::Value;
use vstd::prelude::*;

verus! {

/// What the orchestrator calls the function on.
pub enum Trigger {
    EventTrigger { event: String, expression: Option<String> },
    CronTrigger { cron: String },
}

impl Trigger {
    /// A copy of this trigger, equal to it.
    pub fn duplicate(&self) -> (r: Trigger)
        ensures
            r == *self,
    {
        match self {
            Trigger::EventTrigger { event, expression } => Trigger::EventTrigger {
                event: event.clone(),
                expression: match expression {
                    Some(e) => Some(e.clone()),
                    None => None,
                },
            },
            Trigger::CronTrigger { cron } => Trigger::CronTrigger { cron: cron.clone() },
        }
    }
}

/// Options a function is defined with.
pub struct FunctionOps {
    /// An explicit slug; when absent the slug is derived from the name.
    pub id: Option<String>,
    pub name: String,
    /// How many times the orchestrator retries a failed step.
    pub retries: u8,
}

impl Default for FunctionOps {
    fn default() -> (r: FunctionOps)
        ensures
            r.id is None,
            r.name@ == Seq::<char>::empty(),
            r.retries == 3,
    {
        FunctionOps { id: None, name: String::new(), retries: 3 }
    }
}

/// The context handed to a function for one round.
pub struct InputCtx {
    pub env: String,
    pub fn_id: String,
    pub run_id: String,
    pub step_id: String,
    pub attempt: u8,
}

/// What a function is invoked with: the triggering event, the event batch
/// and the round's context.
pub struct Input<T> {
    pub event: T,
    pub events: Vec<T>,
    pub ctx: InputCtx,
}

/// A registered function. `func` is its entry point: it takes the input and
/// the round's step tool, and hands the tool back with its result.
pub struct ServableFn<T, F> {
    pub opts: FunctionOps,
    pub trigger: Trigger,
    pub event: T,
    pub func: F,
}

/// The name the slugifier gives to a function name.
pub uninterp spec fn slug_of(s: Seq<char>) -> Seq<char>;

/// Relies on `slug::slugify`, which lowers the name to ASCII letters, digits
/// and dashes; its result depends on the text alone.
#[verifier::external_body]
fn slugify(s: &String) -> (r: String)
    ensures
        r@ == slug_of(s@),
{
    slug::slugify(s)
}

impl<T, F> ServableFn<T, F> {
    /// The slug a function is registered and looked up under.
    pub open spec fn slug_spec(&self) -> Seq<char> {
        match self.opts.id {
            Some(id) => id@,
            None => slug_of(self.opts.name@),
        }
    }

    pub fn slug(&self) -> (r: String)
        ensures
            r@ == self.slug_spec(),
    {
        match &self.opts.id {
            Some(id) => id.clone(),
            None => slugify(&self.opts.name),
        }
    }

    pub fn name(&self) -> (r: String)
        ensures
            r == self.opts.name,
    {
        self.opts.name.clone()
    }

    pub fn trigger(&self) -> (r: Trigger)
        ensures
            r == self.trigger,
    {
        self.trigger.duplicate()
    }

    pub fn event(&self) -> (r: &T)
        ensures
            *r == self.event,
    {
        &self.event
    }
}

impl<T, F: Fn(Input<T>, StepTool) -> (Result<Value, Error>, StepTool)> ServableFn<T, F> {
    /// Calls the entry point.
    pub fn invoke(&self, input: Input<T>, tool: StepTool) -> (r: (Result<Value, Error>, StepTool))
        requires
            self.func.requires((input, tool)),
        ensures
            self.func.ensures((input, tool), r),
    {
        (self.func)(input, tool)
    }
}

/// Defines a function from its options, trigger and entry point.
pub fn create_function<T: Default, F>(opts: FunctionOps, trigger: Trigger, func: F) -> (r:
    ServableFn<T, F>)
    ensures
        r.opts == opts,
        r.trigger == trigger,
        r.func == func,
{
    ServableFn { opts, trigger, event: T::default(), func }
}

/// How a step is reached over the network.
pub struct StepRuntime {
    pub url: String,
    pub method: String,
}

/// The retry policy of a step.
pub struct StepRetry {
    pub attempts: u8,
}

/// A step entry of the registration payload.
pub struct Step {
    pub id: String,
    pub name: String,
    pub runtime: StepRuntime,
    pub retries: StepRetry,
}

/// A function entry of the registration payload. Step ids are unique.
pub struct Function {
    pub id: String,
    pub name: String,
    pub triggers: Vec<Trigger>,
    pub steps: Vec<Step>,
}

} // verus!
