//! The function registry and the dispatcher of one run request.
use crate::function::{
    Function, Input, InputCtx, ServableFn, Step, StepRetry, StepRuntime, Trigger,
};
use crate::step_tool::{
    fresh_state, memo_view, Error, Operation, StepError, StepState, StepTool,
};
use serde_json::Value;
use vstd::prelude::*;
use vstd::string::StringExecFns;

verus! {

/// The query of a run request: which function to run.
pub struct RunQueryParams {
    pub fn_id: String,
}

/// The query of an invocation, under the name the router uses.
pub type InvokeQuery = RunQueryParams;

/// The call stack the orchestrator reports.
pub struct InvokeBodyCtxStack {
    pub current: u32,
    pub stack: Vec<String>,
}

/// The context part of a run request.
pub struct InvokeBodyCtx {
    pub attempt: u8,
    pub disable_immediate_execution: bool,
    pub env: String,
    pub fn_id: String,
    pub run_id: String,
    pub step_id: String,
    pub stack: InvokeBodyCtxStack,
}

/// A run request. `steps` is the memo, in the order received: step name and
/// completed value, `None` where the step holds no value.
pub struct InvokeBody<T> {
    pub ctx: InvokeBodyCtx,
    pub event: T,
    pub events: Vec<T>,
    pub steps: Vec<(String, Option<Value>)>,
    pub use_api: bool,
    pub version: i32,
}

/// The body of a response.
pub enum ResponseBody {
    /// The function's return value.
    Json(Value),
    /// The operation discovered this round.
    Pending(Operation),
    /// The step that failed this round.
    Failed(StepError),
    /// Nothing to report: the orchestrator calls again.
    Null,
    /// A description of a request, lookup or runtime failure.
    Message(String),
}

/// What one dispatch reports to the orchestrator.
pub struct SdkResponse {
    pub status: u16,
    pub body: ResponseBody,
}

pub enum BodyView {
    Json(Value),
    Pending(Seq<char>, Value),
    Failed(Seq<char>, Seq<char>),
    Null,
    Message(Seq<char>),
}

impl View for SdkResponse {
    type V = (u16, BodyView);

    open spec fn view(&self) -> (u16, BodyView) {
        (
            self.status,
            match self.body {
                ResponseBody::Json(v) => BodyView::Json(v),
                ResponseBody::Pending(op) => BodyView::Pending(op.name@, op.data),
                ResponseBody::Failed(e) => BodyView::Failed(e.name@, e.message@),
                ResponseBody::Null => BodyView::Null,
                ResponseBody::Message(m) => BodyView::Message(m@),
            },
        )
    }
}

/// The response to a round whose function gave `res`, with the step tool
/// left in state `s`.
pub open spec fn response_spec(res: Result<Value, Error>, s: StepState) -> (u16, BodyView) {
    match res {
        Ok(v) => (200, BodyView::Json(v)),
        Err(Error::Interrupt) => match s.error {
            Some(e) => (500, BodyView::Failed(e.0, e.1)),
            None => match s.pending {
                Some(op) => (206, BodyView::Pending(op.0, op.1)),
                None => (206, BodyView::Null),
            },
        },
        Err(Error::Basic(m)) => (500, BodyView::Message(m@)),
    }
}

/// Classifies the end of a round into the response.
pub fn classify(res: Result<Value, Error>, tool: StepTool) -> (r: SdkResponse)
    ensures
        r@ == response_spec(res, tool@),
{
    match res {
        Ok(v) => SdkResponse { status: 200, body: ResponseBody::Json(v) },
        Err(Error::Interrupt) => {
            let (pending, error) = tool.into_parts();
            match error {
                Some(e) => SdkResponse { status: 500, body: ResponseBody::Failed(e) },
                None => match pending {
                    Some(op) => SdkResponse { status: 206, body: ResponseBody::Pending(op) },
                    None => SdkResponse { status: 206, body: ResponseBody::Null },
                },
            }
        },
        Err(Error::Basic(m)) => SdkResponse { status: 500, body: ResponseBody::Message(m) },
    }
}

impl SdkResponse {
    /// The response to a request body that does not match the schema.
    pub fn request_error(message: String) -> (r: SdkResponse)
        ensures
            r@ == (400u16, BodyView::Message(message@)),
    {
        SdkResponse { status: 400, body: ResponseBody::Message(message) }
    }

    /// The response to a runtime fault of user code.
    pub fn fault(description: String) -> (r: SdkResponse)
        ensures
            r@ == (500u16, BodyView::Message(description@)),
    {
        SdkResponse { status: 500, body: ResponseBody::Message(description) }
    }
}

/// The last index of `k` in `keys`.
pub open spec fn last_index_of(keys: Seq<Seq<char>>, k: Seq<char>) -> Option<int>
    decreases keys.len(),
{
    if keys.len() == 0 {
        None
    } else if keys.last() == k {
        Some(keys.len() - 1)
    } else {
        last_index_of(keys.drop_last(), k)
    }
}

/// A found index is in range and holds the key.
pub proof fn lemma_last_index_of(keys: Seq<Seq<char>>, k: Seq<char>)
    ensures
        match last_index_of(keys, k) {
            Some(j) => 0 <= j < keys.len() && keys[j] == k,
            None => forall|i: int| 0 <= i < keys.len() ==> keys[i] != k,
        },
    decreases keys.len(),
{
    if keys.len() > 0 && keys.last() != k {
        lemma_last_index_of(keys.drop_last(), k);
        if last_index_of(keys, k) is None {
            assert forall|i: int| 0 <= i < keys.len() implies keys[i] != k by {
                if i < keys.len() - 1 {
                    assert(keys.drop_last()[i] == keys[i]);
                }
            }
        }
    }
}

pub open spec fn slugs<T, F>(funcs: Seq<ServableFn<T, F>>) -> Seq<Seq<char>> {
    funcs.map_values(|f: ServableFn<T, F>| f.slug_spec())
}

/// No two registered functions share a slug.
pub open spec fn unique_slugs<T, F>(funcs: Seq<ServableFn<T, F>>) -> bool {
    forall|i: int, j: int|
        0 <= i < j < funcs.len() ==> #[trigger] funcs[i].slug_spec() != #[trigger] funcs[j].slug_spec()
}

pub open spec fn not_found_message(fn_id: Seq<char>) -> Seq<char> {
    "no function registered as ID: "@ + fn_id
}

/// The registration URL of the step of a function.
pub open spec fn step_url(serve_url: Seq<char>, slug: Seq<char>) -> Seq<char> {
    serve_url + "?fnId="@ + slug + "&step=step"@
}

/// The registration entry of a function served at `serve_url`.
pub open spec fn function_entry<T, F>(f: ServableFn<T, F>, serve_url: Seq<char>, r: Function) -> bool {
    &&& r.id@ == f.slug_spec()
    &&& r.name@ == f.slug_spec()
    &&& r.triggers@ == seq![f.trigger]
    &&& r.steps@.len() == 1
    &&& r.steps@[0].id@ == "step"@
    &&& r.steps@[0].name@ == "step"@
    &&& r.steps@[0].runtime.url@ == step_url(serve_url, f.slug_spec())
    &&& r.steps@[0].runtime.method@ == "http"@
    &&& r.steps@[0].retries.attempts == f.opts.retries
}

/// The registry of functions of one app.
pub struct Handler<T, F> {
    app_name: String,
    funcs: Vec<ServableFn<T, F>>,
}

impl<T, F> Handler<T, F> {
    pub closed spec fn name_spec(&self) -> Seq<char> {
        self.app_name@
    }

    /// The registered functions, in the order of registration.
    pub closed spec fn registered(&self) -> Seq<ServableFn<T, F>> {
        self.funcs@
    }

    pub fn new() -> (r: Self)
        ensures
            r.name_spec() == "InngestApp"@,
            r.registered().len() == 0,
            unique_slugs(r.registered()),
    {
        Handler { app_name: String::from_str("InngestApp"), funcs: Vec::new() }
    }

    pub fn set_name(&mut self, name: &str)
        ensures
            final(self).name_spec() == name@,
            final(self).registered() == old(self).registered(),
    {
        self.app_name = String::from_str(name);
    }

    pub fn app_name(&self) -> (r: &String)
        ensures
            r@ == self.name_spec(),
    {
        &self.app_name
    }

    /// The index of the function registered under `slug`.
    fn find(&self, slug: &String) -> (r: Option<usize>)
        ensures
            match last_index_of(slugs(self.registered()), slug@) {
                Some(j) => r is Some && r->Some_0 as int == j,
                None => r is None,
            },
    {
        let ghost keys = slugs(self.funcs@);
        let mut i: usize = self.funcs.len();
        assert(keys.take(i as int) == keys);
        while i > 0
            invariant
                i <= self.funcs@.len(),
                keys == slugs(self.funcs@),
                last_index_of(keys, slug@) == last_index_of(keys.take(i as int), slug@),
            decreases i,
        {
            assert(keys.take(i as int).drop_last() == keys.take(i - 1));
            let s = self.funcs[i - 1].slug();
            if s == *slug {
                return Some(i - 1);
            }
            i = i - 1;
        }
        None
    }

    /// The function registered under `slug`.
    pub fn lookup(&self, slug: &String) -> (r: Option<&ServableFn<T, F>>)
        ensures
            match last_index_of(slugs(self.registered()), slug@) {
                Some(j) => r is Some && *r->Some_0 == self.registered()[j],
                None => r is None,
            },
    {
        proof {
            lemma_last_index_of(slugs(self.registered()), slug@);
            assert(slugs(self.registered()).len() == self.registered().len());
        }
        match self.find(slug) {
            Some(j) => {
                let f = &self.funcs[j];
                assert(*f == self.registered()[j as int]);
                Some(f)
            },
            None => None,
        }
    }

    /// Registers `func` under its slug. A function already registered under
    /// that slug is replaced, and the result says so.
    pub fn register_fn(&mut self, func: ServableFn<T, F>) -> (replaced: bool)
        ensures
            final(self).name_spec() == old(self).name_spec(),
            unique_slugs(old(self).registered()) ==> unique_slugs(final(self).registered()),
            match last_index_of(slugs(old(self).registered()), func.slug_spec()) {
                Some(j) => replaced && final(self).registered() == old(self).registered().update(
                    j,
                    func,
                ),
                None => !replaced && final(self).registered() == old(self).registered().push(
                    func,
                ),
            },
    {
        let slug = func.slug();
        proof {
            let keys = slugs(self.registered());
            lemma_last_index_of(keys, slug@);
            assert(keys.len() == self.registered().len());
            assert forall|i: int| 0 <= i < keys.len() implies keys[i] == #[trigger] self.registered()[i].slug_spec() by {}
        }
        match self.find(&slug) {
            Some(j) => {
                self.funcs.set(j, func);
                true
            },
            None => {
                self.funcs.push(func);
                false
            },
        }
    }

    /// The registration entries of all functions, each with one step served
    /// under `serve_url`.
    pub fn functions(&self, serve_url: &str) -> (r: Vec<Function>)
        ensures
            r@.len() == self.registered().len(),
            forall|i: int|
                0 <= i < r@.len() ==> function_entry(self.registered()[i], serve_url@, #[trigger] r@[i]),
    {
        let mut out: Vec<Function> = Vec::new();
        let mut i: usize = 0;
        while i < self.funcs.len()
            invariant
                i <= self.funcs@.len(),
                out@.len() == i,
                forall|k: int| 0 <= k < i ==> function_entry(self.funcs@[k], serve_url@, #[trigger] out@[k]),
            decreases self.funcs@.len() - i,
        {
            let f = &self.funcs[i];
            let slug = f.slug();
            let mut url = String::from_str(serve_url);
            url.append("?fnId=");
            url.append(slug.as_str());
            url.append("&step=step");
            let step = Step {
                id: String::from_str("step"),
                name: String::from_str("step"),
                runtime: StepRuntime { url, method: String::from_str("http") },
                retries: StepRetry { attempts: f.opts.retries },
            };
            let mut steps: Vec<Step> = Vec::new();
            steps.push(step);
            let mut triggers: Vec<Trigger> = Vec::new();
            triggers.push(f.trigger());
            let entry = Function { id: slug.clone(), name: slug, triggers, steps };
            assert(entry.triggers@ == seq![f.trigger]);
            out.push(entry);
            i = i + 1;
        }
        out
    }
}

impl<T, F: Fn(Input<T>, StepTool) -> (Result<Value, Error>, StepTool)> Handler<T, F> {
    /// Every registered entry point accepts every input.
    pub open spec fn callable(&self) -> bool {
        forall|i: int, a: (Input<T>, StepTool)|
            0 <= i < self.registered().len() ==> #[trigger] self.registered()[i].func.requires(a)
    }

    /// Runs one round of the function that `query` names.
    ///
    /// An unknown function gives 404 and nothing runs. Otherwise the entry
    /// point runs once, on the request's event and a fresh step tool seeded
    /// from the memo, and its result is classified.
    pub fn run(&self, query: &RunQueryParams, body: InvokeBody<T>) -> (r: SdkResponse)
        requires
            self.callable(),
        ensures
            match last_index_of(slugs(self.registered()), query.fn_id@) {
                None => r@ == (404u16, BodyView::Message(not_found_message(query.fn_id@))),
                Some(j) => exists|input: Input<T>, tool: StepTool, out: (Result<Value, Error>, StepTool)|
                    {
                        &&& #[trigger] self.registered()[j].func.ensures((input, tool), out)
                        &&& input.event == body.event
                        &&& input.events == body.events
                        &&& input.ctx.env == body.ctx.env
                        &&& input.ctx.fn_id@ == query.fn_id@
                        &&& input.ctx.run_id == body.ctx.run_id
                        &&& input.ctx.step_id@ == "step"@
                        &&& input.ctx.attempt == body.ctx.attempt
                        &&& tool@ == fresh_state(memo_view(body.steps@))
                        &&& r@ == response_spec(out.0, out.1@)
                    },
            },
    {
        let func = match self.lookup(&query.fn_id) {
            Some(f) => f,
            None => {
                let mut message = String::from_str("no function registered as ID: ");
                message.append(query.fn_id.as_str());
                return SdkResponse { status: 404, body: ResponseBody::Message(message) };
            },
        };
        let ctx = InputCtx {
            env: body.ctx.env,
            fn_id: query.fn_id.clone(),
            run_id: body.ctx.run_id,
            step_id: String::from_str("step"),
            attempt: body.ctx.attempt,
        };
        let input = Input { event: body.event, events: body.events, ctx };
        let tool = StepTool::new(body.steps);
        let ghost (input0, tool0) = (input, tool);
        let ghost j = last_index_of(slugs(self.registered()), query.fn_id@)->Some_0;
        proof {
            lemma_last_index_of(slugs(self.registered()), query.fn_id@);
            assert(slugs(self.registered()).len() == self.registered().len());
        }
        assert(self.registered()[j].func.requires((input, tool)));
        let out = func.invoke(input, tool);
        let ghost out0 = out;
        let (res, tool) = out;
        let r = classify(res, tool);
        assert(self.registered()[j].func.ensures((input0, tool0), out0));
        r
    }
}

} // verus!
