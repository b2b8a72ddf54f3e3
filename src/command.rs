use vstd::prelude::*;

use crate::call_definition::{CallDefinition, NESTING_LIMIT, call_blocks, closure_blocks};
use crate::errors::{CrushError, CrushResult};
use crate::job::Job;
use crate::scope::{ScopeTree, find_local};
use crate::value::{Argument, ArgumentDefinition, Value, any_blocks, same_call, same_closure, same_jobs};

verus! {

/// Everything one invocation of a command works with: its resolved
/// arguments, its channel endpoints, the scope it runs in and the
/// diagnostic sink.
pub struct ExecutionContext<I, O, P> {
    pub input: I,
    pub output: O,
    pub arguments: Vec<Argument>,
    pub env: usize,
    pub printer: P,
}

/// The context of a command that receives its arguments as a stream of rows.
pub struct StreamExecutionContext<S, O, P> {
    pub argument_stream: S,
    pub output: O,
    pub env: usize,
    pub printer: P,
}

/// The capability shared by every kind of callable: whether a call of it,
/// with the given unresolved arguments, may block on a channel.
pub trait CrushCommand {
    spec fn blocks(&self, arguments: Seq<ArgumentDefinition>, tree: ScopeTree, scope: int) -> bool;

    fn can_block(&self, arguments: &Vec<ArgumentDefinition>, tree: &ScopeTree, scope: usize) -> (r: bool)
        requires
            tree.wf(),
            scope < tree@.len(),
        ensures
            r == self.blocks(arguments@, *tree, scope as int),
    ;
}

/// A native command: the id of a built-in function and whether it declared
/// at registration that it may block.
#[derive(Clone, Copy, Debug)]
pub struct SimpleCommand {
    pub call: u64,
    pub can_block: bool,
}

impl SimpleCommand {
    pub fn new(call: u64, can_block: bool) -> (r: SimpleCommand)
        ensures
            r.call == call,
            r.can_block == can_block,
    {
        SimpleCommand { call, can_block }
    }
}

impl CrushCommand for SimpleCommand {
    open spec fn blocks(&self, arguments: Seq<ArgumentDefinition>, tree: ScopeTree, scope: int) -> bool {
        self.can_block
    }

    fn can_block(&self, arguments: &Vec<ArgumentDefinition>, tree: &ScopeTree, scope: usize) -> (r: bool) {
        self.can_block
    }
}

/// No two command values are equal, not even two built from one definition.
impl PartialEq for SimpleCommand {
    fn eq(&self, other: &SimpleCommand) -> (r: bool)
        ensures
            !r,
    {
        false
    }
}

impl vstd::std_specs::cmp::PartialEqSpecImpl for SimpleCommand {
    open spec fn obeys_eq_spec() -> bool {
        false
    }

    open spec fn eq_spec(&self, other: &SimpleCommand) -> bool {
        false
    }
}

impl Eq for SimpleCommand {}

/// A native control-flow command: it never blocks by itself, only through
/// its operands.
#[derive(Clone, Copy, Debug)]
pub struct ConditionCommand {
    pub call: u64,
}

impl ConditionCommand {
    pub fn new(call: u64) -> (r: ConditionCommand)
        ensures
            r.call == call,
    {
        ConditionCommand { call }
    }

    pub fn call(&self) -> (r: u64)
        ensures
            r == self.call,
    {
        self.call
    }
}

impl CrushCommand for ConditionCommand {
    open spec fn blocks(&self, arguments: Seq<ArgumentDefinition>, tree: ScopeTree, scope: int) -> bool {
        any_blocks(arguments)
    }

    fn can_block(&self, arguments: &Vec<ArgumentDefinition>, tree: &ScopeTree, scope: usize) -> (r: bool) {
        crate::value::arguments_can_block(arguments)
    }
}

/// No two command values are equal, not even two built from one definition.
impl PartialEq for ConditionCommand {
    fn eq(&self, other: &ConditionCommand) -> (r: bool)
        ensures
            !r,
    {
        false
    }
}

impl vstd::std_specs::cmp::PartialEqSpecImpl for ConditionCommand {
    open spec fn obeys_eq_spec() -> bool {
        false
    }

    open spec fn eq_spec(&self, other: &ConditionCommand) -> bool {
        false
    }
}

impl Eq for ConditionCommand {}

/// A user-defined command: an ordered chain of stages and the scope it was
/// defined in.
#[derive(Debug)]
pub struct Closure {
    pub job_definitions: Vec<Job>,
    pub env: usize,
}

/// The bindings of a scope that holds `bindings` after each named argument,
/// in order, was declared there: a declaration into a locked scope, or of a
/// name the scope already binds, changes nothing.
pub open spec fn declare_named(bindings: Seq<(String, Value)>, readonly: bool, arguments: Seq<Argument>) -> Seq<
    (String, Value),
>
    decreases arguments.len(),
{
    if arguments.len() == 0 {
        bindings
    } else {
        let before = declare_named(bindings, readonly, arguments.drop_last());
        match arguments.last().name {
            Some(n) => if !readonly && find_local(before, n@) is None {
                before.push((n, arguments.last().value))
            } else {
                before
            },
            None => before,
        }
    }
}

impl CrushCommand for Closure {
    open spec fn blocks(&self, arguments: Seq<ArgumentDefinition>, tree: ScopeTree, scope: int) -> bool {
        closure_blocks(tree, scope, *self, arguments, NESTING_LIMIT as nat)
    }

    fn can_block(&self, arguments: &Vec<ArgumentDefinition>, tree: &ScopeTree, scope: usize) -> (r: bool) {
        self.can_block_within(arguments, tree, scope, NESTING_LIMIT)
    }
}

/// A deep copy of each stage.
pub fn copy_jobs(v: &Vec<Job>) -> (r: Vec<Job>)
    ensures
        same_jobs(v@, r@),
    decreases v,
{
    let mut r: Vec<Job> = Vec::new();
    let mut i: usize = 0;
    while i < v.len()
        invariant
            i <= v.len(),
            r@.len() == i,
            forall|j: int| 0 <= j < i ==> same_call(#[trigger] v@[j].call, r@[j].call),
        decreases v.len() - i,
    {
        r.push(v[i].copy());
        i = i + 1;
    }
    r
}

impl Clone for Closure {
    fn clone(&self) -> Self {
        self.copy()
    }
}

impl Closure {
    /// A deep copy, capturing the same scope.
    pub fn copy(&self) -> (r: Closure)
        ensures
            same_closure(*self, r),
        decreases self,
    {
        Closure { job_definitions: copy_jobs(&self.job_definitions), env: self.env }
    }

    pub fn new(job_definitions: Vec<Job>, env: usize) -> (r: Closure)
        ensures
            r.job_definitions == job_definitions,
            r.env == env,
    {
        Closure { job_definitions, env }
    }

    /// A single stage blocks as its call does; a chain of several always
    /// needs a thread of its own.
    pub fn can_block_within(
        &self,
        arguments: &Vec<ArgumentDefinition>,
        tree: &ScopeTree,
        scope: usize,
        fuel: u32,
    ) -> (r: bool)
        requires
            tree.wf(),
            scope < tree@.len(),
        ensures
            r == closure_blocks(*tree, scope as int, *self, arguments@, fuel as nat),
        decreases fuel, 0nat,
    {
        if self.job_definitions.len() == 1 {
            if fuel == 0 {
                true
            } else {
                self.job_definitions[0].call.can_block_within(arguments, tree, scope, fuel - 1)
            }
        } else {
            true
        }
    }

    /// Declares every named argument in scope `env`, in order; where a
    /// declaration fails (the name is taken, the scope locked) the argument is
    /// skipped. Positional arguments bind nothing.
    pub fn push_arguments_to_env(arguments: Vec<Argument>, tree: &mut ScopeTree, env: usize)
        requires
            old(tree).wf(),
            env < old(tree)@.len(),
        ensures
            final(tree).wf(),
            final(tree)@.len() == old(tree)@.len(),
            forall|i: int| 0 <= i < old(tree)@.len() && i != env ==> final(tree)@[i] == old(tree)@[i],
            final(tree)@[env as int].bindings@ == declare_named(
                old(tree)@[env as int].bindings@,
                old(tree)@[env as int].readonly,
                arguments@,
            ),
            final(tree)@[env as int].parent == old(tree)@[env as int].parent,
            final(tree)@[env as int].uses == old(tree)@[env as int].uses,
            final(tree)@[env as int].stopped == old(tree)@[env as int].stopped,
            final(tree)@[env as int].readonly == old(tree)@[env as int].readonly,
    {
        let ghost all = arguments@;
        let n = arguments.len();
        assert(all.len() == n);
        let mut rest = arguments;
        let mut k: usize = 0;
        while rest.len() > 0
            invariant
                k <= all.len(),
                all.len() <= usize::MAX,
                k + rest@.len() == all.len(),
                rest@ == all.subrange(k as int, all.len() as int),
                tree.wf(),
                env < tree@.len(),
                tree@.len() == old(tree)@.len(),
                forall|i: int| 0 <= i < old(tree)@.len() && i != env ==> tree@[i] == old(tree)@[i],
                tree@[env as int].bindings@ == declare_named(
                    old(tree)@[env as int].bindings@,
                    old(tree)@[env as int].readonly,
                    all.subrange(0, k as int),
                ),
                tree@[env as int].parent == old(tree)@[env as int].parent,
                tree@[env as int].uses == old(tree)@[env as int].uses,
                tree@[env as int].stopped == old(tree)@[env as int].stopped,
                tree@[env as int].readonly == old(tree)@[env as int].readonly,
            decreases rest.len(),
        {
            let a = rest.remove(0);
            assert(all.subrange(0, k + 1).drop_last() =~= all.subrange(0, k as int));
            assert(all.subrange(0, k + 1).last() == a);
            match a.name {
                Some(n) => {
                    match tree.declare(env, n, a.value) {
                        Ok(()) => {},
                        Err(_) => {},
                    }
                },
                None => {},
            }
            k = k + 1;
        }
        assert(all.subrange(0, k as int) =~= all);
    }

    /// Begins an invocation: creates the closure's own scope below the scope
    /// it was defined in, stopped iff the caller's scope is, binds the named
    /// arguments there and returns that scope with the stage schedule.
    /// A closure without stages fails and changes nothing.
    pub fn enter(&self, tree: &mut ScopeTree, caller: usize, arguments: Vec<Argument>) -> (r: CrushResult<(usize, Pipeline)>)
        requires
            old(tree).wf(),
            self.env < old(tree)@.len(),
            caller < old(tree)@.len(),
        ensures
            self.job_definitions@.len() == 0 <==> r == Err::<(usize, Pipeline), CrushError>(CrushError::EmptyClosure),
            r is Ok <==> self.job_definitions@.len() > 0,
            r is Err ==> final(tree)@ == old(tree)@,
            r is Ok ==> {
                let (c, p) = r->Ok_0;
                &&& final(tree).wf()
                &&& c == old(tree)@.len()
                &&& final(tree)@.len() == c + 1
                &&& final(tree)@.subrange(0, c as int) == old(tree)@
                &&& final(tree)@[c as int].parent == Some(self.env)
                &&& final(tree)@[c as int].uses@.len() == 0
                &&& final(tree)@[c as int].stopped == old(tree)@[caller as int].stopped
                &&& !final(tree)@[c as int].readonly
                &&& final(tree)@[c as int].bindings@ == declare_named(Seq::empty(), false, arguments@)
                &&& p == Pipeline::start_spec(self.job_definitions@.len() as nat)
            },
    {
        let n = self.job_definitions.len();
        if n == 0 {
            return Err(CrushError::EmptyClosure);
        }
        let c = tree.create_child(self.env, caller);
        assert(tree@[c as int].bindings@ =~= Seq::<(String, Value)>::empty());
        Closure::push_arguments_to_env(arguments, tree, c);
        assert(tree@.subrange(0, c as int) =~= old(tree)@);
        Ok((c, Pipeline::new(n)))
    }
}

/// Where a stage reads from.
#[derive(Clone, Copy, Debug, PartialEq, Eq, Structural)]
pub enum StageInput {
    /// The input endpoint the closure itself was given.
    Caller,
    /// A channel that is already closed.
    Empty,
}

/// Where a stage writes to.
#[derive(Clone, Copy, Debug, PartialEq, Eq, Structural)]
pub enum StageOutput {
    /// The output endpoint the closure itself was given.
    Caller,
    /// A transient sink drained and printed in the background.
    Sink,
}

/// One step of the schedule: run stage `index` with these endpoints.
#[derive(Clone, Copy, Debug, PartialEq, Eq, Structural)]
pub struct Stage {
    pub index: usize,
    pub input: StageInput,
    pub output: StageOutput,
}

/// The wiring of stage `i` of `n`: the first stage reads the caller's
/// input, the last writes the caller's output, every other endpoint is
/// transient.
pub open spec fn stage_wiring(n: nat, i: nat) -> Stage {
    Stage {
        index: i as usize,
        input: if i == 0 { StageInput::Caller } else { StageInput::Empty },
        output: if i + 1 == n { StageOutput::Caller } else { StageOutput::Sink },
    }
}

/// The schedule of a closure's stages: strictly one after another, each
/// joined before the next starts, with the stop flag read before each.
#[derive(Clone, Copy, Debug, PartialEq, Eq, Structural)]
pub struct Pipeline {
    pub stages: usize,
    pub started: usize,
    pub finished: bool,
}

impl Pipeline {
    pub open spec fn start_spec(n: nat) -> Pipeline {
        Pipeline { stages: n as usize, started: 0, finished: false }
    }

    /// The schedule's answer when asked for the next stage, the stop flag
    /// reading `stopped`.
    pub open spec fn next_spec(self, stopped: bool) -> (Pipeline, Option<Stage>) {
        if self.finished || stopped || self.started >= self.stages {
            (Pipeline { finished: true, ..self }, None)
        } else {
            (
                Pipeline { started: (self.started + 1) as usize, ..self },
                Some(stage_wiring(self.stages as nat, self.started as nat)),
            )
        }
    }

    pub fn new(stages: usize) -> (r: Pipeline)
        ensures
            r == Pipeline::start_spec(stages as nat),
    {
        Pipeline { stages, started: 0, finished: false }
    }

    /// The next stage to run, given the stop flag as it reads now (before
    /// the first stage, or after the previous one was joined); `None` once
    /// the flag is set or every stage has run, and from then on.
    pub fn next_stage(&mut self, stopped: bool) -> (r: Option<Stage>)
        ensures
            (*final(self), r) == old(self).next_spec(stopped),
    {
        if self.finished || stopped || self.started >= self.stages {
            self.finished = true;
            return None;
        }
        let i = self.started;
        self.started = i + 1;
        let input = if i == 0 {
            StageInput::Caller
        } else {
            StageInput::Empty
        };
        let output = if i + 1 == self.stages {
            StageOutput::Caller
        } else {
            StageOutput::Sink
        };
        Some(Stage { index: i, input, output })
    }
}

/// A closure of one stage blocks as that stage does, analysed one level
/// deeper; so whenever the stage's own analysis says it blocks, so does the
/// closure's. A closure of any other number of stages always blocks.
pub proof fn closure_blocks_as_its_stage(
    cl: Closure,
    arguments: Seq<ArgumentDefinition>,
    tree: ScopeTree,
    scope: int,
)
    ensures
        cl.job_definitions@.len() == 1 ==> cl.blocks(arguments, tree, scope) == call_blocks(
            tree,
            scope,
            cl.job_definitions@[0].call,
            arguments,
            (NESTING_LIMIT - 1) as nat,
        ),
        cl.job_definitions@.len() == 1 && call_blocks(
            tree,
            scope,
            cl.job_definitions@[0].call,
            arguments,
            NESTING_LIMIT as nat,
        ) ==> cl.blocks(arguments, tree, scope),
        cl.job_definitions@.len() != 1 ==> cl.blocks(arguments, tree, scope),
{
    if cl.job_definitions@.len() == 1 {
        call_blocking_shrinks_with_depth(
            tree,
            scope,
            cl.job_definitions@[0].call,
            arguments,
            (NESTING_LIMIT - 1) as nat,
            NESTING_LIMIT as nat,
        );
    }
}

/// Analysing a call less deeply can only turn "does not block" into
/// "blocks": a call found to block at some depth blocks at every smaller one.
pub proof fn call_blocking_shrinks_with_depth(
    tree: ScopeTree,
    scope: int,
    call: CallDefinition,
    arg: Seq<ArgumentDefinition>,
    f: nat,
    g: nat,
)
    requires
        f <= g,
    ensures
        call_blocks(tree, scope, call, arg, g) ==> call_blocks(tree, scope, call, arg, f),
    decreases g, 1nat,
{
    match crate::call_definition::resolve_spec(tree, scope, call.command) {
        Some(Value::Closure(cl)) => {
            closure_blocking_shrinks_with_depth(tree, scope, cl, arg, f, g);
        },
        _ => {},
    }
}

/// The same for closures: blocking at some depth implies blocking at every
/// smaller one.
pub proof fn closure_blocking_shrinks_with_depth(
    tree: ScopeTree,
    scope: int,
    cl: Closure,
    arg: Seq<ArgumentDefinition>,
    f: nat,
    g: nat,
)
    requires
        f <= g,
    ensures
        closure_blocks(tree, scope, cl, arg, g) ==> closure_blocks(tree, scope, cl, arg, f),
    decreases g, 0nat,
{
    if cl.job_definitions@.len() == 1 && f > 0 {
        call_blocking_shrinks_with_depth(
            tree,
            scope,
            cl.job_definitions@[0].call,
            arg,
            (f - 1) as nat,
            (g - 1) as nat,
        );
    }
}

/// The stages a schedule hands out when the stop flag reads `stops[0]`,
/// `stops[1]`, ... at successive requests.
pub open spec fn drive(p: Pipeline, stops: Seq<bool>) -> Seq<Stage>
    decreases stops.len(),
{
    if stops.len() == 0 {
        Seq::empty()
    } else {
        let (q, s) = p.next_spec(stops[0]);
        match s {
            Some(st) => seq![st] + drive(q, stops.drop_first()),
            None => drive(q, stops.drop_first()),
        }
    }
}

/// A schedule that is finished, or has handed out every stage, hands out
/// nothing more.
pub proof fn finished_schedule_runs_nothing(p: Pipeline, stops: Seq<bool>)
    requires
        p.finished || p.started >= p.stages,
    ensures
        drive(p, stops).len() == 0,
    decreases stops.len(),
{
    if stops.len() > 0 {
        let (q, s) = p.next_spec(stops[0]);
        finished_schedule_runs_nothing(q, stops.drop_first());
    }
}

/// Once the stop flag reads set at request `k`, at most `k` stages have
/// been handed out, each of them one of the `k` that follow `p.started`,
/// each wired as its position in the chain asks.
pub proof fn stop_flag_ends_schedule(p: Pipeline, stops: Seq<bool>, k: int)
    requires
        0 <= k < stops.len(),
        stops[k],
    ensures
        drive(p, stops).len() <= k,
        forall|i: int|
            0 <= i < drive(p, stops).len() ==> {
                &&& p.started <= (#[trigger] drive(p, stops)[i]).index < p.started + k
                &&& drive(p, stops)[i] == stage_wiring(p.stages as nat, drive(p, stops)[i].index as nat)
            },
    decreases k,
{
    let (q, s) = p.next_spec(stops[0]);
    if s is None {
        finished_schedule_runs_nothing(q, stops.drop_first());
    } else {
        stop_flag_ends_schedule(q, stops.drop_first(), k - 1);
        let rest = drive(q, stops.drop_first());
        assert(drive(p, stops) == seq![s->Some_0] + rest);
        assert forall|i: int| 0 <= i < drive(p, stops).len() implies {
            &&& p.started <= (#[trigger] drive(p, stops)[i]).index < p.started + k
            &&& drive(p, stops)[i] == stage_wiring(p.stages as nat, drive(p, stops)[i].index as nat)
        } by {
            if i > 0 {
                assert(drive(p, stops)[i] == rest[i - 1]);
            }
        }
    }
}

/// In a chain of `n` stages, a stop flag set while stage `k` runs (counting
/// from one, `k < n`) leaves every later stage unstarted: at most `k` stages
/// run, and none of them writes to the caller's output.
pub proof fn stop_inside_stage_skips_later_stages(n: usize, stops: Seq<bool>, k: int)
    requires
        1 <= k < n,
        k < stops.len(),
        stops[k],
    ensures
        drive(Pipeline::start_spec(n as nat), stops).len() <= k,
        forall|i: int|
            0 <= i < drive(Pipeline::start_spec(n as nat), stops).len() ==> {
                &&& (#[trigger] drive(Pipeline::start_spec(n as nat), stops)[i]).index < k
                &&& drive(Pipeline::start_spec(n as nat), stops)[i].output == StageOutput::Sink
            },
{
    stop_flag_ends_schedule(Pipeline::start_spec(n as nat), stops, k);
}

/// A closure of one stage that is not stopped runs that stage once, reading
/// the caller's own input and writing the caller's own output.
pub proof fn single_stage_uses_caller_endpoints(stops: Seq<bool>)
    requires
        stops.len() >= 1,
        !stops[0],
    ensures
        drive(Pipeline::start_spec(1), stops) == seq![
            Stage { index: 0, input: StageInput::Caller, output: StageOutput::Caller },
        ],
{
    let p = Pipeline::start_spec(1);
    let (q, s) = p.next_spec(stops[0]);
    finished_schedule_runs_nothing(q, stops.drop_first());
    assert(drive(q, stops.drop_first()) =~= Seq::<Stage>::empty());
    assert(drive(p, stops) =~= seq![s->Some_0]);
}

} // verus!
