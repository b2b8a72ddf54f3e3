use vstd::prelude::*;
use vstd::string::{StrSliceExecFns, StringExecFns};

use crate::command::{Closure, ConditionCommand, CrushCommand, SimpleCommand};
use crate::errors::{CrushError, CrushResult};
use crate::scope::ScopeTree;
use crate::value::{ArgumentDefinition, Value, ValueDefinition, any_blocks, arguments_can_block, copy_arguments, same_call};

verus! {

/// How deep the blocking analysis follows single-stage closures into the
/// calls they make; past this depth a call is taken to block, which is the
/// safe answer.
pub const NESTING_LIMIT: u32 = 64;

/// The built-in id of the command that launches an external executable.
pub const EXTERNAL_LAUNCHER: u64 = 1;

/// The name of the binding that lists the directories searched for
/// external executables.
pub const SEARCH_PATH_NAME: &'static str = "cmd_path";

/// An unresolved call: a command reference and its unresolved arguments.
#[derive(Debug)]
pub struct CallDefinition {
    pub command: ValueDefinition,
    pub arguments: Vec<ArgumentDefinition>,
}

/// The segments of a name joined with dots.
pub open spec fn dotted(name: Seq<String>) -> Seq<char>
    decreases name.len(),
{
    if name.len() == 0 {
        Seq::empty()
    } else if name.len() == 1 {
        name[0]@
    } else {
        dotted(name.drop_last()) + seq!['.'] + name.last()@
    }
}

pub fn format_name(name: &Vec<String>) -> (r: String)
    ensures
        r@ == dotted(name@),
{
    let mut r = String::new();
    let mut i: usize = 0;
    while i < name.len()
        invariant
            i <= name.len(),
            r@ == dotted(name@.subrange(0, i as int)),
        decreases name.len() - i,
    {
        assert(name@.subrange(0, i + 1).drop_last() =~= name@.subrange(0, i as int));
        if i > 0 {
            proof {
                reveal_strlit(".");
            }
            r.append(".");
        }
        r.append(name[i].as_str());
        i = i + 1;
    }
    assert(name@.subrange(0, i as int) =~= name@);
    r
}

/// What the remaining segments of a dotted name reach from `v`: each one is
/// looked up in the namespace the previous one named.
pub open spec fn resolve_members(tree: ScopeTree, v: Value, rest: Seq<String>) -> Option<Value>
    decreases rest.len(),
{
    if rest.len() == 0 {
        Some(v)
    } else {
        match v {
            Value::Scope(sid) => match tree.lookup_spec(sid as int, rest[0]@) {
                Some(w) => resolve_members(tree, w, rest.drop_first()),
                None => None,
            },
            _ => None,
        }
    }
}

/// What a command reference resolves to without running anything: a literal
/// is itself, a name is looked up, anything else does not resolve.
pub open spec fn resolve_spec(tree: ScopeTree, scope: int, def: ValueDefinition) -> Option<Value> {
    match def {
        ValueDefinition::Value(v) => Some(v),
        ValueDefinition::Label(path) => if path@.len() == 0 {
            None
        } else {
            match tree.lookup_spec(scope, path@[0]@) {
                Some(v) => resolve_members(tree, v, path@.drop_first()),
                None => None,
            }
        },
        _ => None,
    }
}

/// The blocking analysis of a call with `arg` as the arguments seen by its
/// command: a native command blocks as declared, a condition command as its
/// arguments do, a closure as its single stage does; the call's own
/// arguments may add blocking; anything that does not resolve to a command
/// is taken to block.
pub open spec fn call_blocks(
    tree: ScopeTree,
    scope: int,
    call: CallDefinition,
    arg: Seq<ArgumentDefinition>,
    fuel: nat,
) -> bool
    decreases fuel, 1nat,
{
    let own = any_blocks(call.arguments@);
    match resolve_spec(tree, scope, call.command) {
        Some(Value::Command(c)) => c.can_block || own,
        Some(Value::ConditionCommand(_)) => any_blocks(arg) || own,
        Some(Value::Closure(cl)) => closure_blocks(tree, scope, cl, arg, fuel) || own,
        _ => true,
    }
}

/// The blocking analysis of a closure: a chain of several stages always
/// blocks, a single stage blocks as its call does.
pub open spec fn closure_blocks(
    tree: ScopeTree,
    scope: int,
    cl: Closure,
    arg: Seq<ArgumentDefinition>,
    fuel: nat,
) -> bool
    decreases fuel, 0nat,
{
    if cl.job_definitions@.len() == 1 {
        if fuel == 0 {
            true
        } else {
            call_blocks(tree, scope, cl.job_definitions@[0].call, arg, (fuel - 1) as nat)
        }
    } else {
        true
    }
}

/// The command that runs a resolved external executable.
pub open spec fn launcher() -> SimpleCommand {
    SimpleCommand { call: EXTERNAL_LAUNCHER, can_block: true }
}

/// A path joined to a directory, as a path join does for a plain name.
pub open spec fn join_path(dir: Seq<char>, name: Seq<char>) -> Seq<char> {
    if dir.len() == 0 {
        name
    } else if dir.last() == '/' {
        dir + name
    } else {
        dir + seq!['/'] + name
    }
}

/// The candidate paths of `name`, one for each directory in `items`, in order.
pub open spec fn candidates(items: Seq<Value>, name: Seq<char>) -> Seq<Seq<char>>
    decreases items.len(),
{
    if items.len() == 0 {
        Seq::empty()
    } else {
        let rest = candidates(items.drop_last(), name);
        match items.last() {
            Value::File(dir) => rest.push(join_path(dir@, name)),
            _ => rest,
        }
    }
}

/// The candidate paths of `name` on the search path bound in `scope`.
pub open spec fn search_path_spec(tree: ScopeTree, scope: int, name: Seq<char>) -> Seq<Seq<char>> {
    match tree.lookup_spec(scope, SEARCH_PATH_NAME@) {
        Some(Value::List(items)) => candidates(items@, name),
        _ => Seq::empty(),
    }
}

fn join_path_exec(dir: &String, name: &String) -> (r: String)
    ensures
        r@ == join_path(dir@, name@),
{
    let n = dir.as_str().unicode_len();
    let mut r = dir.clone();
    if n > 0 && dir.as_str().get_char(n - 1) != '/' {
        proof {
            reveal_strlit("/");
        }
        r.append("/");
    }
    r.append(name.as_str());
    r
}

/// The candidate paths of `name`: each directory listed under the search
/// path binding, joined with the name, in the listed order.
pub fn search_path(name: &String, tree: &ScopeTree, scope: usize) -> (r: Vec<String>)
    requires
        tree.wf(),
        scope < tree@.len(),
    ensures
        r@.map_values(|s: String| s@) == search_path_spec(*tree, scope as int, name@),
{
    let key = String::from_str(SEARCH_PATH_NAME);
    let mut r: Vec<String> = Vec::new();
    match tree.lookup(scope, &key) {
        Some(Value::List(items)) => {
            let mut i: usize = 0;
            while i < items.len()
                invariant
                    i <= items.len(),
                    r@.map_values(|s: String| s@) == candidates(items@.subrange(0, i as int), name@),
                decreases items.len() - i,
            {
                assert(items@.subrange(0, i + 1).drop_last() =~= items@.subrange(0, i as int));
                match &items[i] {
                    Value::File(dir) => {
                        let p = join_path_exec(dir, name);
                        r.push(p);
                        assert(r@.map_values(|s: String| s@) =~= candidates(
                            items@.subrange(0, i as int),
                            name@,
                        ).push(join_path(dir@, name@)));
                    },
                    _ => {},
                }
                i = i + 1;
            }
            assert(items@.subrange(0, i as int) =~= items@);
        },
        _ => {},
    }
    assert(r@.map_values(|s: String| s@) =~= search_path_spec(*tree, scope as int, name@));
    r
}

/// The first candidate path of `name` that exists, given for each candidate
/// of `search_path` whether it exists.
pub fn resolve_external_command(name: &String, tree: &ScopeTree, scope: usize, exists: &Vec<bool>) -> (r: Option<String>)
    requires
        tree.wf(),
        scope < tree@.len(),
        exists@.len() == search_path_spec(*tree, scope as int, name@).len(),
    ensures
        match r {
            Some(p) => exists|i: int|
                0 <= i < exists@.len() && exists@[i] && p@ == search_path_spec(
                    *tree,
                    scope as int,
                    name@,
                )[i] && forall|j: int| 0 <= j < i ==> !exists@[j],
            None => forall|i: int| 0 <= i < exists@.len() ==> !exists@[i],
        },
{
    let mut cands = search_path(name, tree, scope);
    let ghost spec_cands = search_path_spec(*tree, scope as int, name@);
    assert(cands@.len() == spec_cands.len());
    let mut i: usize = 0;
    while i < exists.len()
        invariant
            i <= exists@.len(),
            exists@.len() == cands@.len(),
            cands@.map_values(|s: String| s@) == spec_cands,
            spec_cands == search_path_spec(*tree, scope as int, name@),
            forall|j: int| 0 <= j < i ==> !exists@[j],
        decreases exists.len() - i,
    {
        if exists[i] {
            assert(cands@.map_values(|s: String| s@)[i as int] == cands@[i as int]@);
            let p = cands.remove(i);
            assert(0 <= i < exists@.len() && exists@[i as int] && p@ == search_path_spec(
                *tree,
                scope as int,
                name@,
            )[i as int] && forall|j: int| 0 <= j < i ==> !exists@[j]);
            return Some(p);
        }
        i = i + 1;
    }
    None
}

/// The callable a dispatch runs.
pub enum Target<'a> {
    Simple(SimpleCommand),
    Condition(ConditionCommand),
    Closure(&'a Closure),
}

/// Whether a dispatch target is the callable value `v`.
pub open spec fn target_is(t: Target, v: Value) -> bool {
    match t {
        Target::Simple(c) => v == Value::Command(c),
        Target::Condition(c) => v == Value::ConditionCommand(c),
        Target::Closure(c) => v == Value::Closure(*c),
    }
}

/// The plan of one launch: what to run, with which arguments, and whether it
/// must run on a thread of its own. Where `executable` is set, it goes
/// before `arguments` as the first positional argument.
pub struct Invocation<'a> {
    pub target: Target<'a>,
    pub executable: Option<String>,
    pub arguments: &'a Vec<ArgumentDefinition>,
    pub blocking: bool,
}

impl Clone for CallDefinition {
    fn clone(&self) -> Self {
        self.copy()
    }
}

impl CallDefinition {
    /// A deep copy.
    pub fn copy(&self) -> (r: CallDefinition)
        ensures
            same_call(*self, r),
            any_blocks(r.arguments@) == any_blocks(self.arguments@),
        decreases self,
    {
        CallDefinition { command: self.command.copy(), arguments: copy_arguments(&self.arguments) }
    }

    pub fn new(command: ValueDefinition, arguments: Vec<ArgumentDefinition>) -> (r: CallDefinition)
        ensures
            r.command == command,
            r.arguments == arguments,
    {
        CallDefinition { command, arguments }
    }

    pub fn arguments(&self) -> (r: &Vec<ArgumentDefinition>)
        ensures
            *r == self.arguments,
    {
        &self.arguments
    }

    /// Resolves the command reference against `scope` without running
    /// anything that could block.
    pub fn resolve<'a>(&'a self, tree: &'a ScopeTree, scope: usize) -> (r: Option<&'a Value>)
        requires
            tree.wf(),
            scope < tree@.len(),
        ensures
            match r {
                Some(v) => resolve_spec(*tree, scope as int, self.command) == Some(*v),
                None => resolve_spec(*tree, scope as int, self.command) is None,
            },
    {
        match &self.command {
            ValueDefinition::Value(v) => Some(v),
            ValueDefinition::Label(path) => {
                if path.len() == 0 {
                    return None;
                }
                let mut cur: &Value = match tree.lookup(scope, &path[0]) {
                    Some(v) => v,
                    None => {
                        return None;
                    },
                };
                let mut i: usize = 1;
                while i < path.len()
                    invariant
                        tree.wf(),
                        1 <= i <= path@.len(),
                        resolve_spec(*tree, scope as int, self.command) == resolve_members(
                            *tree,
                            *cur,
                            path@.subrange(i as int, path@.len() as int),
                        ),
                    decreases path.len() - i,
                {
                    let ghost rest = path@.subrange(i as int, path@.len() as int);
                    assert(rest.drop_first() =~= path@.subrange(i + 1, path@.len() as int));
                    match cur {
                        Value::Scope(sid) => {
                            if *sid >= tree.len() {
                                return None;
                            }
                            match tree.lookup(*sid, &path[i]) {
                                Some(w) => {
                                    cur = w;
                                },
                                None => {
                                    return None;
                                },
                            }
                        },
                        _ => {
                            return None;
                        },
                    }
                    i = i + 1;
                }
                assert(path@.subrange(i as int, path@.len() as int).len() == 0);
                Some(cur)
            },
            _ => None,
        }
    }

    /// Whether a call of this definition may block, `arg` being the
    /// arguments its command sees.
    pub fn can_block(&self, arg: &Vec<ArgumentDefinition>, tree: &ScopeTree, scope: usize) -> (r: bool)
        requires
            tree.wf(),
            scope < tree@.len(),
        ensures
            r == call_blocks(*tree, scope as int, *self, arg@, NESTING_LIMIT as nat),
    {
        self.can_block_within(arg, tree, scope, NESTING_LIMIT)
    }

    pub fn can_block_within(
        &self,
        arg: &Vec<ArgumentDefinition>,
        tree: &ScopeTree,
        scope: usize,
        fuel: u32,
    ) -> (r: bool)
        requires
            tree.wf(),
            scope < tree@.len(),
        ensures
            r == call_blocks(*tree, scope as int, *self, arg@, fuel as nat),
        decreases fuel, 1nat,
    {
        let own = arguments_can_block(&self.arguments);
        match self.resolve(tree, scope) {
            Some(Value::Command(c)) => c.can_block || own,
            Some(Value::ConditionCommand(_)) => arguments_can_block(arg) || own,
            Some(Value::Closure(cl)) => cl.can_block_within(arg, tree, scope, fuel) || own,
            _ => true,
        }
    }

    /// The name to look for on the search path: set iff the reference is a
    /// single plain name that does not resolve to a command.
    pub fn external_name(&self, tree: &ScopeTree, scope: usize) -> (r: Option<String>)
        requires
            tree.wf(),
            scope < tree@.len(),
        ensures
            match r {
                Some(n) => external_spec(*tree, scope as int, self.command) == Some(n@),
                None => external_spec(*tree, scope as int, self.command) is None,
            },
    {
        let callable = match self.resolve(tree, scope) {
            Some(Value::Command(_)) | Some(Value::ConditionCommand(_)) | Some(Value::Closure(_)) => true,
            _ => false,
        };
        if callable {
            return None;
        }
        match &self.command {
            ValueDefinition::Label(p) => {
                if p.len() == 1 {
                    Some(p[0].clone())
                } else {
                    None
                }
            },
            _ => None,
        }
    }

    /// Resolves the command and plans the launch. `external` is the
    /// executable that the search path gave for `external_name`, if any.
    /// The launch must run on its own thread iff the command or one of the
    /// call's arguments may block. A name that resolves to no command
    /// launches the external executable, when there is one; otherwise a
    /// plain name fails as unknown, a dotted name always does, and any
    /// other reference fails as not a command.
    pub fn invoke<'a>(&'a self, tree: &'a ScopeTree, scope: usize, external: Option<String>) -> (r:
        CrushResult<Invocation<'a>>)
        requires
            tree.wf(),
            scope < tree@.len(),
        ensures
            match dispatch_spec(*tree, scope as int, *self, external) {
                Ok((v, exe, blocking)) => r is Ok && target_is(r->Ok_0.target, v)
                    && r->Ok_0.executable == exe && *r->Ok_0.arguments == self.arguments
                    && r->Ok_0.blocking == blocking,
                Err(Some(name)) => r is Err && r->Err_0 is UnknownCommand
                    && r->Err_0->UnknownCommand_0@ == name,
                Err(None) => r == Err::<Invocation<'a>, CrushError>(CrushError::NotACommand),
            },
    {
        let own = arguments_can_block(&self.arguments);
        match self.resolve(tree, scope) {
            Some(Value::Command(c)) => {
                let blocking = c.can_block(&self.arguments, tree, scope) || own;
                return Ok(Invocation { target: Target::Simple(*c), executable: None, arguments: &self.arguments, blocking });
            },
            Some(Value::ConditionCommand(c)) => {
                let blocking = c.can_block(&self.arguments, tree, scope) || own;
                return Ok(Invocation { target: Target::Condition(*c), executable: None, arguments: &self.arguments, blocking });
            },
            Some(Value::Closure(cl)) => {
                let blocking = cl.can_block(&self.arguments, tree, scope) || own;
                return Ok(Invocation { target: Target::Closure(cl), executable: None, arguments: &self.arguments, blocking });
            },
            _ => {},
        }
        match &self.command {
            ValueDefinition::Label(p) => {
                if p.len() == 1 {
                    match external {
                        Some(path) => Ok(Invocation {
                            target: Target::Simple(SimpleCommand::new(EXTERNAL_LAUNCHER, true)),
                            executable: Some(path),
                            arguments: &self.arguments,
                            blocking: true,
                        }),
                        None => Err(CrushError::UnknownCommand(format_name(p))),
                    }
                } else {
                    Err(CrushError::UnknownCommand(format_name(p)))
                }
            },
            _ => Err(CrushError::NotACommand),
        }
    }
}

/// The name a reference is searched for on the search path.
pub open spec fn external_spec(tree: ScopeTree, scope: int, def: ValueDefinition) -> Option<Seq<char>> {
    match resolve_spec(tree, scope, def) {
        Some(Value::Command(_)) => None,
        Some(Value::ConditionCommand(_)) => None,
        Some(Value::Closure(_)) => None,
        _ => match def {
            ValueDefinition::Label(p) => if p@.len() == 1 {
                Some(p@[0]@)
            } else {
                None
            },
            _ => None,
        },
    }
}

/// The plan of a launch: the callable, the executable put before the
/// arguments, and whether it must run on its own thread; or the error: the
/// unknown name, or none where the reference is not a command.
pub open spec fn dispatch_spec(
    tree: ScopeTree,
    scope: int,
    call: CallDefinition,
    external: Option<String>,
) -> Result<(Value, Option<String>, bool), Option<Seq<char>>> {
    let args = call.arguments@;
    let own = any_blocks(args);
    match resolve_spec(tree, scope, call.command) {
        Some(Value::Command(c)) => Ok((Value::Command(c), None, c.can_block || own)),
        Some(Value::ConditionCommand(c)) => Ok((Value::ConditionCommand(c), None, any_blocks(args) || own)),
        Some(Value::Closure(cl)) => Ok((Value::Closure(cl), None, cl.blocks(args, tree, scope) || own)),
        _ => match call.command {
            ValueDefinition::Label(p) => if p@.len() == 1 {
                match external {
                    Some(path) => Ok((Value::Command(launcher()), Some(path), true)),
                    None => Err(Some(dotted(p@))),
                }
            } else {
                Err(Some(dotted(p@)))
            },
            _ => Err(None),
        },
    }
}

/// A launch is planned on its own thread exactly when the blocking analysis
/// of the call, over its own arguments, says it may block; otherwise it runs
/// on the calling thread.
pub proof fn launch_follows_blocking_analysis(
    tree: ScopeTree,
    scope: int,
    call: CallDefinition,
    external: Option<String>,
)
    requires
        dispatch_spec(tree, scope, call, external) is Ok,
    ensures
        dispatch_spec(tree, scope, call, external)->Ok_0.2 == call_blocks(
            tree,
            scope,
            call,
            call.arguments@,
            NESTING_LIMIT as nat,
        ),
{
}

/// A name bound to nothing: a plain one launches the executable that the
/// search path gave, as the first argument of the launcher, or fails as
/// unknown when there is none; a dotted one fails as unknown whatever the
/// search gave.
pub proof fn unbound_name_goes_to_search_path(
    tree: ScopeTree,
    scope: int,
    path: Vec<String>,
    arguments: Vec<ArgumentDefinition>,
    external: Option<String>,
)
    requires
        resolve_spec(tree, scope, ValueDefinition::Label(path)) is None,
    ensures
        ({
            let call = CallDefinition { command: ValueDefinition::Label(path), arguments };
            &&& path@.len() == 1 && external is Some ==> dispatch_spec(tree, scope, call, external)
                == Ok::<(Value, Option<String>, bool), Option<Seq<char>>>(
                (Value::Command(launcher()), external, true),
            )
            &&& path@.len() == 1 && external is None ==> dispatch_spec(tree, scope, call, external)
                == Err::<(Value, Option<String>, bool), Option<Seq<char>>>(Some(dotted(path@)))
            &&& path@.len() != 1 ==> dispatch_spec(tree, scope, call, external) == Err::<
                (Value, Option<String>, bool),
                Option<Seq<char>>,
            >(Some(dotted(path@)))
        }),
{
}

} // verus!
