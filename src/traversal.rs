use vstd::prelude::*;
use vstd::string::StringExecFns;

use crate::command::SimpleCommand;
use crate::errors::{CrushError, CrushResult};
use crate::scope::{ScopeTree, find_local};
use crate::value::{Argument, Value, ValueType};

verus! {

/// Built-in id of the command that lists a directory.
pub const LS: u64 = 2;

/// Built-in id of the command that lists a directory tree.
pub const FIND: u64 = 3;

/// Built-in id of the command that changes the working directory.
pub const CD: u64 = 4;

/// Built-in id of the command that returns the working directory.
pub const PWD: u64 = 5;

/// Built-in id of the command that shows help on a value.
pub const HELP: u64 = 6;

/// The native command `call` as a value.
pub open spec fn native(call: u64, can_block: bool) -> Value {
    Value::Command(SimpleCommand { call, can_block })
}

/// Whether `b` binds `name` to `v`.
pub open spec fn binds(b: (String, Value), name: Seq<char>, v: Value) -> bool {
    b.0@ == name && b.1 == v
}

/// Registers the file-system commands in a new, locked namespace
/// `traversal` below `root`, which `root` then uses, so that the commands
/// resolve there by their plain names. The commands that touch the disk declare that
/// they may block; `pwd` and `help` do not.
pub fn declare(tree: &mut ScopeTree, root: usize) -> (r: CrushResult<()>)
    requires
        old(tree).wf(),
        root < old(tree)@.len(),
    ensures
        r is Ok <==> !old(tree)@[root as int].readonly && find_local(
            old(tree)@[root as int].bindings@,
            "traversal"@,
        ) is None,
        r is Err ==> final(tree)@ == old(tree)@,
        final(tree).wf(),
        r is Ok ==> {
            let ns = old(tree)@.len() as int;
            let b = final(tree)@[ns].bindings@;
            &&& final(tree)@.len() == ns + 1
            &&& find_local(final(tree)@[root as int].bindings@, "traversal"@) == Some(Value::Scope(ns as usize))
            &&& final(tree)@[root as int].uses@ == old(tree)@[root as int].uses@.push(ns as usize)
            &&& final(tree)@[ns].parent == Some(root)
            &&& final(tree)@[ns].readonly
            &&& b.len() == 5
            &&& binds(b[0], "ls"@, native(LS, true))
            &&& binds(b[1], "find"@, native(FIND, true))
            &&& binds(b[2], "cd"@, native(CD, true))
            &&& binds(b[3], "pwd"@, native(PWD, false))
            &&& binds(b[4], "help"@, native(HELP, false))
        },
{
    let env = match tree.create_namespace(root, String::from_str("traversal")) {
        Ok(env) => env,
        Err(e) => {
            return Err(e);
        },
    };
    tree.bind(env, String::from_str("ls"), Value::Command(SimpleCommand::new(LS, true)));
    tree.bind(env, String::from_str("find"), Value::Command(SimpleCommand::new(FIND, true)));
    tree.bind(env, String::from_str("cd"), Value::Command(SimpleCommand::new(CD, true)));
    tree.bind(env, String::from_str("pwd"), Value::Command(SimpleCommand::new(PWD, false)));
    tree.bind(env, String::from_str("help"), Value::Command(SimpleCommand::new(HELP, false)));
    tree.readonly(env);
    tree.use_namespace(root, env);
    Ok(())
}

/// The directory `cd` changes to: none (the home directory) without
/// arguments, the path of a single text or file argument, and otherwise an
/// error on the count or on the type.
pub fn cd_target(arguments: &Vec<Argument>) -> (r: CrushResult<Option<String>>)
    ensures
        arguments@.len() == 0 ==> r == Ok::<Option<String>, CrushError>(None),
        arguments@.len() > 1 ==> r == Err::<Option<String>, CrushError>(CrushError::ExpectedSingleValue),
        arguments@.len() == 1 ==> match arguments@[0].value {
            Value::Text(p) => r == Ok::<Option<String>, CrushError>(Some(p)),
            Value::File(p) => r == Ok::<Option<String>, CrushError>(Some(p)),
            _ => r == Err::<Option<String>, CrushError>(CrushError::WrongArgumentType(ValueType::File)),
        },
{
    if arguments.len() == 0 {
        return Ok(None);
    }
    if arguments.len() > 1 {
        return Err(CrushError::ExpectedSingleValue);
    }
    match &arguments[0].value {
        Value::Text(p) => Ok(Some(p.clone())),
        Value::File(p) => Ok(Some(p.clone())),
        _ => Err(CrushError::WrongArgumentType(ValueType::File)),
    }
}

} // verus!
