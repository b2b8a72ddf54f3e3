use crush_core::call_definition::{
    format_name, resolve_external_command, search_path, CallDefinition, Target, EXTERNAL_LAUNCHER,
    SEARCH_PATH_NAME,
};
use crush_core::command::{Closure, ConditionCommand, CrushCommand, SimpleCommand};
use crush_core::errors::CrushError;
use crush_core::job::{Job, JobJoinHandle};
use crush_core::scope::ScopeTree;
use crush_core::value::{ArgumentDefinition, Value, ValueDefinition};

fn label(parts: &[&str]) -> ValueDefinition {
    ValueDefinition::Label(parts.iter().map(|s| s.to_string()).collect())
}

fn call(parts: &[&str], args: Vec<ArgumentDefinition>) -> CallDefinition {
    CallDefinition::new(label(parts), args)
}

fn nested_job() -> ArgumentDefinition {
    ArgumentDefinition::unnamed(ValueDefinition::JobDefinition(Box::new(Job::new(call(&["ls"], vec![])))))
}

#[test]
fn non_blocking_command_runs_inline_with_empty_handle() {
    let mut tree = ScopeTree::new();
    tree.declare(0, "echo".to_string(), Value::Command(SimpleCommand::new(10, false))).unwrap();
    let c = call(&["echo"], vec![ArgumentDefinition::unnamed(ValueDefinition::Value(Value::Integer(1)))]);
    assert!(!c.can_block(c.arguments(), &tree, 0));
    let inv = c.invoke(&tree, 0, None).unwrap();
    assert!(!inv.blocking);
    assert!(inv.executable.is_none());
    assert!(matches!(inv.target, Target::Simple(s) if s.call == 10));
    let handle: JobJoinHandle<u32> = JobJoinHandle::for_launch(inv.blocking, None);
    assert!(handle.is_done());
    assert!(JobJoinHandle::<u32>::completed().is_done());
}

#[test]
fn blocking_command_or_argument_goes_to_own_thread() {
    let mut tree = ScopeTree::new();
    tree.declare(0, "cat".to_string(), Value::Command(SimpleCommand::new(11, true))).unwrap();
    tree.declare(0, "echo".to_string(), Value::Command(SimpleCommand::new(10, false))).unwrap();
    let blocking_cmd = call(&["cat"], vec![]);
    assert!(blocking_cmd.invoke(&tree, 0, None).unwrap().blocking);
    let blocking_arg = call(&["echo"], vec![nested_job()]);
    assert!(blocking_arg.invoke(&tree, 0, None).unwrap().blocking);
    assert!(blocking_arg.can_block(blocking_arg.arguments(), &tree, 0));
    let handle = JobJoinHandle::for_launch(true, Some(7u32));
    assert!(!handle.is_done());
    assert!(matches!(handle, JobJoinHandle::Async(7)));
}

#[test]
fn condition_command_blocks_only_through_arguments() {
    let mut tree = ScopeTree::new();
    tree.declare(0, "if".to_string(), Value::ConditionCommand(ConditionCommand::new(20))).unwrap();
    let plain = call(&["if"], vec![ArgumentDefinition::unnamed(ValueDefinition::Value(Value::Bool(true)))]);
    assert!(!plain.invoke(&tree, 0, None).unwrap().blocking);
    let nested = call(&["if"], vec![nested_job()]);
    assert!(nested.invoke(&tree, 0, None).unwrap().blocking);
    let cond = ConditionCommand::new(20);
    assert!(!cond.can_block(&vec![], &tree, 0));
    assert_eq!(cond.call(), 20);
}

#[test]
fn closure_blocking_analysis() {
    let mut tree = ScopeTree::new();
    tree.declare(0, "echo".to_string(), Value::Command(SimpleCommand::new(10, false))).unwrap();
    let single = Closure::new(vec![Job::new(call(&["echo"], vec![]))], 0);
    assert!(!single.can_block(&vec![], &tree, 0));
    assert_eq!(single.can_block(&vec![], &tree, 0), single.job_definitions[0].can_block(&vec![], &tree, 0));
    let nested = Closure::new(vec![Job::new(call(&["echo"], vec![nested_job()]))], 0);
    assert!(nested.can_block(&vec![], &tree, 0));
    assert!(nested.job_definitions[0].can_block(&vec![], &tree, 0));
    let two = Closure::new(vec![Job::new(call(&["echo"], vec![])), Job::new(call(&["echo"], vec![]))], 0);
    assert!(two.can_block(&vec![], &tree, 0));
    tree.declare(0, "pipe".to_string(), Value::Closure(two)).unwrap();
    let inv_call = call(&["pipe"], vec![]);
    let inv = inv_call.invoke(&tree, 0, None).unwrap();
    assert!(inv.blocking);
    assert!(matches!(inv.target, Target::Closure(_)));
}

#[test]
fn unbound_plain_name_uses_search_path() {
    let mut tree = ScopeTree::new();
    let dirs = vec![Value::File("/bin".to_string()), Value::Integer(3), Value::File("/usr/bin/".to_string())];
    tree.declare(0, SEARCH_PATH_NAME.to_string(), Value::List(dirs)).unwrap();
    let name = "grep".to_string();
    let cands = search_path(&name, &tree, 0);
    assert_eq!(cands, vec!["/bin/grep".to_string(), "/usr/bin/grep".to_string()]);
    let found = resolve_external_command(&name, &tree, 0, &vec![false, true]);
    assert_eq!(found, Some("/usr/bin/grep".to_string()));
    assert_eq!(resolve_external_command(&name, &tree, 0, &vec![false, false]), None);

    let c = call(&["grep"], vec![]);
    assert_eq!(c.external_name(&tree, 0), Some("grep".to_string()));
    let inv = c.invoke(&tree, 0, found).unwrap();
    assert!(inv.blocking);
    assert_eq!(inv.executable, Some("/usr/bin/grep".to_string()));
    assert!(matches!(inv.target, Target::Simple(s) if s.call == EXTERNAL_LAUNCHER && s.can_block));
    match c.invoke(&tree, 0, None) {
        Err(CrushError::UnknownCommand(n)) => assert_eq!(n, "grep"),
        _ => panic!("expected an unknown command"),
    }
}

#[test]
fn unbound_dotted_name_is_unknown() {
    let tree = ScopeTree::new();
    let c = call(&["a", "b"], vec![]);
    assert_eq!(c.external_name(&tree, 0), None);
    match c.invoke(&tree, 0, Some("/bin/b".to_string())) {
        Err(CrushError::UnknownCommand(n)) => assert_eq!(n, "a.b"),
        _ => panic!("expected an unknown command"),
    }
    assert!(c.can_block(&vec![], &tree, 0));
}

#[test]
fn literal_non_command_is_not_a_command() {
    let tree = ScopeTree::new();
    let c = CallDefinition::new(ValueDefinition::Value(Value::Integer(5)), vec![]);
    assert!(matches!(c.invoke(&tree, 0, None), Err(CrushError::NotACommand)));
}

#[test]
fn dotted_name_resolves_through_namespaces() {
    let mut tree = ScopeTree::new();
    let ns = tree.create_namespace(0, "util".to_string()).unwrap();
    tree.declare(ns, "echo".to_string(), Value::Command(SimpleCommand::new(10, false))).unwrap();
    let c = call(&["util", "echo"], vec![]);
    assert!(matches!(c.resolve(&tree, 0), Some(Value::Command(s)) if s.call == 10));
    assert!(!c.invoke(&tree, 0, None).unwrap().blocking);
}

#[test]
fn format_name_joins_with_dots() {
    assert_eq!(format_name(&vec!["global".to_string(), "types".to_string(), "re".to_string()]), "global.types.re");
    assert_eq!(format_name(&vec![]), "");
}

#[test]
fn commands_never_compare_equal() {
    let a = SimpleCommand::new(10, false);
    let b = SimpleCommand::new(10, false);
    assert!(a != b);
    assert!(!(a == a));
    let c = ConditionCommand::new(3);
    let d = ConditionCommand::new(3);
    assert!(c != d);
}
