use crush_core::call_definition::CallDefinition;
use crush_core::command::{Closure, Pipeline, StageInput, StageOutput};
use crush_core::errors::CrushError;
use crush_core::job::Job;
use crush_core::scope::ScopeTree;
use crush_core::value::{Argument, Value, ValueDefinition};

fn stage() -> Job {
    Job::new(CallDefinition::new(ValueDefinition::Label(vec!["echo".to_string()]), vec![]))
}

#[test]
fn empty_closure_fails() {
    let mut tree = ScopeTree::new();
    let c = Closure::new(vec![], 0);
    assert!(matches!(c.enter(&mut tree, 0, vec![]), Err(CrushError::EmptyClosure)));
    assert_eq!(tree.len(), 1);
}

#[test]
fn stop_inside_stage_skips_the_rest() {
    let n = 4;
    let mut p = Pipeline::new(n);
    let mut counter = 0;
    let mut stopped = false;
    let mut caller_output_used = false;
    while let Some(s) = p.next_stage(stopped) {
        counter += 1;
        if s.output == StageOutput::Caller {
            caller_output_used = true;
        }
        if s.index == 1 {
            stopped = true;
        }
    }
    assert_eq!(counter, 2);
    assert!(counter < n);
    assert!(!caller_output_used);
    assert_eq!(p.next_stage(false), None);
}

#[test]
fn stages_are_wired_in_order() {
    let mut p = Pipeline::new(3);
    let a = p.next_stage(false).unwrap();
    let b = p.next_stage(false).unwrap();
    let c = p.next_stage(false).unwrap();
    assert_eq!((a.index, a.input, a.output), (0, StageInput::Caller, StageOutput::Sink));
    assert_eq!((b.index, b.input, b.output), (1, StageInput::Empty, StageOutput::Sink));
    assert_eq!((c.index, c.input, c.output), (2, StageInput::Empty, StageOutput::Caller));
    assert_eq!(p.next_stage(false), None);
}

#[test]
fn single_stage_gets_caller_endpoints() {
    let mut tree = ScopeTree::new();
    let c = Closure::new(vec![stage()], 0);
    let (scope, mut p) = c.enter(&mut tree, 0, vec![]).unwrap();
    assert_eq!(scope, 1);
    let s = p.next_stage(tree.is_stopped(scope)).unwrap();
    assert_eq!((s.index, s.input, s.output), (0, StageInput::Caller, StageOutput::Caller));
    assert_eq!(p.next_stage(false), None);
}

#[test]
fn stopped_caller_runs_no_stage() {
    let mut tree = ScopeTree::new();
    let caller = tree.create_child(0, 0);
    tree.stop(caller);
    let c = Closure::new(vec![stage(), stage()], 0);
    let (scope, mut p) = c.enter(&mut tree, caller, vec![]).unwrap();
    assert!(tree.is_stopped(scope));
    assert_eq!(p.next_stage(tree.is_stopped(scope)), None);
}

#[test]
fn named_arguments_are_bound_in_a_fresh_scope() {
    let mut tree = ScopeTree::new();
    let c = Closure::new(vec![stage()], 0);
    let args = vec![
        Argument { name: Some("x".to_string()), value: Value::Integer(1) },
        Argument { name: None, value: Value::Integer(2) },
        Argument { name: Some("y".to_string()), value: Value::Bool(true) },
    ];
    let (scope, _) = c.enter(&mut tree, 0, args).unwrap();
    assert!(matches!(tree.lookup(scope, &"x".to_string()), Some(Value::Integer(1))));
    assert!(matches!(tree.lookup(scope, &"y".to_string()), Some(Value::Bool(true))));
    assert_eq!(tree.frame(scope).bindings.len(), 2);
    assert!(tree.lookup(0, &"x".to_string()).is_none());
}

#[test]
fn repeated_argument_name_keeps_the_first() {
    let mut tree = ScopeTree::new();
    let c = Closure::new(vec![stage()], 0);
    let args = vec![
        Argument { name: Some("x".to_string()), value: Value::Integer(1) },
        Argument { name: Some("x".to_string()), value: Value::Integer(2) },
    ];
    let (scope, _) = c.enter(&mut tree, 0, args).unwrap();
    assert!(matches!(tree.lookup(scope, &"x".to_string()), Some(Value::Integer(1))));
    assert_eq!(tree.frame(scope).bindings.len(), 1);
}

#[test]
fn push_arguments_into_locked_scope_binds_nothing() {
    let mut tree = ScopeTree::new();
    tree.readonly(0);
    Closure::push_arguments_to_env(vec![Argument { name: Some("x".to_string()), value: Value::Integer(1) }], &mut tree, 0);
    assert!(tree.lookup(0, &"x".to_string()).is_none());
}
