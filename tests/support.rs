use crush_core::errors::CrushError;
use crush_core::parse_util::{
    single_argument_dict, single_argument_field, single_argument_integer, single_argument_list,
    single_argument_text, single_argument_type,
};
use crush_core::re::Re;
use crush_core::scope::ScopeTree;
use crush_core::traversal::{cd_target, declare, CD, LS, PWD};
use crush_core::value::{Argument, Value, ValueType};

fn one(v: Value) -> Vec<Argument> {
    vec![Argument { name: None, value: v }]
}

#[test]
fn single_argument_accessors() {
    assert_eq!(single_argument_integer(one(Value::Integer(7))).unwrap(), 7);
    assert_eq!(single_argument_text(one(Value::Text("a".to_string()))).unwrap(), "a");
    assert_eq!(single_argument_type(one(Value::Type(ValueType::Bool))).unwrap(), ValueType::Bool);
    assert_eq!(single_argument_list(one(Value::List(vec![Value::Integer(1)]))).unwrap().len(), 1);
    assert_eq!(single_argument_dict(one(Value::Dict(vec![]))).unwrap().len(), 0);
    assert_eq!(single_argument_field(one(Value::Field(vec!["a".to_string()]))).unwrap(), vec!["a".to_string()]);
}

#[test]
fn single_argument_errors() {
    assert!(matches!(single_argument_integer(vec![]), Err(CrushError::ExpectedSingleValue)));
    assert!(matches!(
        single_argument_text(vec![Argument { name: None, value: Value::Empty }, Argument { name: None, value: Value::Empty }]),
        Err(CrushError::ExpectedSingleValue)
    ));
    assert!(matches!(
        single_argument_text(one(Value::Integer(1))),
        Err(CrushError::WrongArgumentType(ValueType::Text))
    ));
    assert!(matches!(
        single_argument_integer(vec![Argument { name: Some("n".to_string()), value: Value::Integer(1) }]),
        Err(CrushError::WrongArgumentType(ValueType::Integer))
    ));
}

#[test]
fn scope_declarations() {
    let mut tree = ScopeTree::new();
    tree.declare(0, "a".to_string(), Value::Integer(1)).unwrap();
    assert!(matches!(tree.declare(0, "a".to_string(), Value::Integer(2)), Err(CrushError::AlreadyDeclared(_))));
    let child = tree.create_child(0, 0);
    tree.declare(child, "b".to_string(), Value::Integer(2)).unwrap();
    assert!(matches!(tree.lookup(child, &"a".to_string()), Some(Value::Integer(1))));
    assert!(tree.lookup(0, &"b".to_string()).is_none());
    tree.readonly(child);
    assert!(matches!(tree.declare(child, "c".to_string(), Value::Empty), Err(CrushError::ReadOnlyScope)));
    assert!(matches!(tree.lookup(child, &"b".to_string()), Some(Value::Integer(2))));
}

#[test]
fn traversal_namespace_is_registered() {
    let mut tree = ScopeTree::new();
    declare(&mut tree, 0).unwrap();
    let ns = match tree.lookup(0, &"traversal".to_string()) {
        Some(Value::Scope(id)) => *id,
        _ => panic!("namespace missing"),
    };
    assert!(matches!(tree.lookup(ns, &"ls".to_string()), Some(Value::Command(c)) if c.call == LS && c.can_block));
    assert!(matches!(tree.lookup(ns, &"cd".to_string()), Some(Value::Command(c)) if c.call == CD && c.can_block));
    assert!(matches!(tree.lookup(ns, &"pwd".to_string()), Some(Value::Command(c)) if c.call == PWD && !c.can_block));
    assert!(tree.frame(ns).readonly);
    assert!(matches!(tree.lookup(0, &"ls".to_string()), Some(Value::Command(c)) if c.call == LS));
    assert!(matches!(tree.lookup(0, &"pwd".to_string()), Some(Value::Command(c)) if c.call == PWD));
    let child = tree.create_child(0, 0);
    assert!(matches!(tree.lookup(child, &"cd".to_string()), Some(Value::Command(c)) if c.call == CD));
    assert!(tree.lookup(0, &"cat".to_string()).is_none());
    assert!(matches!(declare(&mut tree, 0), Err(CrushError::AlreadyDeclared(_))));
}

#[test]
fn regex_methods() {
    let re = Re::new("[0-9]".to_string()).unwrap();
    assert_eq!(re.pattern(), "[0-9]");
    assert!(re.matches(&"a1".to_string()));
    assert!(!re.not_match(&"a1".to_string()));
    assert!(re.not_match(&"ab".to_string()));
    assert_eq!(re.replace(&"123-456".to_string(), &"X".to_string()), "X23-456");
    assert_eq!(re.replace_all(&"123-456".to_string(), &"X".to_string()), "XXX-XXX");
    assert_eq!(re.replace(&"abc".to_string(), &"X".to_string()), "abc");
}

#[test]
fn invalid_regex_is_rejected() {
    match Re::new("foo(bar".to_string()) {
        Err(CrushError::InvalidPattern(m)) => {
            assert!(!m.is_empty());
            assert_eq!(m, regex::Regex::new("foo(bar").unwrap_err().to_string());
        }
        _ => panic!("expected an invalid pattern"),
    }
}

#[test]
fn leaving_the_newest_scope_discards_it() {
    let mut tree = ScopeTree::new();
    let a = tree.create_child(0, 0);
    let b = tree.create_child(a, a);
    tree.leave(a);
    assert_eq!(tree.len(), 3);
    tree.leave(b);
    assert_eq!(tree.len(), 2);
    tree.leave(a);
    assert_eq!(tree.len(), 1);
}

#[test]
fn cd_argument_choice() {
    assert_eq!(cd_target(&vec![]).unwrap(), None);
    assert_eq!(cd_target(&one(Value::Text("/tmp".to_string()))).unwrap(), Some("/tmp".to_string()));
    assert_eq!(cd_target(&one(Value::File("/var".to_string()))).unwrap(), Some("/var".to_string()));
    assert!(matches!(cd_target(&one(Value::Integer(1))), Err(CrushError::WrongArgumentType(ValueType::File))));
    let two = vec![Argument { name: None, value: Value::Empty }, Argument { name: None, value: Value::Empty }];
    assert!(matches!(cd_target(&two), Err(CrushError::ExpectedSingleValue)));
}

#[test]
fn copies_are_deep() {
    let v = Value::Dict(vec![(Value::Text("k".to_string()), Value::List(vec![Value::Integer(1), Value::Field(vec!["a".to_string()])]))]);
    assert_eq!(format!("{:?}", v.copy()), format!("{:?}", v));
    assert_eq!(format!("{:?}", v.clone()), format!("{:?}", v));
}
