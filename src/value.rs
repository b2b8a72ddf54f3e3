use vstd::prelude::*;

use crate::command::{Closure, ConditionCommand, SimpleCommand, copy_jobs};
use crate::call_definition::CallDefinition;
use crate::job::Job;

verus! {

/// The type tags of values.
#[derive(Clone, Copy, Debug, PartialEq, Eq, Structural)]
pub enum ValueType {
    Empty,
    Text,
    Integer,
    Bool,
    File,
    Field,
    Type,
    List,
    Dict,
    Command,
    Closure,
    Scope,
}

/// A resolved value. Only the callable variants matter to dispatch; the
/// others are carried through unchanged.
#[derive(Debug)]
pub enum Value {
    Empty,
    Text(String),
    Integer(i128),
    Bool(bool),
    File(String),
    Field(Vec<String>),
    Type(ValueType),
    List(Vec<Value>),
    Dict(Vec<(Value, Value)>),
    Command(SimpleCommand),
    ConditionCommand(ConditionCommand),
    Closure(Closure),
    /// A namespace: the id of a scope in the scope tree.
    Scope(usize),
}

impl Value {
    pub open spec fn is_callable(self) -> bool {
        self is Command || self is ConditionCommand || self is Closure
    }
}

/// A resolved argument: an optional name and a value.
#[derive(Debug)]
pub struct Argument {
    pub name: Option<String>,
    pub value: Value,
}

/// An unresolved value expression.
#[derive(Debug)]
pub enum ValueDefinition {
    /// A literal value.
    Value(Value),
    /// A possibly dotted name, looked up in the scope.
    Label(Vec<String>),
    /// A nested job whose output becomes the value.
    JobDefinition(Box<Job>),
    /// A block of stages that becomes a closure.
    ClosureDefinition(Vec<Job>),
}

impl ValueDefinition {
    /// Whether evaluating this expression may wait on a channel: only a
    /// nested job does, since its output has to be consumed as it is made.
    pub open spec fn blocks(self) -> bool {
        self is JobDefinition
    }

    pub fn can_block(&self) -> (r: bool)
        ensures
            r == self.blocks(),
    {
        match self {
            ValueDefinition::JobDefinition(_) => true,
            _ => false,
        }
    }
}

/// An unresolved argument: an optional name and an expression.
#[derive(Debug)]
pub struct ArgumentDefinition {
    pub name: Option<String>,
    pub value: ValueDefinition,
}

impl ArgumentDefinition {
    pub fn named(name: String, value: ValueDefinition) -> (r: ArgumentDefinition)
        ensures
            r == (ArgumentDefinition { name: Some(name), value }),
    {
        ArgumentDefinition { name: Some(name), value }
    }

    pub fn unnamed(value: ValueDefinition) -> (r: ArgumentDefinition)
        ensures
            r == (ArgumentDefinition { name: None, value }),
    {
        ArgumentDefinition { name: None, value }
    }
}

/// True iff some argument expression of the list may block.
pub open spec fn any_blocks(arguments: Seq<ArgumentDefinition>) -> bool {
    exists|i: int| 0 <= i < arguments.len() && (#[trigger] arguments[i]).value.blocks()
}

/// Whether any of the argument expressions may block.
pub fn arguments_can_block(arguments: &Vec<ArgumentDefinition>) -> (r: bool)
    ensures
        r == any_blocks(arguments@),
{
    let mut i: usize = 0;
    while i < arguments.len()
        invariant
            i <= arguments.len(),
            forall|j: int| 0 <= j < i ==> !(#[trigger] arguments@[j]).value.blocks(),
        decreases arguments.len() - i,
    {
        if arguments[i].value.can_block() {
            return true;
        }
        i = i + 1;
    }
    false
}

/// Two values are the same up to the identity of the vectors inside them:
/// equal variants, equal scalars and strings, and the same elements, stages
/// and arguments, in order.
pub open spec fn same_value(a: Value, b: Value) -> bool
    decreases a,
{
    match a {
        Value::Field(x) => b is Field && x@ == b->Field_0@,
        Value::List(x) => b is List && x@.len() == b->List_0@.len() && forall|i: int|
            0 <= i < x@.len() ==> same_value(#[trigger] x@[i], b->List_0@[i]),
        Value::Dict(x) => b is Dict && x@.len() == b->Dict_0@.len() && forall|i: int|
            0 <= i < x@.len() ==> same_value(#[trigger] x@[i].0, b->Dict_0@[i].0) && same_value(
                x@[i].1,
                b->Dict_0@[i].1,
            ),
        Value::Closure(c) => b is Closure && same_closure(c, b->Closure_0),
        _ => a == b,
    }
}

/// The same stages in order, capturing the same scope.
pub open spec fn same_closure(a: Closure, b: Closure) -> bool
    decreases a,
{
    a.env == b.env && same_jobs(a.job_definitions@, b.job_definitions@)
}

pub open spec fn same_jobs(a: Seq<Job>, b: Seq<Job>) -> bool
    decreases a,
{
    a.len() == b.len() && forall|i: int| 0 <= i < a.len() ==> same_call(#[trigger] a[i].call, b[i].call)
}

/// The same command reference and the same arguments in order.
pub open spec fn same_call(a: CallDefinition, b: CallDefinition) -> bool
    decreases a,
{
    same_definition(a.command, b.command) && same_arguments(a.arguments@, b.arguments@)
}

pub open spec fn same_arguments(a: Seq<ArgumentDefinition>, b: Seq<ArgumentDefinition>) -> bool
    decreases a,
{
    a.len() == b.len() && forall|i: int|
        0 <= i < a.len() ==> (#[trigger] a[i]).name == b[i].name && same_definition(a[i].value, b[i].value)
}

/// The same expression.
pub open spec fn same_definition(a: ValueDefinition, b: ValueDefinition) -> bool
    decreases a,
{
    match a {
        ValueDefinition::Value(v) => b is Value && same_value(v, b->Value_0),
        ValueDefinition::Label(p) => b is Label && p@ == b->Label_0@,
        ValueDefinition::JobDefinition(j) => b is JobDefinition && same_call(j.call, b->JobDefinition_0.call),
        ValueDefinition::ClosureDefinition(js) => b is ClosureDefinition && same_jobs(js@, b->ClosureDefinition_0@),
    }
}

/// A copy of an optional name.
pub fn copy_name(n: &Option<String>) -> (r: Option<String>)
    ensures
        r == *n,
{
    match n {
        Some(s) => Some(s.clone()),
        None => None,
    }
}

/// A copy of each string.
pub fn copy_strings(v: &Vec<String>) -> (r: Vec<String>)
    ensures
        r@ == v@,
{
    let mut r: Vec<String> = Vec::new();
    let mut i: usize = 0;
    while i < v.len()
        invariant
            i <= v.len(),
            r@ == v@.subrange(0, i as int),
        decreases v.len() - i,
    {
        r.push(v[i].clone());
        assert(r@ =~= v@.subrange(0, i + 1));
        i = i + 1;
    }
    assert(v@.subrange(0, i as int) =~= v@);
    r
}

impl Value {
    /// A deep copy: the same variant with copied contents.
    pub fn copy(&self) -> (r: Value)
        ensures
            same_value(*self, r),
        decreases self,
    {
        match self {
            Value::Empty => Value::Empty,
            Value::Text(s) => Value::Text(s.clone()),
            Value::Integer(i) => Value::Integer(*i),
            Value::Bool(b) => Value::Bool(*b),
            Value::File(s) => Value::File(s.clone()),
            Value::Field(v) => Value::Field(copy_strings(v)),
            Value::Type(t) => Value::Type(*t),
            Value::List(v) => {
                let mut r: Vec<Value> = Vec::new();
                let mut i: usize = 0;
                while i < v.len()
                    invariant
                        i <= v.len(),
                        r@.len() == i,
                        *self == Value::List(*v),
                        forall|j: int| 0 <= j < i ==> same_value(#[trigger] v@[j], r@[j]),
                    decreases v.len() - i,
                {
                    proof {
                        vstd::std_specs::vec::axiom_vec_index_decreases(*v, i as int);
                        assert(decreases_to!(*self => self->List_0));
                        assert(decreases_to!(*self => v[i as int]));
                    }
                    r.push(v[i].copy());
                    i = i + 1;
                }
                let res = Value::List(r);
                assert(same_value(*self, res));
                res
            },
            Value::Dict(v) => {
                let mut r: Vec<(Value, Value)> = Vec::new();
                let mut i: usize = 0;
                while i < v.len()
                    invariant
                        i <= v.len(),
                        r@.len() == i,
                        *self == Value::Dict(*v),
                        forall|j: int|
                            0 <= j < i ==> same_value(#[trigger] v@[j].0, r@[j].0) && same_value(
                                v@[j].1,
                                r@[j].1,
                            ),
                    decreases v.len() - i,
                {
                    proof {
                        vstd::std_specs::vec::axiom_vec_index_decreases(*v, i as int);
                        assert(decreases_to!(*self => self->Dict_0));
                        assert(decreases_to!(*self => v[i as int]));
                        assert(decreases_to!(*self => v[i as int].0));
                        assert(decreases_to!(*self => v[i as int].1));
                    }
                    let k = v[i].0.copy();
                    let w = v[i].1.copy();
                    r.push((k, w));
                    assert(r@[i as int] == (k, w));
                    i = i + 1;
                }
                let res = Value::Dict(r);
                assert(r@.len() == v@.len());
                assert forall|j: int| 0 <= j < v@.len() implies same_value(
                    #[trigger] v@[j].0,
                    res->Dict_0@[j].0,
                ) && same_value(v@[j].1, res->Dict_0@[j].1) by {
                    assert(same_value(v@[j].0, r@[j].0));
                }
                assert(same_value(*self, res));
                res
            },
            Value::Command(c) => Value::Command(*c),
            Value::ConditionCommand(c) => Value::ConditionCommand(*c),
            Value::Closure(c) => Value::Closure(c.copy()),
            Value::Scope(id) => Value::Scope(*id),
        }
    }
}

impl Clone for Value {
    fn clone(&self) -> Self {
        self.copy()
    }
}

impl ValueDefinition {
    /// A deep copy: the same variant with copied contents.
    pub fn copy(&self) -> (r: ValueDefinition)
        ensures
            same_definition(*self, r),
            r.blocks() == self.blocks(),
        decreases self,
    {
        match self {
            ValueDefinition::Value(v) => ValueDefinition::Value(v.copy()),
            ValueDefinition::Label(p) => ValueDefinition::Label(copy_strings(p)),
            ValueDefinition::JobDefinition(j) => ValueDefinition::JobDefinition(Box::new(j.copy())),
            ValueDefinition::ClosureDefinition(jobs) => ValueDefinition::ClosureDefinition(copy_jobs(jobs)),
        }
    }
}

impl Clone for ValueDefinition {
    fn clone(&self) -> Self {
        self.copy()
    }
}

impl Clone for Argument {
    fn clone(&self) -> Self {
        Argument { name: copy_name(&self.name), value: self.value.copy() }
    }
}

impl ArgumentDefinition {
    /// A deep copy, with the same name.
    pub fn copy(&self) -> (r: ArgumentDefinition)
        ensures
            r.name == self.name,
            same_definition(self.value, r.value),
            r.value.blocks() == self.value.blocks(),
        decreases self,
    {
        ArgumentDefinition { name: copy_name(&self.name), value: self.value.copy() }
    }
}

impl Clone for ArgumentDefinition {
    fn clone(&self) -> Self {
        self.copy()
    }
}

/// A deep copy of each argument definition.
pub fn copy_arguments(v: &Vec<ArgumentDefinition>) -> (r: Vec<ArgumentDefinition>)
    ensures
        same_arguments(v@, r@),
        any_blocks(r@) == any_blocks(v@),
    decreases v,
{
    let mut r: Vec<ArgumentDefinition> = Vec::new();
    let mut i: usize = 0;
    while i < v.len()
        invariant
            i <= v.len(),
            r@.len() == i,
            forall|j: int| 0 <= j < i ==> (#[trigger] r@[j]).value.blocks() == v@[j].value.blocks(),
            forall|j: int|
                0 <= j < i ==> (#[trigger] v@[j]).name == r@[j].name && same_definition(v@[j].value, r@[j].value),
        decreases v.len() - i,
    {
        r.push(v[i].copy());
        i = i + 1;
    }
    proof {
        if any_blocks(v@) {
            let k = choose|k: int| 0 <= k < v@.len() && (#[trigger] v@[k]).value.blocks();
            assert(r@[k].value.blocks());
        }
        if any_blocks(r@) {
            let k = choose|k: int| 0 <= k < r@.len() && (#[trigger] r@[k]).value.blocks();
            assert(v@[k].value.blocks());
        }
    }
    r
}

} // verus!
