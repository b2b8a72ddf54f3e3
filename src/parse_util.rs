use vstd::prelude::*;

use crate::errors::{CrushError, CrushResult};
use crate::value::{Argument, Value, ValueType};

verus! {

/// The error of a single-argument accessor: the count first, then the shape.
pub open spec fn single_argument_error(arg: Seq<Argument>, expected: ValueType) -> CrushError {
    if arg.len() != 1 {
        CrushError::ExpectedSingleValue
    } else {
        CrushError::WrongArgumentType(expected)
    }
}

/// The one argument is unnamed and of the expected type.
pub open spec fn is_single_unnamed(arg: Seq<Argument>, expected: ValueType) -> bool {
    &&& arg.len() == 1
    &&& arg[0].name is None
    &&& match arg[0].value {
        Value::Type(_) => expected == ValueType::Type,
        Value::List(_) => expected == ValueType::List,
        Value::Dict(_) => expected == ValueType::Dict,
        Value::Field(_) => expected == ValueType::Field,
        Value::Text(_) => expected == ValueType::Text,
        Value::Integer(_) => expected == ValueType::Integer,
        _ => false,
    }
}

pub fn single_argument_type(mut arg: Vec<Argument>) -> (r: CrushResult<ValueType>)
    ensures
        is_single_unnamed(arg@, ValueType::Type) ==> r == Ok::<ValueType, CrushError>(
            arg@[0].value->Type_0,
        ),
        !is_single_unnamed(arg@, ValueType::Type) ==> r == Err::<ValueType, CrushError>(
            single_argument_error(arg@, ValueType::Type),
        ),
{
    if arg.len() == 1 {
        let a = arg.remove(0);
        match (a.name, a.value) {
            (None, Value::Type(t)) => Ok(t),
            _ => Err(CrushError::WrongArgumentType(ValueType::Type)),
        }
    } else {
        Err(CrushError::ExpectedSingleValue)
    }
}

pub fn single_argument_list(mut arg: Vec<Argument>) -> (r: CrushResult<Vec<Value>>)
    ensures
        is_single_unnamed(arg@, ValueType::List) ==> r == Ok::<Vec<Value>, CrushError>(
            arg@[0].value->List_0,
        ),
        !is_single_unnamed(arg@, ValueType::List) ==> r == Err::<Vec<Value>, CrushError>(
            single_argument_error(arg@, ValueType::List),
        ),
{
    if arg.len() == 1 {
        let a = arg.remove(0);
        match (a.name, a.value) {
            (None, Value::List(t)) => Ok(t),
            _ => Err(CrushError::WrongArgumentType(ValueType::List)),
        }
    } else {
        Err(CrushError::ExpectedSingleValue)
    }
}

pub fn single_argument_dict(mut arg: Vec<Argument>) -> (r: CrushResult<Vec<(Value, Value)>>)
    ensures
        is_single_unnamed(arg@, ValueType::Dict) ==> r == Ok::<Vec<(Value, Value)>, CrushError>(
            arg@[0].value->Dict_0,
        ),
        !is_single_unnamed(arg@, ValueType::Dict) ==> r == Err::<Vec<(Value, Value)>, CrushError>(
            single_argument_error(arg@, ValueType::Dict),
        ),
{
    if arg.len() == 1 {
        let a = arg.remove(0);
        match (a.name, a.value) {
            (None, Value::Dict(t)) => Ok(t),
            _ => Err(CrushError::WrongArgumentType(ValueType::Dict)),
        }
    } else {
        Err(CrushError::ExpectedSingleValue)
    }
}

pub fn single_argument_field(mut arg: Vec<Argument>) -> (r: CrushResult<Vec<String>>)
    ensures
        is_single_unnamed(arg@, ValueType::Field) ==> r == Ok::<Vec<String>, CrushError>(
            arg@[0].value->Field_0,
        ),
        !is_single_unnamed(arg@, ValueType::Field) ==> r == Err::<Vec<String>, CrushError>(
            single_argument_error(arg@, ValueType::Field),
        ),
{
    if arg.len() == 1 {
        let a = arg.remove(0);
        match (a.name, a.value) {
            (None, Value::Field(t)) => Ok(t),
            _ => Err(CrushError::WrongArgumentType(ValueType::Field)),
        }
    } else {
        Err(CrushError::ExpectedSingleValue)
    }
}

pub fn single_argument_text(mut arg: Vec<Argument>) -> (r: CrushResult<String>)
    ensures
        is_single_unnamed(arg@, ValueType::Text) ==> r == Ok::<String, CrushError>(
            arg@[0].value->Text_0,
        ),
        !is_single_unnamed(arg@, ValueType::Text) ==> r == Err::<String, CrushError>(
            single_argument_error(arg@, ValueType::Text),
        ),
{
    if arg.len() == 1 {
        let a = arg.remove(0);
        match (a.name, a.value) {
            (None, Value::Text(t)) => Ok(t),
            _ => Err(CrushError::WrongArgumentType(ValueType::Text)),
        }
    } else {
        Err(CrushError::ExpectedSingleValue)
    }
}

pub fn single_argument_integer(mut arg: Vec<Argument>) -> (r: CrushResult<i128>)
    ensures
        is_single_unnamed(arg@, ValueType::Integer) ==> r == Ok::<i128, CrushError>(
            arg@[0].value->Integer_0,
        ),
        !is_single_unnamed(arg@, ValueType::Integer) ==> r == Err::<i128, CrushError>(
            single_argument_error(arg@, ValueType::Integer),
        ),
{
    if arg.len() == 1 {
        let a = arg.remove(0);
        match (a.name, a.value) {
            (None, Value::Integer(i)) => Ok(i),
            _ => Err(CrushError::WrongArgumentType(ValueType::Integer)),
        }
    } else {
        Err(CrushError::ExpectedSingleValue)
    }
}

} // verus!
