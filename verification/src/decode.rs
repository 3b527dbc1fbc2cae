//! Decoding a condition from its wire form: an object with one member, keyed
//! by the operator, whose value is the array of the binding and the operand.

use vstd::prelude::*;
use vstd::string::*;
use crate::column::{decode_var, Var, VarStruct, VarView};
use crate::error::{result_view, DecodeError, DecodeErrorView, Shape};
use crate::expr::{ExprView, JsonLogicExpr, Scalar, ScalarView, ValueType};
use crate::numeral::{is_numeral_within, numeral_within};
use crate::value::{items_view, lemma_array_view, lemma_object_view, Value, ValueView};

verus! {

/// What a wire value is as a value of the type `ty`.
pub open spec fn decode_operand(ty: ValueType, value: ValueView) -> Result<
    ScalarView,
    DecodeErrorView,
> {
    match (ty, value) {
        (ValueType::Integer { min, max }, ValueView::Integer(i)) => {
            if min <= i <= max {
                Ok(ScalarView::Integer(i))
            } else {
                Err(DecodeErrorView::ShapeMismatch(Shape::Operand))
            }
        },
        (ValueType::Wide { below, above }, ValueView::Integer(i)) => {
            if -below <= i <= above {
                Ok(ScalarView::Integer(i))
            } else {
                Err(DecodeErrorView::ShapeMismatch(Shape::Operand))
            }
        },
        (ValueType::Wide { below, above }, ValueView::Decimal(s)) => {
            if is_numeral_within(s, below as int, above as int) {
                Ok(ScalarView::Wide(s))
            } else {
                Err(DecodeErrorView::ShapeMismatch(Shape::Operand))
            }
        },
        (ValueType::Text, ValueView::Text(s)) => Ok(ScalarView::Text(s)),
        (ValueType::Other, ValueView::Text(s)) => Ok(ScalarView::Text(s)),
        (ValueType::Boolean, ValueView::Bool(b)) => Ok(ScalarView::Boolean(b)),
        _ => Err(DecodeErrorView::ShapeMismatch(Shape::Operand)),
    }
}

/// What the items of an array are as values of the type `ty`: all of them, in
/// their order, or the error of the first that is none.
pub open spec fn decode_operands(ty: ValueType, items: Seq<ValueView>) -> Result<
    Seq<ScalarView>,
    DecodeErrorView,
>
    decreases items.len(),
{
    if items.len() == 0 {
        Ok(Seq::empty())
    } else {
        match decode_operands(ty, items.drop_last()) {
            Ok(values) => match decode_operand(ty, items.last()) {
                Ok(value) => Ok(values.push(value)),
                Err(error) => Err(error),
            },
            Err(error) => Err(error),
        }
    }
}

/// Whether `operator` is one of the four operator symbols.
pub open spec fn is_operator(operator: Seq<char>) -> bool {
    operator == "=="@ || operator == "<"@ || operator == ">"@ || operator == "in"@
}

/// The condition that an operator makes of a binding and an operand.
pub open spec fn decode_operation(
    operator: Seq<char>,
    var: VarView,
    ty: ValueType,
    operand: ValueView,
) -> Result<ExprView<VarView, ScalarView>, DecodeErrorView> {
    if operator == "=="@ {
        if operand is Null {
            Ok(ExprView::Eq(var, None))
        } else {
            match decode_operand(ty, operand) {
                Ok(value) => Ok(ExprView::Eq(var, Some(value))),
                Err(error) => Err(error),
            }
        }
    } else if operator == "<"@ {
        match decode_operand(ty, operand) {
            Ok(value) => Ok(ExprView::Lt(var, value)),
            Err(error) => Err(error),
        }
    } else if operator == ">"@ {
        match decode_operand(ty, operand) {
            Ok(value) => Ok(ExprView::Gt(var, value)),
            Err(error) => Err(error),
        }
    } else {
        match operand {
            ValueView::Array(items) => match decode_operands(ty, items) {
                Ok(values) => Ok(ExprView::In(var, values)),
                Err(error) => Err(error),
            },
            _ => Err(DecodeErrorView::ShapeMismatch(Shape::OperandList)),
        }
    }
}

/// The condition that a wire value stands for, on the column of `binding`
/// whose values have the type `ty`.
pub open spec fn decode_expr(binding: VarStruct, ty: ValueType, value: ValueView) -> Result<
    ExprView<VarView, ScalarView>,
    DecodeErrorView,
> {
    match value {
        ValueView::Object(members) => {
            if members.len() != 1 {
                Err(DecodeErrorView::ShapeMismatch(Shape::SingleOperator))
            } else if !is_operator(members[0].0) {
                Err(DecodeErrorView::UnknownOperator(members[0].0))
            } else {
                match members[0].1 {
                    ValueView::Array(operands) => {
                        if operands.len() != 2 {
                            Err(DecodeErrorView::ShapeMismatch(Shape::OperandPair))
                        } else {
                            match decode_var(binding, operands[0]) {
                                Ok(var) => decode_operation(members[0].0, var, ty, operands[1]),
                                Err(error) => Err(error),
                            }
                        }
                    },
                    _ => Err(DecodeErrorView::ShapeMismatch(Shape::OperandPair)),
                }
            }
        },
        _ => Err(DecodeErrorView::ShapeMismatch(Shape::Object)),
    }
}

/// Whether `value` is a value of the type `ty`.
pub open spec fn has_type(ty: ValueType, value: ScalarView) -> bool {
    match (ty, value) {
        (ValueType::Integer { min, max }, ScalarView::Integer(i)) => min <= i <= max,
        (ValueType::Wide { below, above }, ScalarView::Integer(i)) => -below <= i <= above,
        (ValueType::Wide { below, above }, ScalarView::Wide(s)) => is_numeral_within(
            s,
            below as int,
            above as int,
        ),
        (ValueType::Text, ScalarView::Text(_)) => true,
        (ValueType::Other, ScalarView::Text(_)) => true,
        (ValueType::Boolean, ScalarView::Boolean(_)) => true,
        _ => false,
    }
}

/// Whether `expr` is a condition on the column of `binding` whose operands
/// are values of the type `ty`.
pub open spec fn is_condition_on(
    expr: ExprView<VarView, ScalarView>,
    binding: VarStruct,
    ty: ValueType,
) -> bool {
    &&& expr.column().var == binding.column.column_path_string@
    &&& expr.column().diesel_column_name == binding.diesel_column_name@
    &&& match expr {
        ExprView::Eq(_, None) => true,
        ExprView::Eq(_, Some(value)) => has_type(ty, value),
        ExprView::Lt(_, value) => has_type(ty, value),
        ExprView::Gt(_, value) => has_type(ty, value),
        ExprView::In(_, values) => forall|i: int|
            0 <= i < values.len() ==> has_type(ty, #[trigger] values[i]),
    }
}

impl Scalar {
    /// Reads a wire value as a value of the type `ty`.
    pub fn deserialize(ty: ValueType, value: &Value) -> (r: Result<Scalar, DecodeError>)
        ensures
            result_view(r) == decode_operand(ty, value@),
    {
        match ty {
            ValueType::Integer { min, max } => match value {
                Value::Integer(i) => {
                    if min <= *i && *i <= max {
                        Ok(Scalar::Integer(*i))
                    } else {
                        Err(DecodeError::ShapeMismatch(Shape::Operand))
                    }
                },
                _ => Err(DecodeError::ShapeMismatch(Shape::Operand)),
            },
            ValueType::Wide { below, above } => match value {
                Value::Integer(i) => {
                    let within = if *i >= 0 {
                        (*i as u128) <= above
                    } else {
                        (-(*i as i128)) as u128 <= below
                    };
                    if within {
                        Ok(Scalar::Integer(*i))
                    } else {
                        Err(DecodeError::ShapeMismatch(Shape::Operand))
                    }
                },
                Value::Decimal(s) => {
                    if numeral_within(s.as_str(), below, above) {
                        Ok(Scalar::Wide(s.clone()))
                    } else {
                        Err(DecodeError::ShapeMismatch(Shape::Operand))
                    }
                },
                _ => Err(DecodeError::ShapeMismatch(Shape::Operand)),
            },
            ValueType::Text => match value {
                Value::Text(s) => Ok(Scalar::Text(s.clone())),
                _ => Err(DecodeError::ShapeMismatch(Shape::Operand)),
            },
            ValueType::Other => match value {
                Value::Text(s) => Ok(Scalar::Text(s.clone())),
                _ => Err(DecodeError::ShapeMismatch(Shape::Operand)),
            },
            ValueType::Boolean => match value {
                Value::Bool(b) => Ok(Scalar::Boolean(*b)),
                _ => Err(DecodeError::ShapeMismatch(Shape::Operand)),
            },
        }
    }

    /// Reads the items of an array as values of the type `ty`.
    pub fn deserialize_all(ty: ValueType, items: &Vec<Value>) -> (r: Result<
        Vec<Scalar>,
        DecodeError,
    >)
        ensures
            result_view(r) == decode_operands(ty, items_view(items@)),
    {
        let mut values: Vec<Scalar> = Vec::new();
        let ghost all = items_view(items@);
        let mut i: usize = 0;
        proof {
            assert(values.deep_view() == Seq::<ScalarView>::empty());
        }
        while i < items.len()
            invariant
                i <= items@.len(),
                all == items_view(items@),
                decode_operands(ty, all.take(i as int)) == Ok::<Seq<ScalarView>, DecodeErrorView>(
                    values.deep_view(),
                ),
            decreases items@.len() - i,
        {
            proof {
                assert(all.take(i + 1).drop_last() == all.take(i as int));
                assert(all.take(i + 1).last() == items@[i as int]@);
            }
            match Scalar::deserialize(ty, &items[i]) {
                Ok(value) => {
                    let ghost before = values.deep_view();
                    values.push(value);
                    proof {
                        assert(values.deep_view() == before.push(value@));
                    }
                },
                Err(error) => {
                    proof {
                        lemma_operands_fail(ty, all, i + 1);
                    }
                    return Err(error);
                },
            }
            i += 1;
        }
        proof {
            assert(all.take(items@.len() as int) == all);
        }
        Ok(values)
    }
}

/// Once the first `n` items fail to decode, all of them fail in the same way.
proof fn lemma_operands_fail(ty: ValueType, items: Seq<ValueView>, n: int)
    requires
        0 <= n <= items.len(),
        decode_operands(ty, items.take(n)) is Err,
    ensures
        decode_operands(ty, items) == decode_operands(ty, items.take(n)),
    decreases items.len() - n,
{
    if n == items.len() {
        assert(items.take(n) == items);
    } else {
        assert(items.take(n + 1).drop_last() == items.take(n));
        lemma_operands_fail(ty, items, n + 1);
    }
}

impl JsonLogicExpr<Var, Scalar> {
    /// Decodes a condition on the column of `binding`, whose values have the
    /// type `ty`, from its wire form.
    pub fn deserialize(binding: &VarStruct, ty: ValueType, value: &Value) -> (r: Result<
        JsonLogicExpr<Var, Scalar>,
        DecodeError,
    >)
        ensures
            result_view(r) == decode_expr(*binding, ty, value@),
    {
        let members = match value {
            Value::Object(members) => members,
            _ => { return Err(DecodeError::ShapeMismatch(Shape::Object)); },
        };
        proof {
            lemma_object_view(*members);
        }
        if members.len() != 1 {
            return Err(DecodeError::ShapeMismatch(Shape::SingleOperator));
        }
        let operator = &members[0].0;
        let is_eq = *operator == String::from_str("==");
        let is_lt = *operator == String::from_str("<");
        let is_gt = *operator == String::from_str(">");
        let is_in = *operator == String::from_str("in");
        if !(is_eq || is_lt || is_gt || is_in) {
            return Err(DecodeError::UnknownOperator(operator.clone()));
        }
        let operands = match &members[0].1 {
            Value::Array(operands) => operands,
            _ => { return Err(DecodeError::ShapeMismatch(Shape::OperandPair)); },
        };
        proof {
            lemma_array_view(*operands);
        }
        if operands.len() != 2 {
            return Err(DecodeError::ShapeMismatch(Shape::OperandPair));
        }
        let var = match binding.deserialize(&operands[0]) {
            Ok(var) => var,
            Err(error) => { return Err(error); },
        };
        let operand = &operands[1];
        if is_eq {
            match operand {
                Value::Null => Ok(JsonLogicExpr::Eq(var, None)),
                _ => match Scalar::deserialize(ty, operand) {
                    Ok(value) => Ok(JsonLogicExpr::Eq(var, Some(value))),
                    Err(error) => Err(error),
                },
            }
        } else if is_lt {
            match Scalar::deserialize(ty, operand) {
                Ok(value) => Ok(JsonLogicExpr::Lt(var, value)),
                Err(error) => Err(error),
            }
        } else if is_gt {
            match Scalar::deserialize(ty, operand) {
                Ok(value) => Ok(JsonLogicExpr::Gt(var, value)),
                Err(error) => Err(error),
            }
        } else {
            match operand {
                Value::Array(items) => {
                    proof {
                        lemma_array_view(*items);
                    }
                    match Scalar::deserialize_all(ty, items) {
                        Ok(values) => Ok(JsonLogicExpr::In(var, values)),
                        Err(error) => Err(error),
                    }
                },
                _ => Err(DecodeError::ShapeMismatch(Shape::OperandList)),
            }
        }
    }
}

} // verus!
