//! What decoding reports when the wire value does not fit.

use vstd::prelude::*;
use vstd::string::*;

verus! {

/// The shape that a wire value was expected to have.
#[derive(Debug, Clone, Copy, PartialEq, Eq, Structural)]
pub enum Shape {
    /// An object.
    Object,
    /// Text that names a column.
    Name,
    /// An object with exactly one member called `var`.
    VarMember,
    /// An object with exactly one member, keyed by an operator.
    SingleOperator,
    /// An array of two operands.
    OperandPair,
    /// A value of the column's type.
    Operand,
    /// An array of values of the column's type.
    OperandList,
    /// An object in which no column is written twice.
    DistinctColumns,
}

/// Why a wire value was not decoded.
#[derive(Debug, PartialEq)]
pub enum DecodeError {
    /// The name on the wire is not the name of the column.
    NameMismatch { struct_name: String, expected: String, received: String },
    /// The value does not have the shape that was expected.
    ShapeMismatch(Shape),
    /// The operator is none of `==`, `<`, `>` and `in`.
    UnknownOperator(String),
}

/// The mathematical content of a [`DecodeError`].
pub ghost enum DecodeErrorView {
    NameMismatch { struct_name: Seq<char>, expected: Seq<char>, received: Seq<char> },
    ShapeMismatch(Shape),
    UnknownOperator(Seq<char>),
}

impl DeepView for DecodeError {
    type V = DecodeErrorView;

    open spec fn deep_view(&self) -> DecodeErrorView {
        match self {
            DecodeError::NameMismatch { struct_name, expected, received } => {
                DecodeErrorView::NameMismatch {
                    struct_name: struct_name@,
                    expected: expected@,
                    received: received@,
                }
            },
            DecodeError::ShapeMismatch(shape) => DecodeErrorView::ShapeMismatch(*shape),
            DecodeError::UnknownOperator(operator) => DecodeErrorView::UnknownOperator(operator@),
        }
    }
}

impl View for DecodeError {
    type V = DecodeErrorView;

    open spec fn view(&self) -> DecodeErrorView {
        self.deep_view()
    }
}

/// The mathematical content of what decoding returns.
pub open spec fn result_view<T: DeepView>(r: Result<T, DecodeError>) -> Result<
    T::V,
    DecodeErrorView,
> {
    match r {
        Ok(value) => Ok(value.deep_view()),
        Err(error) => Err(error.deep_view()),
    }
}

/// What is said about a value that does not have the shape `shape`.
pub open spec fn shape_message(shape: Shape) -> Seq<char> {
    match shape {
        Shape::Object => "expected an object"@,
        Shape::Name => "expected the name of a column"@,
        Shape::VarMember => "expected exactly one member `var`"@,
        Shape::SingleOperator => "expected exactly one operator"@,
        Shape::OperandPair => "expected an array of two operands"@,
        Shape::Operand => "expected a value of the column's type"@,
        Shape::OperandList => "expected an array of values of the column's type"@,
        Shape::DistinctColumns => "expected each column at most once"@,
    }
}

impl DecodeErrorView {
    /// The text in which the error is reported.
    pub open spec fn message(self) -> Seq<char> {
        match self {
            DecodeErrorView::NameMismatch { struct_name, expected, received } => {
                struct_name + " can only receive "@ + expected + ", but instead received "@
                    + received
            },
            DecodeErrorView::ShapeMismatch(shape) => shape_message(shape),
            DecodeErrorView::UnknownOperator(operator) => {
                "unknown operator "@ + operator + ", expected one of `==`, `<`, `>`, `in`"@
            },
        }
    }
}

/// The text for a value that does not have the shape `shape`.
fn shape_text(shape: Shape) -> (r: &'static str)
    ensures
        r@ == shape_message(shape),
{
    match shape {
        Shape::Object => "expected an object",
        Shape::Name => "expected the name of a column",
        Shape::VarMember => "expected exactly one member `var`",
        Shape::SingleOperator => "expected exactly one operator",
        Shape::OperandPair => "expected an array of two operands",
        Shape::Operand => "expected a value of the column's type",
        Shape::OperandList => "expected an array of values of the column's type",
        Shape::DistinctColumns => "expected each column at most once",
    }
}

impl DecodeError {
    /// The text in which the error is reported. A name mismatch gives both
    /// the name that was expected and the name that was received.
    pub fn message(&self) -> (r: String)
        ensures
            r@ == self@.message(),
    {
        match self {
            DecodeError::NameMismatch { struct_name, expected, received } => {
                let mut text = struct_name.clone();
                text.append(" can only receive ");
                text.append(expected.as_str());
                text.append(", but instead received ");
                text.append(received.as_str());
                text
            },
            DecodeError::ShapeMismatch(shape) => String::from_str(shape_text(*shape)),
            DecodeError::UnknownOperator(operator) => {
                let mut text = String::from_str("unknown operator ");
                text.append(operator.as_str());
                text.append(", expected one of `==`, `<`, `>`, `in`");
                text
            },
        }
    }
}

} // verus!
