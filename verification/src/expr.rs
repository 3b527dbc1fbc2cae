//! The condition shape: one operator, one column, one operand.

use vstd::prelude::*;
use vstd::string::*;

verus! {

/// One flat condition on a column. `Column` is what names the column and `T`
/// is the type of the values that the column is compared with.
#[derive(Debug, PartialEq)]
pub enum JsonLogicExpr<Column, T> {
    /// `"=="`: the column equals the value, or is null where there is none.
    Eq(Column, Option<T>),
    /// `"<"`: the column is less than the value.
    Lt(Column, T),
    /// `">"`: the column is greater than the value.
    Gt(Column, T),
    /// `"in"`: the column is one of the values.
    In(Column, Vec<T>),
}

/// The mathematical content of a [`JsonLogicExpr`].
pub ghost enum ExprView<Column, T> {
    Eq(Column, Option<T>),
    Lt(Column, T),
    Gt(Column, T),
    In(Column, Seq<T>),
}

impl<Column: DeepView, T: DeepView> DeepView for JsonLogicExpr<Column, T> {
    type V = ExprView<Column::V, T::V>;

    open spec fn deep_view(&self) -> ExprView<Column::V, T::V> {
        match self {
            JsonLogicExpr::Eq(column, value) => ExprView::Eq(
                column.deep_view(),
                value.deep_view(),
            ),
            JsonLogicExpr::Lt(column, value) => ExprView::Lt(
                column.deep_view(),
                value.deep_view(),
            ),
            JsonLogicExpr::Gt(column, value) => ExprView::Gt(
                column.deep_view(),
                value.deep_view(),
            ),
            JsonLogicExpr::In(column, values) => ExprView::In(
                column.deep_view(),
                values.deep_view(),
            ),
        }
    }
}

impl<Column: DeepView, T: DeepView> View for JsonLogicExpr<Column, T> {
    type V = ExprView<Column::V, T::V>;

    open spec fn view(&self) -> ExprView<Column::V, T::V> {
        self.deep_view()
    }
}

impl<Column, T> ExprView<Column, T> {
    /// The column that the condition is about.
    pub open spec fn column(self) -> Column {
        match self {
            ExprView::Eq(column, _) => column,
            ExprView::Lt(column, _) => column,
            ExprView::Gt(column, _) => column,
            ExprView::In(column, _) => column,
        }
    }

    /// The operator symbol under which the condition is written.
    pub open spec fn operator(self) -> Seq<char> {
        match self {
            ExprView::Eq(_, _) => "=="@,
            ExprView::Lt(_, _) => "<"@,
            ExprView::Gt(_, _) => ">"@,
            ExprView::In(_, _) => "in"@,
        }
    }
}

/// A value that a column is compared with.
#[derive(Debug, PartialEq)]
pub enum Scalar {
    Integer(i64),
    /// A whole number that 64 signed bits do not hold, in decimal digits.
    Wide(String),
    Text(String),
    Boolean(bool),
}

/// The mathematical content of a [`Scalar`].
pub ghost enum ScalarView {
    Integer(int),
    Wide(Seq<char>),
    Text(Seq<char>),
    Boolean(bool),
}

impl DeepView for Scalar {
    type V = ScalarView;

    open spec fn deep_view(&self) -> ScalarView {
        match self {
            Scalar::Integer(i) => ScalarView::Integer(*i as int),
            Scalar::Wide(s) => ScalarView::Wide(s@),
            Scalar::Text(s) => ScalarView::Text(s@),
            Scalar::Boolean(b) => ScalarView::Boolean(*b),
        }
    }
}

impl View for Scalar {
    type V = ScalarView;

    open spec fn view(&self) -> ScalarView {
        self.deep_view()
    }
}

/// The type of the values that a column is compared with.
#[derive(Debug, Clone, Copy, PartialEq, Eq, Structural)]
pub enum ValueType {
    /// Integers from `min` to `max`, both included.
    Integer { min: i64, max: i64 },
    /// Whole numbers from `-below` to `above`, both included: a range that
    /// 64 signed bits do not hold.
    Wide { below: u128, above: u128 },
    Text,
    Boolean,
    /// A type that this crate does not read: its values travel as text.
    Other,
}

/// The type of values that stands behind the name of a Rust type: the integer
/// types give their ranges, `String` gives text, `bool` gives booleans, and
/// any other name gives [`ValueType::Other`].
pub open spec fn value_type_of(ty: Seq<char>) -> ValueType {
    if ty == "i8"@ {
        ValueType::Integer { min: -0x80i64, max: 0x7f }
    } else if ty == "i16"@ {
        ValueType::Integer { min: -0x8000i64, max: 0x7fff }
    } else if ty == "i32"@ {
        ValueType::Integer { min: -0x8000_0000i64, max: 0x7fff_ffff }
    } else if ty == "i64"@ || ty == "isize"@ {
        ValueType::Integer { min: i64::MIN, max: i64::MAX }
    } else if ty == "u8"@ {
        ValueType::Integer { min: 0, max: 0xff }
    } else if ty == "u16"@ {
        ValueType::Integer { min: 0, max: 0xffff }
    } else if ty == "u32"@ {
        ValueType::Integer { min: 0, max: 0xffff_ffff }
    } else if ty == "u64"@ || ty == "usize"@ {
        ValueType::Wide { below: 0u128, above: 0xffff_ffff_ffff_ffffu128 }
    } else if ty == "u128"@ {
        ValueType::Wide { below: 0u128, above: 0xffff_ffff_ffff_ffff_ffff_ffff_ffff_ffffu128 }
    } else if ty == "i128"@ {
        ValueType::Wide {
            below: 0x8000_0000_0000_0000_0000_0000_0000_0000u128,
            above: 0x7fff_ffff_ffff_ffff_ffff_ffff_ffff_ffffu128,
        }
    } else if ty == "String"@ {
        ValueType::Text
    } else if ty == "bool"@ {
        ValueType::Boolean
    } else {
        ValueType::Other
    }
}

/// Whether `text` is `name`.
fn is_name(text: &str, name: &str) -> (b: bool)
    ensures
        b == (text@ == name@),
{
    String::from_str(text) == String::from_str(name)
}

impl ValueType {
    /// The type of values that stands behind the name of a Rust type.
    pub fn of(ty: &str) -> (r: ValueType)
        ensures
            r == value_type_of(ty@),
    {
        if is_name(ty, "i8") {
            ValueType::Integer { min: -0x80, max: 0x7f }
        } else if is_name(ty, "i16") {
            ValueType::Integer { min: -0x8000, max: 0x7fff }
        } else if is_name(ty, "i32") {
            ValueType::Integer { min: -0x8000_0000, max: 0x7fff_ffff }
        } else if is_name(ty, "i64") || is_name(ty, "isize") {
            ValueType::Integer { min: i64::MIN, max: i64::MAX }
        } else if is_name(ty, "u8") {
            ValueType::Integer { min: 0, max: 0xff }
        } else if is_name(ty, "u16") {
            ValueType::Integer { min: 0, max: 0xffff }
        } else if is_name(ty, "u32") {
            ValueType::Integer { min: 0, max: 0xffff_ffff }
        } else if is_name(ty, "u64") || is_name(ty, "usize") {
            ValueType::Wide { below: 0, above: 0xffff_ffff_ffff_ffff }
        } else if is_name(ty, "u128") {
            ValueType::Wide { below: 0, above: 0xffff_ffff_ffff_ffff_ffff_ffff_ffff_ffff }
        } else if is_name(ty, "i128") {
            ValueType::Wide {
                below: 0x8000_0000_0000_0000_0000_0000_0000_0000,
                above: 0x7fff_ffff_ffff_ffff_ffff_ffff_ffff_ffff,
            }
        } else if is_name(ty, "String") {
            ValueType::Text
        } else if is_name(ty, "bool") {
            ValueType::Boolean
        } else {
            ValueType::Other
        }
    }
}

} // verus!
