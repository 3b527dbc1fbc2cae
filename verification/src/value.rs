//! The self-describing values that conditions are decoded from.

use vstd::prelude::*;

verus! {

/// A value of the wire format, as a JSON document describes it.
#[derive(Debug, PartialEq)]
pub enum Value {
    Null,
    Bool(bool),
    Integer(i64),
    /// A number that is no 64-bit integer, kept as its decimal text.
    Decimal(String),
    Text(String),
    Array(Vec<Value>),
    /// The members of an object, in the order in which they were written.
    Object(Vec<(String, Value)>),
}

/// The mathematical content of a [`Value`].
pub ghost enum ValueView {
    Null,
    Bool(bool),
    Integer(int),
    Decimal(Seq<char>),
    Text(Seq<char>),
    Array(Seq<ValueView>),
    Object(Seq<(Seq<char>, ValueView)>),
}

/// The mathematical content of a value.
pub open spec fn value_view(value: Value) -> ValueView
    decreases value,
{
    match value {
        Value::Null => ValueView::Null,
        Value::Bool(b) => ValueView::Bool(b),
        Value::Integer(i) => ValueView::Integer(i as int),
        Value::Decimal(s) => ValueView::Decimal(s@),
        Value::Text(s) => ValueView::Text(s@),
        Value::Array(items) => ValueView::Array(
            Seq::new(
                items@.len(),
                |i: int|
                    if 0 <= i < items@.len() {
                        value_view(items@[i])
                    } else {
                        ValueView::Null
                    },
            ),
        ),
        Value::Object(members) => ValueView::Object(
            Seq::new(
                members@.len(),
                |i: int|
                    if 0 <= i < members@.len() {
                        (members@[i].0@, value_view(members@[i].1))
                    } else {
                        (Seq::empty(), ValueView::Null)
                    },
            ),
        ),
    }
}

impl DeepView for Value {
    type V = ValueView;

    open spec fn deep_view(&self) -> ValueView {
        value_view(*self)
    }
}

/// The mathematical content of the items of an array.
pub open spec fn items_view(items: Seq<Value>) -> Seq<ValueView> {
    Seq::new(items.len(), |i: int| items[i].deep_view())
}

/// The mathematical content of the members of an object.
pub open spec fn members_view(members: Seq<(String, Value)>) -> Seq<(Seq<char>, ValueView)> {
    Seq::new(members.len(), |i: int| (members[i].0@, members[i].1.deep_view()))
}

/// The content of an array is the content of its items, in their order.
pub proof fn lemma_array_view(items: Vec<Value>)
    ensures
        Value::Array(items).deep_view() == ValueView::Array(items_view(items@)),
{
    assert(Value::Array(items).deep_view()->Array_0 =~= items_view(items@));
}

/// The content of an object is the content of its members, in their order.
pub proof fn lemma_object_view(members: Vec<(String, Value)>)
    ensures
        Value::Object(members).deep_view() == ValueView::Object(members_view(members@)),
{
    assert(Value::Object(members).deep_view()->Object_0 =~= members_view(members@));
}

impl View for Value {
    type V = ValueView;

    open spec fn view(&self) -> ValueView {
        self.deep_view()
    }
}

} // verus!
