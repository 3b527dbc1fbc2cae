//! The guard and the binding of a queryable column.

use vstd::prelude::*;
use vstd::string::*;
use crate::error::{result_view, DecodeError, DecodeErrorView, Shape};
use crate::names::{camel_case_spec, var_struct_name_spec, QueryColumnName};
use crate::value::{lemma_object_view, members_view, Value, ValueView};

verus! {

/// A queryable column as it is declared: the name under which it is queried,
/// the column of the table that stands behind it, and the type of its values.
#[derive(Debug, PartialEq)]
pub struct QueryColumn {
    pub query_column_name: QueryColumnName,
    pub diesel_column_name: String,
    pub ty: String,
}

/// The mathematical content of a [`QueryColumn`].
pub ghost struct QueryColumnView {
    pub query_column_name: Seq<char>,
    pub diesel_column_name: Seq<char>,
    pub ty: Seq<char>,
}

impl DeepView for QueryColumn {
    type V = QueryColumnView;

    open spec fn deep_view(&self) -> QueryColumnView {
        QueryColumnView {
            query_column_name: self.query_column_name.0@,
            diesel_column_name: self.diesel_column_name@,
            ty: self.ty@,
        }
    }
}

impl View for QueryColumn {
    type V = QueryColumnView;

    open spec fn view(&self) -> QueryColumnView {
        self.deep_view()
    }
}

/// The guard structure of a column: it lets one name through.
#[derive(Debug, PartialEq)]
pub struct ColumnStruct {
    /// The name of the structure, in `CamelCase`.
    pub struct_name: String,
    /// The one name that the guard accepts.
    pub column_path_string: String,
}

/// The binding structure of a column: a guard, and the column of the table
/// that a guarded name stands for.
#[derive(Debug, PartialEq)]
pub struct VarStruct {
    /// The name of the structure: the name of the guard structure and `Var`.
    pub struct_name: String,
    pub column: ColumnStruct,
    pub diesel_column_name: String,
}

/// A name that has passed a guard.
#[derive(Debug, PartialEq)]
pub struct Column(String);

/// A name that has passed a guard, bound to the column of the table that it
/// stands for.
#[derive(Debug, PartialEq)]
pub struct Var {
    var: Column,
    diesel_column_name: String,
}

/// The mathematical content of a [`Var`].
pub ghost struct VarView {
    pub var: Seq<char>,
    pub diesel_column_name: Seq<char>,
}

impl DeepView for Column {
    type V = Seq<char>;

    closed spec fn deep_view(&self) -> Seq<char> {
        self.0@
    }
}

impl View for Column {
    type V = Seq<char>;

    open spec fn view(&self) -> Seq<char> {
        self.deep_view()
    }
}

impl DeepView for Var {
    type V = VarView;

    closed spec fn deep_view(&self) -> VarView {
        VarView { var: self.var@, diesel_column_name: self.diesel_column_name@ }
    }
}

impl View for Var {
    type V = VarView;

    open spec fn view(&self) -> VarView {
        self.deep_view()
    }
}

/// How many of `members` are keyed by `key`.
pub open spec fn member_count(members: Seq<(Seq<char>, ValueView)>, key: Seq<char>) -> nat
    decreases members.len(),
{
    if members.len() == 0 {
        0
    } else if members.last().0 == key {
        member_count(members.drop_last(), key) + 1
    } else {
        member_count(members.drop_last(), key)
    }
}

/// The value of the last of `members` that is keyed by `key`.
pub open spec fn member_value(members: Seq<(Seq<char>, ValueView)>, key: Seq<char>) -> ValueView
    decreases members.len(),
{
    if members.len() == 0 {
        ValueView::Null
    } else if members.last().0 == key {
        members.last().1
    } else {
        member_value(members.drop_last(), key)
    }
}

/// What a guard makes of a wire value: text that is the guard's name passes,
/// other text is a name mismatch, anything else has the wrong shape.
pub open spec fn decode_name(guard: ColumnStruct, value: ValueView) -> Result<
    Seq<char>,
    DecodeErrorView,
> {
    match value {
        ValueView::Text(contents) => {
            if contents == guard.column_path_string@ {
                Ok(contents)
            } else {
                Err(
                    DecodeErrorView::NameMismatch {
                        struct_name: guard.struct_name@,
                        expected: guard.column_path_string@,
                        received: contents,
                    },
                )
            }
        },
        _ => Err(DecodeErrorView::ShapeMismatch(Shape::Name)),
    }
}

/// What a binding structure makes of a wire value: an object with exactly one
/// member `var`, whose value passes the guard, is bound to the column of the table.
pub open spec fn decode_var(binding: VarStruct, value: ValueView) -> Result<
    VarView,
    DecodeErrorView,
> {
    match value {
        ValueView::Object(members) => {
            if member_count(members, "var"@) != 1 {
                Err(DecodeErrorView::ShapeMismatch(Shape::VarMember))
            } else {
                match decode_name(binding.column, member_value(members, "var"@)) {
                    Ok(name) => Ok(
                        VarView { var: name, diesel_column_name: binding.diesel_column_name@ },
                    ),
                    Err(error) => Err(error),
                }
            }
        },
        _ => Err(DecodeErrorView::ShapeMismatch(Shape::Object)),
    }
}

/// Where the members of an object that are keyed by one key stand.
pub enum Lookup {
    Absent,
    Once(usize),
    Repeated,
}

/// Looks for the members that are keyed by `key`.
pub fn find_member(members: &Vec<(String, Value)>, key: &str) -> (r: Lookup)
    ensures
        member_count(members_view(members@), key@) == 0 <==> r is Absent,
        member_count(members_view(members@), key@) == 1 <==> r is Once,
        r matches Lookup::Once(i) ==> i < members@.len() && members@[i as int].0@ == key@
            && members@[i as int].1@ == member_value(members_view(members@), key@),
{
    let wanted = String::from_str(key);
    let mut found = Lookup::Absent;
    let mut i: usize = 0;
    let ghost all = members_view(members@);
    while i < members.len()
        invariant
            i <= members@.len(),
            wanted@ == key@,
            all == members_view(members@),
            member_count(all.take(i as int), key@) == 0 <==> found is Absent,
            member_count(all.take(i as int), key@) == 1 <==> found is Once,
            found matches Lookup::Once(j) ==> j < i && members@[j as int].0@ == key@
                && members@[j as int].1@ == member_value(all.take(i as int), key@),
        decreases members@.len() - i,
    {
        proof {
            assert(all.take(i + 1).drop_last() == all.take(i as int));
            assert(all.take(i + 1).last() == all[i as int]);
        }
        if members[i].0 == wanted {
            found =
            match found {
                Lookup::Absent => Lookup::Once(i),
                _ => Lookup::Repeated,
            };
        }
        i += 1;
    }
    proof {
        assert(all.take(members@.len() as int) == all);
    }
    found
}

impl Column {
    /// The name, which is the name that its guard accepts.
    pub fn contents(&self) -> (r: &String)
        ensures
            r@ == self@,
    {
        &self.0
    }
}

impl Var {
    /// The guarded name.
    pub fn var(&self) -> (r: &Column)
        ensures
            r@ == self@.var,
    {
        &self.var
    }

    /// The column of the table that the name stands for.
    pub fn to_diesel_column(&self) -> (r: String)
        ensures
            r@ == self@.diesel_column_name,
    {
        self.diesel_column_name.clone()
    }
}

impl ColumnStruct {
    /// Lets a wire value through the guard.
    pub fn deserialize(&self, value: &Value) -> (r: Result<Column, DecodeError>)
        ensures
            result_view(r) == decode_name(*self, value@),
    {
        match value {
            Value::Text(contents) => {
                if *contents == self.column_path_string {
                    Ok(Column(contents.clone()))
                } else {
                    Err(
                        DecodeError::NameMismatch {
                            struct_name: self.struct_name.clone(),
                            expected: self.column_path_string.clone(),
                            received: contents.clone(),
                        },
                    )
                }
            },
            _ => Err(DecodeError::ShapeMismatch(Shape::Name)),
        }
    }
}

impl VarStruct {
    /// Decodes a binding from a wire value.
    pub fn deserialize(&self, value: &Value) -> (r: Result<Var, DecodeError>)
        ensures
            result_view(r) == decode_var(*self, value@),
    {
        match value {
            Value::Object(members) => {
                proof {
                    lemma_object_view(*members);
                }
                match find_member(members, "var") {
                    Lookup::Once(i) => {
                        match self.column.deserialize(&members[i].1) {
                            Ok(name) => Ok(
                                Var {
                                    var: name,
                                    diesel_column_name: self.diesel_column_name.clone(),
                                },
                            ),
                            Err(error) => Err(error),
                        }
                    },
                    _ => Err(DecodeError::ShapeMismatch(Shape::VarMember)),
                }
            },
            _ => Err(DecodeError::ShapeMismatch(Shape::Object)),
        }
    }
}

/// Whether `guard` is the guard structure of the column that is queried as `name`.
pub open spec fn is_guard_of(guard: ColumnStruct, name: Seq<char>) -> bool {
    &&& guard.struct_name@ == camel_case_spec(name)
    &&& guard.column_path_string@ == name
}

/// Whether `binding` is the binding structure of the column that is queried
/// as `name` and stands for `diesel_column_name`.
pub open spec fn is_binding_of(
    binding: VarStruct,
    name: Seq<char>,
    diesel_column_name: Seq<char>,
) -> bool {
    &&& binding.struct_name@ == var_struct_name_spec(name)
    &&& is_guard_of(binding.column, name)
    &&& binding.diesel_column_name@ == diesel_column_name
}

/// Makes the guard structure of a column.
pub fn generate_column_struct(query_column_name: &QueryColumnName) -> (r: ColumnStruct)
    ensures
        is_guard_of(r, query_column_name.0@),
{
    let struct_name = query_column_name.as_column_struct_name();
    let column_path_string = query_column_name.as_struct_field_name();
    ColumnStruct { struct_name, column_path_string }
}

/// Makes the binding structure of a column.
pub fn generate_var_struct(query_column_name: &QueryColumnName, diesel_column_name: &str) -> (r:
    VarStruct)
    ensures
        is_binding_of(r, query_column_name.0@, diesel_column_name@),
{
    let struct_name = query_column_name.as_var_struct_name();
    let column = generate_column_struct(query_column_name);
    VarStruct { struct_name, column, diesel_column_name: String::from_str(diesel_column_name) }
}

} // verus!
