//! The query structure: one optional condition for each queryable column.

use vstd::prelude::*;
use vstd::string::*;
use crate::column::{
    find_member, generate_var_struct, is_binding_of, member_count, member_value, Lookup,
    QueryColumn, QueryColumnView, Var, VarStruct, VarView,
};
use crate::decode::{decode_expr, is_condition_on};
use crate::error::{result_view, DecodeError, DecodeErrorView, Shape};
use crate::expr::{value_type_of, ExprView, JsonLogicExpr, Scalar, ScalarView, ValueType};
use crate::laws::law_decoded_query_conforms;
use crate::value::{lemma_object_view, Value, ValueView};

verus! {

/// One field of the query structure.
#[derive(Debug, PartialEq)]
pub struct QueryField {
    /// The name of the field: the name under which the column is queried.
    pub field_name: String,
    /// The binding structure of the column.
    pub var: VarStruct,
    /// The type of the column's values, as it was declared.
    pub ty: String,
    /// The type of the column's values, as conditions are read against it.
    pub value_type: ValueType,
}

/// The query structure of a table shape: its name, where the condition type
/// is found, and one field for each queryable column, in declaration order.
#[derive(Debug, PartialEq)]
pub struct QueryStruct {
    pub struct_name: String,
    pub json_logic_parent: String,
    pub fields: Vec<QueryField>,
}

/// A query: for each queryable column, in declaration order, the condition on
/// it, if there is one.
#[derive(Debug, PartialEq)]
pub struct Query {
    pub fields: Vec<Option<JsonLogicExpr<Var, Scalar>>>,
}

impl DeepView for Query {
    type V = Seq<Option<ExprView<VarView, ScalarView>>>;

    open spec fn deep_view(&self) -> Seq<Option<ExprView<VarView, ScalarView>>> {
        self.fields.deep_view()
    }
}

impl View for Query {
    type V = Seq<Option<ExprView<VarView, ScalarView>>>;

    open spec fn view(&self) -> Seq<Option<ExprView<VarView, ScalarView>>> {
        self.deep_view()
    }
}

/// Where the items that a declaration expands into find the condition type
/// and the unpacking fold: in `diesel_json_logic`, the crate that applications
/// depend on, or in the crate itself while that crate is tested.
pub open spec fn parent_path(is_test: bool) -> Seq<char> {
    if is_test {
        "crate"@
    } else {
        "::diesel_json_logic"@
    }
}

/// Whether `field` is the field of the query structure that `column` declares.
pub open spec fn field_of_column(field: QueryField, column: QueryColumnView) -> bool {
    &&& field.field_name@ == column.query_column_name
    &&& is_binding_of(field.var, column.query_column_name, column.diesel_column_name)
    &&& field.ty@ == column.ty
    &&& field.value_type == value_type_of(column.ty)
}

/// Whether `query_struct` is the query structure that is called `name` and
/// has one field for each of `columns`, in their order.
pub open spec fn is_query_struct_of(
    query_struct: QueryStruct,
    name: Seq<char>,
    columns: Seq<QueryColumnView>,
    is_test: bool,
) -> bool {
    &&& query_struct.struct_name@ == name
    &&& query_struct.json_logic_parent@ == parent_path(is_test)
    &&& query_struct.fields@.len() == columns.len()
    &&& forall|i: int|
        0 <= i < columns.len() ==> field_of_column(#[trigger] query_struct.fields@[i], columns[i])
}

/// What a field of the query structure makes of the members of an object: no
/// condition where the column is not written or is written as null, the
/// decoded condition where it is written once, an error where it is written
/// more than once.
pub open spec fn decode_field(field: QueryField, members: Seq<(Seq<char>, ValueView)>) -> Result<
    Option<ExprView<VarView, ScalarView>>,
    DecodeErrorView,
> {
    let written = member_count(members, field.field_name@);
    let value = member_value(members, field.field_name@);
    if written == 0 {
        Ok(None)
    } else if written > 1 {
        Err(DecodeErrorView::ShapeMismatch(Shape::DistinctColumns))
    } else if value is Null {
        Ok(None)
    } else {
        match decode_expr(field.var, field.value_type, value) {
            Ok(expr) => Ok(Some(expr)),
            Err(error) => Err(error),
        }
    }
}

/// What the fields make of the members of an object: what each of them makes
/// of it, in declaration order, or the error of the first that fails.
pub open spec fn decode_fields(
    fields: Seq<QueryField>,
    members: Seq<(Seq<char>, ValueView)>,
) -> Result<Seq<Option<ExprView<VarView, ScalarView>>>, DecodeErrorView>
    decreases fields.len(),
{
    if fields.len() == 0 {
        Ok(Seq::empty())
    } else {
        match decode_fields(fields.drop_last(), members) {
            Ok(decoded) => match decode_field(fields.last(), members) {
                Ok(field) => Ok(decoded.push(field)),
                Err(error) => Err(error),
            },
            Err(error) => Err(error),
        }
    }
}

/// The query that a wire value stands for. Members that name no queryable
/// column are passed over.
pub open spec fn decode_query(query_struct: QueryStruct, value: ValueView) -> Result<
    Seq<Option<ExprView<VarView, ScalarView>>>,
    DecodeErrorView,
> {
    match value {
        ValueView::Object(members) => decode_fields(query_struct.fields@, members),
        _ => Err(DecodeErrorView::ShapeMismatch(Shape::Object)),
    }
}

/// Whether a query has one field for each field of the query structure, each
/// condition in it being a condition on the column of its field.
pub open spec fn conforms_to(
    fields: Seq<Option<ExprView<VarView, ScalarView>>>,
    query_struct: QueryStruct,
) -> bool {
    &&& fields.len() == query_struct.fields@.len()
    &&& forall|i: int|
        0 <= i < fields.len() ==> (#[trigger] fields[i] matches Some(expr) ==> is_condition_on(
            expr,
            query_struct.fields@[i].var,
            query_struct.fields@[i].value_type,
        ))
}

/// Once the first `n` fields fail to decode, all of them fail in the same way.
proof fn lemma_fields_fail(
    fields: Seq<QueryField>,
    members: Seq<(Seq<char>, ValueView)>,
    n: int,
)
    requires
        0 <= n <= fields.len(),
        decode_fields(fields.take(n), members) is Err,
    ensures
        decode_fields(fields, members) == decode_fields(fields.take(n), members),
    decreases fields.len() - n,
{
    if n == fields.len() {
        assert(fields.take(n) == fields);
    } else {
        assert(fields.take(n + 1).drop_last() == fields.take(n));
        lemma_fields_fail(fields, members, n + 1);
    }
}

impl QueryField {
    /// Decodes the condition on the field's column from the members of an object.
    pub fn deserialize(&self, members: &Vec<(String, Value)>) -> (r: Result<
        Option<JsonLogicExpr<Var, Scalar>>,
        DecodeError,
    >)
        ensures
            result_view(r) == decode_field(*self, crate::value::members_view(members@)),
    {
        match find_member(members, self.field_name.as_str()) {
            Lookup::Absent => Ok(None),
            Lookup::Repeated => Err(DecodeError::ShapeMismatch(Shape::DistinctColumns)),
            Lookup::Once(i) => match &members[i].1 {
                Value::Null => Ok(None),
                value => match JsonLogicExpr::deserialize(&self.var, self.value_type, value) {
                    Ok(expr) => Ok(Some(expr)),
                    Err(error) => Err(error),
                },
            },
        }
    }
}

impl QueryStruct {
    /// Decodes a query from a wire value.
    pub fn deserialize(&self, value: &Value) -> (r: Result<Query, DecodeError>)
        ensures
            result_view(r) == decode_query(*self, value@),
            r matches Ok(query) ==> conforms_to(query@, *self),
    {
        let members = match value {
            Value::Object(members) => members,
            _ => { return Err(DecodeError::ShapeMismatch(Shape::Object)); },
        };
        proof {
            lemma_object_view(*members);
        }
        let ghost written = crate::value::members_view(members@);
        let mut decoded: Vec<Option<JsonLogicExpr<Var, Scalar>>> = Vec::new();
        let mut i: usize = 0;
        proof {
            assert(decoded.deep_view() == Seq::<Option<ExprView<VarView, ScalarView>>>::empty());
        }
        while i < self.fields.len()
            invariant
                i <= self.fields@.len(),
                written == crate::value::members_view(members@),
                value@ == ValueView::Object(written),
                decode_fields(self.fields@.take(i as int), written) == Ok::<
                    Seq<Option<ExprView<VarView, ScalarView>>>,
                    DecodeErrorView,
                >(decoded.deep_view()),
            decreases self.fields@.len() - i,
        {
            proof {
                assert(self.fields@.take(i + 1).drop_last() == self.fields@.take(i as int));
                assert(self.fields@.take(i + 1).last() == self.fields@[i as int]);
            }
            match self.fields[i].deserialize(members) {
                Ok(field) => {
                    let ghost before = decoded.deep_view();
                    decoded.push(field);
                    proof {
                        assert(decoded.deep_view() == before.push(field.deep_view()));
                    }
                },
                Err(error) => {
                    proof {
                        assert(decode_fields(self.fields@.take(i + 1), written) == Err::<
                            Seq<Option<ExprView<VarView, ScalarView>>>,
                            DecodeErrorView,
                        >(error@));
                        lemma_fields_fail(self.fields@, written, i + 1);
                    }
                    return Err(error);
                },
            }
            i += 1;
        }
        proof {
            assert(self.fields@.take(self.fields@.len() as int) == self.fields@);
            law_decoded_query_conforms(*self, value@);
        }
        Ok(Query { fields: decoded })
    }
}

/// Makes the query structure of a table shape: one field for each column, in
/// the order in which the columns are declared.
pub fn generate_query_struct(struct_name: &str, column_names: &Vec<QueryColumn>, is_test: bool) -> (r:
    QueryStruct)
    ensures
        is_query_struct_of(r, struct_name@, column_names.deep_view(), is_test),
{
    let json_logic_parent = if is_test {
        String::from_str("crate")
    } else {
        String::from_str("::diesel_json_logic")
    };
    let mut fields: Vec<QueryField> = Vec::new();
    let mut i: usize = 0;
    while i < column_names.len()
        invariant
            i <= column_names@.len(),
            fields@.len() == i,
            forall|j: int|
                0 <= j < i ==> field_of_column(#[trigger] fields@[j], column_names@[j]@),
        decreases column_names@.len() - i,
    {
        let column = &column_names[i];
        let var = generate_var_struct(&column.query_column_name, column.diesel_column_name.as_str());
        let field_name = column.query_column_name.as_struct_field_name();
        let value_type = ValueType::of(column.ty.as_str());
        fields.push(QueryField { field_name, var, ty: column.ty.clone(), value_type });
        i += 1;
    }
    QueryStruct { struct_name: String::from_str(struct_name), json_logic_parent, fields }
}

} // verus!
