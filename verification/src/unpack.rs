//! Folding a query into the filters of a statement.

use vstd::prelude::*;
use vstd::string::*;
use crate::case::{camel_to_snake, camel_to_snake_spec};
use crate::column::{QueryColumn, QueryColumnView, Var, VarView};
use crate::expr::{ExprView, JsonLogicExpr, Scalar, ScalarView};
use crate::laws::law_no_condition_no_filter;
use crate::query::{parent_path, Query};

verus! {

/// One filter of a statement: a comparison of a column of the table.
#[derive(Debug, PartialEq)]
pub enum Filter {
    /// The column equals the value.
    Equals(String, Scalar),
    /// The column is null.
    IsNull(String),
    /// The column is less than the value.
    LessThan(String, Scalar),
    /// The column is greater than the value.
    GreaterThan(String, Scalar),
    /// The column is one of the values.
    OneOf(String, Vec<Scalar>),
}

/// The mathematical content of a [`Filter`].
pub ghost enum FilterView {
    Equals(Seq<char>, ScalarView),
    IsNull(Seq<char>),
    LessThan(Seq<char>, ScalarView),
    GreaterThan(Seq<char>, ScalarView),
    OneOf(Seq<char>, Seq<ScalarView>),
}

impl DeepView for Filter {
    type V = FilterView;

    open spec fn deep_view(&self) -> FilterView {
        match self {
            Filter::Equals(column, value) => FilterView::Equals(column@, value@),
            Filter::IsNull(column) => FilterView::IsNull(column@),
            Filter::LessThan(column, value) => FilterView::LessThan(column@, value@),
            Filter::GreaterThan(column, value) => FilterView::GreaterThan(column@, value@),
            Filter::OneOf(column, values) => FilterView::OneOf(column@, values.deep_view()),
        }
    }
}

impl View for Filter {
    type V = FilterView;

    open spec fn view(&self) -> FilterView {
        self.deep_view()
    }
}

/// The filter that a condition asks for, on the column of the table that its
/// binding stands for.
pub open spec fn filter_of(expr: ExprView<VarView, ScalarView>) -> FilterView {
    match expr {
        ExprView::Eq(var, Some(value)) => FilterView::Equals(var.diesel_column_name, value),
        ExprView::Eq(var, None) => FilterView::IsNull(var.diesel_column_name),
        ExprView::Lt(var, value) => FilterView::LessThan(var.diesel_column_name, value),
        ExprView::Gt(var, value) => FilterView::GreaterThan(var.diesel_column_name, value),
        ExprView::In(var, values) => FilterView::OneOf(var.diesel_column_name, values),
    }
}

/// The filters that a query asks for: one for each field that holds a
/// condition, in the order of the fields.
pub open spec fn filters_of(fields: Seq<Option<ExprView<VarView, ScalarView>>>) -> Seq<FilterView>
    decreases fields.len(),
{
    if fields.len() == 0 {
        Seq::empty()
    } else {
        match fields.last() {
            Some(expr) => filters_of(fields.drop_last()).push(filter_of(expr)),
            None => filters_of(fields.drop_last()),
        }
    }
}

/// The filter that a condition asks for.
pub fn to_filter(expr: JsonLogicExpr<Var, Scalar>) -> (r: Filter)
    ensures
        r@ == filter_of(expr@),
{
    match expr {
        JsonLogicExpr::Eq(var, value) => match value {
            Some(value) => Filter::Equals(var.to_diesel_column(), value),
            None => Filter::IsNull(var.to_diesel_column()),
        },
        JsonLogicExpr::Gt(var, value) => Filter::GreaterThan(var.to_diesel_column(), value),
        JsonLogicExpr::Lt(var, value) => Filter::LessThan(var.to_diesel_column(), value),
        JsonLogicExpr::In(var, values) => Filter::OneOf(var.to_diesel_column(), values),
    }
}

/// Adds to the filters of a statement those that the query asks for: for
/// each field that holds a condition, in the order of the fields, the filter of
/// that condition. The filters that the statement had stay in front.
pub fn unpack_json_logic_query(query: Query, from_stmt: Vec<Filter>) -> (r: Vec<Filter>)
    ensures
        r.deep_view() == from_stmt.deep_view() + filters_of(query@),
        (forall|i: int| 0 <= i < query@.len() ==> query@[i] is None) ==> r.deep_view()
            == from_stmt.deep_view(),
{
    let mut from_stmt = from_stmt;
    let ghost before = from_stmt.deep_view();
    let ghost asked = query@;
    proof {
        assert(asked.take(0) == Seq::<Option<ExprView<VarView, ScalarView>>>::empty());
        assert(before + filters_of(asked.take(0)) == before);
    }
    for field in it: query.fields
        invariant
            asked.len() == it.seq().len(),
            forall|j: int| 0 <= j < asked.len() ==> asked[j] == (#[trigger] it.seq()[j]).deep_view(),
            from_stmt.deep_view() == before + filters_of(asked.take(it.index() as int)),
    {
        proof {
            let i = it.index() as int;
            assert(asked.take(i + 1).drop_last() == asked.take(i));
            assert(asked.take(i + 1).last() == field.deep_view());
        }
        if let Some(logic_query) = field {
            let ghost held = from_stmt.deep_view();
            let filter = to_filter(logic_query);
            from_stmt.push(filter);
            proof {
                assert(from_stmt.deep_view() == held.push(filter@));
            }
        }
    }
    proof {
        assert(asked.take(asked.len() as int) == asked);
        if forall|i: int| 0 <= i < asked.len() ==> asked[i] is None {
            law_no_condition_no_filter(asked);
        }
    }
    from_stmt
}

/// The opening of the documentation of an unpacking macro, up to the name of
/// the query structure.
pub const DOC_HEAD: &'static str = r##"
    Transforms the JSON Logic queries into [`diesel`] query filters. The macro accepts two arguments - the 
    [`"##;

/// The rest of the documentation of an unpacking macro, behind the name of
/// the query structure.
pub const DOC_TAIL: &'static str = r##"`] instance and an [`IntoBoxed`][i] SQL statement.
    
    For example, given the following table and query struct:
    ```ignore
     diesel::table! {
        my_tbl (id) {
            id -> Int4,
            best_column -> Int4,
            second_best_column -> VarChar,
        }
    }
    
    define_json_logic!(
        MyTableQuery,
        [
           #[diesel_column_name = my_tbl::best_column]
           best => i32,
        ]
    )
    ```
    We can use the `impl_my_table_query` macro to transform a `MyTableQuery` query to a
    SQL filter.

    ```ignore
    let select_stmt = my_tbl::table.select(my_tbl::id).into_boxed();
    let json_logic_expr = serde_json::from_str(r#"{"<": [{"var": "best"}, 1]}"#).unwrap();
    let query = MyTableQuery {
        best: Some(json_logic_expr),
    }
    
    select_stmt = impl_my_table_query!(query, select_stmt);
    ```
    Now, `select_stmt` is equivalent to `SELECT my_tbl.id FROM my_tbl WHERE my_tbl.best_column < 1;`.
    
    [i]: diesel::helper_types::IntoBoxed
    "##;

/// The unpacking macro of a table shape: its name, where the fold is found,
/// the fields that it folds, in declaration order, and its documentation.
#[derive(Debug, PartialEq)]
pub struct UnpackingMacro {
    pub macro_name: String,
    pub macro_parent: String,
    pub field_names: Vec<String>,
    pub doc: String,
}

/// The name of the unpacking macro of the query structure `ident`.
pub open spec fn macro_name_spec(ident: Seq<char>) -> Seq<char> {
    "impl_"@ + camel_to_snake_spec(ident)
}

/// Makes the name of the unpacking macro of the query structure `ident`.
pub fn unpacking_macro_name(ident: &str) -> (r: String)
    ensures
        r@ == macro_name_spec(ident@),
{
    let mut macro_name = String::from_str("impl_");
    let snake = camel_to_snake(String::from_str(ident));
    macro_name.append(snake.as_str());
    macro_name
}

/// Whether `unpacking` is the unpacking macro of the query structure that is
/// called `ident` and has one field for each of `columns`, in their order.
pub open spec fn is_unpacking_macro_of(
    unpacking: UnpackingMacro,
    ident: Seq<char>,
    columns: Seq<QueryColumnView>,
    is_test: bool,
) -> bool {
    &&& unpacking.macro_name@ == macro_name_spec(ident)
    &&& unpacking.macro_parent@ == parent_path(is_test)
    &&& unpacking.field_names@.len() == columns.len()
    &&& forall|i: int|
        0 <= i < columns.len() ==> (#[trigger] unpacking.field_names@[i])@
            == columns[i].query_column_name
    &&& unpacking.doc@ == DOC_HEAD@ + ident + DOC_TAIL@
}

/// Makes the unpacking macro of a table shape.
pub fn generate_query_unpacking_macro(ident: String, columns: &Vec<QueryColumn>, is_test: bool) -> (r:
    UnpackingMacro)
    ensures
        is_unpacking_macro_of(r, ident@, columns.deep_view(), is_test),
{
    let mut field_names: Vec<String> = Vec::new();
    let mut i: usize = 0;
    while i < columns.len()
        invariant
            i <= columns@.len(),
            field_names@.len() == i,
            forall|j: int|
                0 <= j < i ==> (#[trigger] field_names@[j])@ == columns@[j].query_column_name.0@,
        decreases columns@.len() - i,
    {
        field_names.push(columns[i].query_column_name.as_struct_field_name());
        i += 1;
    }
    let mut doc = String::from_str(DOC_HEAD);
    doc.append(ident.as_str());
    doc.append(DOC_TAIL);
    let macro_name = unpacking_macro_name(ident.as_str());
    let macro_parent = if is_test {
        String::from_str("crate")
    } else {
        String::from_str("::diesel_json_logic")
    };
    UnpackingMacro { macro_name, macro_parent, field_names, doc }
}

} // verus!
