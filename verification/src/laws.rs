//! What holds of decoding and of folding, whatever the columns and the values.

use vstd::prelude::*;
use crate::column::{decode_name, decode_var, member_count, member_value, VarStruct, VarView};
use crate::decode::{decode_expr, decode_operands, has_type, is_condition_on};
use crate::error::DecodeErrorView;
use crate::expr::{ExprView, ScalarView, ValueType};
use crate::query::{
    conforms_to, decode_field, decode_fields, decode_query, QueryField, QueryStruct,
};
use crate::unpack::{filter_of, filters_of, FilterView};
use crate::value::ValueView;

verus! {

/// Whether `needle` stands somewhere in `text`, character after character.
pub open spec fn occurs_in(needle: Seq<char>, text: Seq<char>) -> bool {
    exists|i: int|
        0 <= i && i + needle.len() <= text.len() && #[trigger] text.subrange(
            i,
            i + needle.len(),
        ) == needle
}

/// The wire form of a binding: an object whose one member `var` holds the name.
pub open spec fn var_wire_form(name: Seq<char>) -> ValueView {
    ValueView::Object(seq![("var"@, ValueView::Text(name))])
}

/// A binding structure decodes the wire form of its own column's name, and
/// the binding that comes out stands for its column of the table. The wire
/// form of any other name is refused as a name mismatch that holds the name
/// expected and the name received, and whose message gives both.
pub proof fn law_binding_accepts_its_name_only(binding: VarStruct, name: Seq<char>)
    ensures
        name == binding.column.column_path_string@ ==> decode_var(binding, var_wire_form(name))
            == Ok::<VarView, DecodeErrorView>(
            VarView { var: name, diesel_column_name: binding.diesel_column_name@ },
        ),
        name != binding.column.column_path_string@ ==> {
            &&& decode_var(binding, var_wire_form(name)) == Err::<VarView, DecodeErrorView>(
                DecodeErrorView::NameMismatch {
                    struct_name: binding.column.struct_name@,
                    expected: binding.column.column_path_string@,
                    received: name,
                },
            )
            &&& occurs_in(
                binding.column.column_path_string@,
                decode_var(binding, var_wire_form(name))->Err_0.message(),
            )
            &&& occurs_in(name, decode_var(binding, var_wire_form(name))->Err_0.message())
        },
{
    let members = seq![("var"@, ValueView::Text(name))];
    assert(members.drop_last() == Seq::<(Seq<char>, ValueView)>::empty());
    assert(member_count(members.drop_last(), "var"@) == 0);
    assert(member_count(members, "var"@) == 1);
    assert(member_value(members, "var"@) == ValueView::Text(name));
    let expected = binding.column.column_path_string@;
    if name != expected {
        let error = DecodeErrorView::NameMismatch {
            struct_name: binding.column.struct_name@,
            expected,
            received: name,
        };
        assert(decode_name(binding.column, ValueView::Text(name)) == Err::<
            Seq<char>,
            DecodeErrorView,
        >(error));
        let text = error.message();
        let head = binding.column.struct_name@ + " can only receive "@;
        let middle = head + expected + ", but instead received "@;
        assert(text == middle + name);
        assert(text.subrange(head.len() as int, (head.len() + expected.len()) as int) == expected);
        assert(text.subrange(middle.len() as int, (middle.len() + name.len()) as int) == name);
    }
}

/// The wire form of a value that a column is compared with.
pub open spec fn scalar_wire_form(value: ScalarView) -> ValueView {
    match value {
        ScalarView::Integer(i) => ValueView::Integer(i),
        ScalarView::Wide(s) => ValueView::Decimal(s),
        ScalarView::Text(s) => ValueView::Text(s),
        ScalarView::Boolean(b) => ValueView::Bool(b),
    }
}

/// The wire form of a condition: an object with one member, keyed by the
/// operator, whose value is the array of the binding and the operand.
pub open spec fn wire_form(expr: ExprView<VarView, ScalarView>) -> ValueView {
    let operand = match expr {
        ExprView::Eq(_, None) => ValueView::Null,
        ExprView::Eq(_, Some(value)) => scalar_wire_form(value),
        ExprView::Lt(_, value) => scalar_wire_form(value),
        ExprView::Gt(_, value) => scalar_wire_form(value),
        ExprView::In(_, values) => ValueView::Array(
            values.map_values(|value: ScalarView| scalar_wire_form(value)),
        ),
    };
    ValueView::Object(
        seq![(expr.operator(), ValueView::Array(seq![var_wire_form(expr.column().var), operand]))],
    )
}

/// The wire forms of values of a type decode to those values.
proof fn lemma_operands_round_trip(ty: ValueType, values: Seq<ScalarView>)
    requires
        forall|i: int| 0 <= i < values.len() ==> has_type(ty, #[trigger] values[i]),
    ensures
        decode_operands(ty, values.map_values(|value: ScalarView| scalar_wire_form(value)))
            == Ok::<Seq<ScalarView>, DecodeErrorView>(values),
    decreases values.len(),
{
    let forms = values.map_values(|value: ScalarView| scalar_wire_form(value));
    if values.len() == 0 {
        assert(values == Seq::<ScalarView>::empty());
    } else {
        let shorter = values.drop_last();
        assert(forms.drop_last() == shorter.map_values(
            |value: ScalarView| scalar_wire_form(value),
        ));
        lemma_operands_round_trip(ty, shorter);
        assert(has_type(ty, values[values.len() - 1]));
        assert(forms.last() == scalar_wire_form(values.last()));
        assert(shorter.push(values.last()) == values);
    }
}

/// Decoding undoes the wire form: a condition on a column, written in its wire
/// form and decoded against that column, comes back as it was, with its
/// operator and its operands.
pub proof fn law_decoding_undoes_wire_form(
    expr: ExprView<VarView, ScalarView>,
    binding: VarStruct,
    ty: ValueType,
)
    requires
        is_condition_on(expr, binding, ty),
    ensures
        decode_expr(binding, ty, wire_form(expr)) == Ok::<
            ExprView<VarView, ScalarView>,
            DecodeErrorView,
        >(expr),
{
    reveal_strlit("==");
    reveal_strlit("<");
    reveal_strlit(">");
    reveal_strlit("in");
    law_binding_accepts_its_name_only(binding, expr.column().var);
    assert("=="@.len() == 2 && "<"@.len() == 1 && ">"@.len() == 1 && "in"@.len() == 2);
    assert("<"@[0] == '<' && ">"@[0] == '>' && "=="@[0] == '=' && "in"@[0] == 'i');
    match expr {
        ExprView::In(_, values) => {
            lemma_operands_round_trip(ty, values);
        },
        _ => {},
    }
}

/// The values that decode from the items of an array are values of the type.
proof fn lemma_operands_have_type(ty: ValueType, items: Seq<ValueView>)
    requires
        decode_operands(ty, items) is Ok,
    ensures
        decode_operands(ty, items)->Ok_0.len() == items.len(),
        forall|i: int|
            0 <= i < items.len() ==> has_type(ty, #[trigger] decode_operands(ty, items)->Ok_0[i]),
    decreases items.len(),
{
    if items.len() > 0 {
        lemma_operands_have_type(ty, items.drop_last());
    }
}

/// What decodes against a column is a condition on that column: its name has
/// passed the column's guard, it stands for the column of the table that the
/// binding structure names, and its operands are values of the column's type.
pub proof fn law_decoded_condition_is_on_its_column(
    binding: VarStruct,
    ty: ValueType,
    value: ValueView,
)
    requires
        decode_expr(binding, ty, value) is Ok,
    ensures
        is_condition_on(decode_expr(binding, ty, value)->Ok_0, binding, ty),
{
    let operand = value->Object_0[0].1->Array_0[1];
    if operand is Array {
        if decode_operands(ty, operand->Array_0) is Ok {
            lemma_operands_have_type(ty, operand->Array_0);
        }
    }
}

/// What the first fields of a query structure decode is on their columns.
proof fn lemma_decoded_fields_conform(
    declared: Seq<QueryField>,
    members: Seq<(Seq<char>, ValueView)>,
)
    requires
        decode_fields(declared, members) is Ok,
    ensures
        decode_fields(declared, members)->Ok_0.len() == declared.len(),
        forall|i: int|
            0 <= i < declared.len() ==> (#[trigger] decode_fields(declared, members)->Ok_0[i]
                matches Some(expr) ==> is_condition_on(expr, declared[i].var, declared[i].value_type)),
    decreases declared.len(),
{
    if declared.len() > 0 {
        lemma_decoded_fields_conform(declared.drop_last(), members);
        let last = declared.last();
        let value = member_value(members, last.field_name@);
        if decode_field(last, members) matches Ok(Some(expr)) {
            law_decoded_condition_is_on_its_column(last.var, last.value_type, value);
        }
    }
}

/// A query that decodes against a query structure conforms to it: no
/// condition in it is on another column than that of its field.
pub proof fn law_decoded_query_conforms(query_struct: QueryStruct, value: ValueView)
    requires
        decode_query(query_struct, value) is Ok,
    ensures
        conforms_to(decode_query(query_struct, value)->Ok_0, query_struct),
{
    lemma_decoded_fields_conform(query_struct.fields@, value->Object_0);
}

/// The column of the table that a filter compares.
pub open spec fn filter_column(filter: FilterView) -> Seq<char> {
    match filter {
        FilterView::Equals(column, _) => column,
        FilterView::IsNull(column) => column,
        FilterView::LessThan(column, _) => column,
        FilterView::GreaterThan(column, _) => column,
        FilterView::OneOf(column, _) => column,
    }
}

/// The filter of the condition in a field compares the column of the table
/// that the field was declared with, and no other.
pub proof fn law_filter_compares_the_declared_column(
    fields: Seq<Option<ExprView<VarView, ScalarView>>>,
    query_struct: QueryStruct,
    i: int,
)
    requires
        conforms_to(fields, query_struct),
        0 <= i < fields.len(),
        fields[i] is Some,
    ensures
        0 <= conditions_before(fields, i) < filters_of(fields).len(),
        filter_column(filters_of(fields)[conditions_before(fields, i)])
            == query_struct.fields@[i].var.diesel_column_name@,
{
    law_filters_follow_field_order(fields, i);
}

/// How many of the first `n` fields hold a condition.
pub open spec fn conditions_before(
    fields: Seq<Option<ExprView<VarView, ScalarView>>>,
    n: int,
) -> int
    decreases n,
{
    if n <= 0 {
        0
    } else if fields[n - 1] is Some {
        conditions_before(fields, n - 1) + 1
    } else {
        conditions_before(fields, n - 1)
    }
}

/// The filters of a query are those of its conditions, in the order of the
/// fields: there are as many filters as fields that hold a condition, and the
/// filter of the condition in field `i` stands behind exactly the filters of
/// the conditions in the fields before `i`.
pub proof fn law_filters_follow_field_order(
    fields: Seq<Option<ExprView<VarView, ScalarView>>>,
    i: int,
)
    requires
        0 <= i < fields.len(),
    ensures
        filters_of(fields).len() == conditions_before(fields, fields.len() as int),
        0 <= conditions_before(fields, i) <= i,
        fields[i] matches Some(expr) ==> conditions_before(fields, i) < filters_of(fields).len()
            && filters_of(fields)[conditions_before(fields, i)] == filter_of(expr),
    decreases fields.len(),
{
    let shorter = fields.drop_last();
    let last = fields.len() - 1;
    lemma_conditions_before_prefix(fields, last);
    lemma_filters_count(shorter);
    lemma_filters_count(fields);
    lemma_conditions_bounded(fields, i);
    if i < last {
        law_filters_follow_field_order(shorter, i);
        lemma_conditions_before_prefix(fields, i);
        lemma_conditions_before_prefix_of(fields, shorter, i);
    }
}

/// There are as many filters as fields that hold a condition.
proof fn lemma_filters_count(fields: Seq<Option<ExprView<VarView, ScalarView>>>)
    ensures
        filters_of(fields).len() == conditions_before(fields, fields.len() as int),
    decreases fields.len(),
{
    if fields.len() > 0 {
        lemma_filters_count(fields.drop_last());
        lemma_conditions_before_prefix_of(fields, fields.drop_last(), fields.len() - 1);
    }
}

/// No more conditions stand before a field than fields do.
proof fn lemma_conditions_bounded(fields: Seq<Option<ExprView<VarView, ScalarView>>>, n: int)
    ensures
        0 <= conditions_before(fields, n),
        n >= 0 ==> conditions_before(fields, n) <= n,
    decreases n,
{
    if n > 0 {
        lemma_conditions_bounded(fields, n - 1);
    }
}

/// The count of conditions grows with the number of fields counted.
proof fn lemma_conditions_before_prefix(fields: Seq<Option<ExprView<VarView, ScalarView>>>, n: int)
    requires
        0 <= n <= fields.len(),
    ensures
        conditions_before(fields, n) <= conditions_before(fields, fields.len() as int),
        n < fields.len() && fields[n] is Some ==> conditions_before(fields, n)
            < conditions_before(fields, fields.len() as int),
    decreases fields.len() - n,
{
    if n < fields.len() {
        lemma_conditions_before_prefix(fields, n + 1);
    }
}

/// The count of conditions before a field depends on the fields before it alone.
proof fn lemma_conditions_before_prefix_of(
    fields: Seq<Option<ExprView<VarView, ScalarView>>>,
    shorter: Seq<Option<ExprView<VarView, ScalarView>>>,
    n: int,
)
    requires
        0 <= n <= shorter.len() <= fields.len(),
        forall|j: int| 0 <= j < shorter.len() ==> shorter[j] == fields[j],
    ensures
        conditions_before(shorter, n) == conditions_before(fields, n),
    decreases n,
{
    if n > 0 {
        lemma_conditions_before_prefix_of(fields, shorter, n - 1);
    }
}

/// A query asks for the same filters whatever statement it is applied to:
/// behind the filters that either statement had stand those of the query.
pub proof fn law_same_query_same_filters(
    fields: Seq<Option<ExprView<VarView, ScalarView>>>,
    first: Seq<FilterView>,
    second: Seq<FilterView>,
)
    ensures
        (first + filters_of(fields)).skip(first.len() as int) == filters_of(fields),
        (second + filters_of(fields)).skip(second.len() as int) == filters_of(fields),
        (first + filters_of(fields)).take(first.len() as int) == first,
        (second + filters_of(fields)).take(second.len() as int) == second,
{
}

/// A query without conditions asks for no filter.
pub proof fn law_no_condition_no_filter(fields: Seq<Option<ExprView<VarView, ScalarView>>>)
    requires
        forall|i: int| 0 <= i < fields.len() ==> fields[i] is None,
    ensures
        filters_of(fields) == Seq::<FilterView>::empty(),
    decreases fields.len(),
{
    if fields.len() > 0 {
        law_no_condition_no_filter(fields.drop_last());
    }
}

/// The members of two lists, one behind the other, are counted together.
proof fn lemma_count_concat(
    front: Seq<(Seq<char>, ValueView)>,
    back: Seq<(Seq<char>, ValueView)>,
    key: Seq<char>,
)
    ensures
        member_count(front + back, key) == member_count(front, key) + member_count(back, key),
    decreases back.len(),
{
    if back.len() == 0 {
        assert(front + back == front);
    } else {
        assert((front + back).drop_last() == front + back.drop_last());
        lemma_count_concat(front, back.drop_last(), key);
    }
}

/// A key is written as often in a list of members as in the list reversed.
proof fn lemma_count_reverse(members: Seq<(Seq<char>, ValueView)>, key: Seq<char>)
    ensures
        member_count(members.reverse(), key) == member_count(members, key),
    decreases members.len(),
{
    if members.len() > 0 {
        let last = seq![members.last()];
        assert(members.reverse() == last + members.drop_last().reverse());
        lemma_count_concat(last, members.drop_last().reverse(), key);
        lemma_count_reverse(members.drop_last(), key);
        assert(last.drop_last() == Seq::<(Seq<char>, ValueView)>::empty());
        assert(member_count(last.drop_last(), key) == 0);
    }
}

/// A key that is counted is the key of some member.
proof fn lemma_counted_member(members: Seq<(Seq<char>, ValueView)>, key: Seq<char>) -> (i: int)
    requires
        member_count(members, key) >= 1,
    ensures
        0 <= i < members.len(),
        members[i].0 == key,
    decreases members.len(),
{
    if members.last().0 == key {
        members.len() - 1
    } else {
        lemma_counted_member(members.drop_last(), key)
    }
}

/// A key that is not counted is the key of no member.
proof fn lemma_uncounted_member(members: Seq<(Seq<char>, ValueView)>, key: Seq<char>, i: int)
    requires
        member_count(members, key) == 0,
        0 <= i < members.len(),
    ensures
        members[i].0 != key,
    decreases members.len(),
{
    if i < members.len() - 1 {
        lemma_uncounted_member(members.drop_last(), key, i);
    }
}

/// The value of a key that is written once is the value of the member that holds it.
proof fn lemma_single_member(members: Seq<(Seq<char>, ValueView)>, key: Seq<char>, i: int)
    requires
        member_count(members, key) == 1,
        0 <= i < members.len(),
        members[i].0 == key,
    ensures
        member_value(members, key) == members[i].1,
    decreases members.len(),
{
    if members.last().0 == key {
        if i < members.len() - 1 {
            lemma_uncounted_member(members.drop_last(), key, i);
        }
    } else {
        lemma_single_member(members.drop_last(), key, i);
    }
}

/// A field makes the same of a list of members as of the list reversed.
proof fn lemma_field_reverse(field: QueryField, members: Seq<(Seq<char>, ValueView)>)
    ensures
        decode_field(field, members.reverse()) == decode_field(field, members),
{
    let key = field.field_name@;
    lemma_count_reverse(members, key);
    if member_count(members, key) == 1 {
        let i = lemma_counted_member(members, key);
        lemma_single_member(members, key, i);
        lemma_single_member(members.reverse(), key, members.len() - 1 - i);
    }
}

/// The fields make the same of a list of members as of the list reversed.
proof fn lemma_fields_reverse(fields: Seq<QueryField>, members: Seq<(Seq<char>, ValueView)>)
    ensures
        decode_fields(fields, members.reverse()) == decode_fields(fields, members),
    decreases fields.len(),
{
    if fields.len() > 0 {
        lemma_fields_reverse(fields.drop_last(), members);
        lemma_field_reverse(fields.last(), members);
    }
}

/// A list of members with the members at `i` and at `j` exchanged.
pub open spec fn exchanged(members: Seq<(Seq<char>, ValueView)>, i: int, j: int) -> Seq<
    (Seq<char>, ValueView),
> {
    members.update(i, members[j]).update(j, members[i])
}

/// A key is written as often in a list of members as in the list with two
/// of its members exchanged.
proof fn lemma_count_exchanged(
    members: Seq<(Seq<char>, ValueView)>,
    key: Seq<char>,
    i: int,
    j: int,
)
    requires
        0 <= i < j < members.len(),
    ensures
        member_count(exchanged(members, i, j), key) == member_count(members, key),
{
    let front = members.take(i);
    let middle = members.subrange(i + 1, j);
    let back = members.skip(j + 1);
    let at_i = seq![members[i]];
    let at_j = seq![members[j]];
    assert(members == front + at_i + middle + at_j + back);
    assert(exchanged(members, i, j) == front + at_j + middle + at_i + back);
    lemma_count_concat(front, at_i, key);
    lemma_count_concat(front + at_i, middle, key);
    lemma_count_concat(front + at_i + middle, at_j, key);
    lemma_count_concat(front + at_i + middle + at_j, back, key);
    lemma_count_concat(front, at_j, key);
    lemma_count_concat(front + at_j, middle, key);
    lemma_count_concat(front + at_j + middle, at_i, key);
    lemma_count_concat(front + at_j + middle + at_i, back, key);
}

/// A field makes the same of a list of members as of the list with two of
/// its members exchanged.
proof fn lemma_field_exchanged(
    field: QueryField,
    members: Seq<(Seq<char>, ValueView)>,
    i: int,
    j: int,
)
    requires
        0 <= i < j < members.len(),
    ensures
        decode_field(field, exchanged(members, i, j)) == decode_field(field, members),
{
    let key = field.field_name@;
    lemma_count_exchanged(members, key, i, j);
    if member_count(members, key) == 1 {
        let at = lemma_counted_member(members, key);
        let moved = if at == i {
            j
        } else if at == j {
            i
        } else {
            at
        };
        lemma_single_member(members, key, at);
        lemma_single_member(exchanged(members, i, j), key, moved);
    }
}

/// The fields make the same of a list of members as of the list with two of
/// its members exchanged.
proof fn lemma_fields_exchanged(
    fields: Seq<QueryField>,
    members: Seq<(Seq<char>, ValueView)>,
    i: int,
    j: int,
)
    requires
        0 <= i < j < members.len(),
    ensures
        decode_fields(fields, exchanged(members, i, j)) == decode_fields(fields, members),
    decreases fields.len(),
{
    if fields.len() > 0 {
        lemma_fields_exchanged(fields.drop_last(), members, i, j);
        lemma_field_exchanged(fields.last(), members, i, j);
    }
}

/// Exchanging any two members of an object changes nothing of what it
/// decodes to, and so no rearrangement of the members does.
pub proof fn law_exchanging_members_does_not_matter(
    query_struct: QueryStruct,
    members: Seq<(Seq<char>, ValueView)>,
    i: int,
    j: int,
)
    requires
        0 <= i < j < members.len(),
    ensures
        decode_query(query_struct, ValueView::Object(exchanged(members, i, j))) == decode_query(
            query_struct,
            ValueView::Object(members),
        ),
{
    lemma_fields_exchanged(query_struct.fields@, members, i, j);
}

/// The order in which the columns are written on the wire does not matter:
/// an object read backwards decodes to the same query, or fails with the same
/// error. The conditions stand in the order in which the columns are declared.
pub proof fn law_written_order_does_not_matter(
    query_struct: QueryStruct,
    members: Seq<(Seq<char>, ValueView)>,
)
    ensures
        decode_query(query_struct, ValueView::Object(members.reverse())) == decode_query(
            query_struct,
            ValueView::Object(members),
        ),
{
    lemma_fields_reverse(query_struct.fields@, members);
}

} // verus!
