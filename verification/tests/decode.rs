use diesel_json_logic_core::column::{
    find_member, generate_column_struct, generate_var_struct, ColumnStruct, Lookup, VarStruct,
};
use diesel_json_logic_core::define::define_json_logic;
use diesel_json_logic_core::error::{DecodeError, Shape};
use diesel_json_logic_core::expr::{JsonLogicExpr, Scalar, ValueType};
use diesel_json_logic_core::names::QueryColumnName;
use diesel_json_logic_core::numeral::numeral_within;
use diesel_json_logic_core::query::{generate_query_struct, Query, QueryStruct};
use diesel_json_logic_core::unpack::{unpack_json_logic_query, Filter};
use diesel_json_logic_core::value::Value;

fn text(s: &str) -> Value {
    Value::Text(s.to_string())
}

fn object(members: Vec<(&str, Value)>) -> Value {
    Value::Object(members.into_iter().map(|(key, value)| (key.to_string(), value)).collect())
}

fn var(name: &str) -> Value {
    object(vec![("var", text(name))])
}

fn condition(operator: &str, name: &str, operand: Value) -> Value {
    object(vec![(operator, Value::Array(vec![var(name), operand]))])
}

fn best() -> VarStruct {
    generate_var_struct(&QueryColumnName("best".to_string()), "best_column")
}

const INT4: ValueType = ValueType::Integer { min: -2147483648, max: 2147483647 };

fn shape<T: std::fmt::Debug>(result: Result<T, DecodeError>) -> Shape {
    match result.unwrap_err() {
        DecodeError::ShapeMismatch(shape) => shape,
        other => panic!("{:?}", other),
    }
}

fn best_and_notes() -> QueryStruct {
    define_json_logic(
        "Q, [#[diesel_column_name = best_column] best => i32, #[diesel_column_name = notes_column] notes => String]",
    )
    .unwrap()
    .query_struct
}

#[test]
fn guard_accepts_its_own_name_only() {
    let guard = generate_column_struct(&QueryColumnName("best".to_string()));
    assert_eq!(guard, ColumnStruct { struct_name: "Best".to_string(), column_path_string: "best".to_string() });
    assert_eq!(guard.deserialize(&text("best")).unwrap().contents(), "best");
    for other in ["wrong", "Best", " best", "best ", ""] {
        assert_eq!(
            guard.deserialize(&text(other)),
            Err(DecodeError::NameMismatch {
                struct_name: "Best".to_string(),
                expected: "best".to_string(),
                received: other.to_string(),
            })
        );
    }
    assert_eq!(shape(guard.deserialize(&Value::Integer(1))), Shape::Name);
    assert_eq!(shape(guard.deserialize(&Value::Null)), Shape::Name);
}

#[test]
fn binding_resolves_to_its_column() {
    let binding = best();
    let bound = binding.deserialize(&var("best")).unwrap();
    assert_eq!(bound.var().contents(), "best");
    assert_eq!(bound.to_diesel_column(), "best_column");
}

#[test]
fn binding_names_both_names_in_its_error() {
    let error = best().deserialize(&var("wrong")).unwrap_err();
    assert_eq!(
        error,
        DecodeError::NameMismatch {
            struct_name: "Best".to_string(),
            expected: "best".to_string(),
            received: "wrong".to_string(),
        }
    );
    let message = error.message();
    assert_eq!(message, "Best can only receive best, but instead received wrong");
    assert!(message.contains("best") && message.contains("wrong"));
}

#[test]
fn binding_wants_one_member_var() {
    let binding = best();
    assert_eq!(shape(binding.deserialize(&text("best"))), Shape::Object);
    assert_eq!(shape(binding.deserialize(&Value::Array(vec![text("best")]))), Shape::Object);
    assert_eq!(shape(binding.deserialize(&object(vec![]))), Shape::VarMember);
    assert_eq!(shape(binding.deserialize(&object(vec![("col", text("best"))]))), Shape::VarMember);
    assert_eq!(
        shape(binding.deserialize(&object(vec![("var", text("best")), ("var", text("best"))]))),
        Shape::VarMember
    );
    assert_eq!(shape(binding.deserialize(&object(vec![("var", Value::Integer(3))]))), Shape::Name);
    let extra = object(vec![("other", Value::Null), ("var", text("best"))]);
    assert_eq!(binding.deserialize(&extra).unwrap().to_diesel_column(), "best_column");
}

#[test]
fn find_member_counts_the_keys() {
    let members = vec![
        ("a".to_string(), Value::Null),
        ("b".to_string(), Value::Bool(true)),
        ("a".to_string(), Value::Integer(1)),
    ];
    assert!(matches!(find_member(&members, "a"), Lookup::Repeated));
    assert!(matches!(find_member(&members, "b"), Lookup::Once(1)));
    assert!(matches!(find_member(&members, "c"), Lookup::Absent));
    assert!(matches!(find_member(&Vec::new(), "a"), Lookup::Absent));
}

#[test]
fn condition_wants_one_known_operator() {
    let binding = best();
    let decode = |value: &Value| JsonLogicExpr::deserialize(&binding, INT4, value);
    assert_eq!(shape(decode(&Value::Array(vec![]))), Shape::Object);
    assert_eq!(shape(decode(&object(vec![]))), Shape::SingleOperator);
    let two = object(vec![
        ("<", Value::Array(vec![var("best"), Value::Integer(1)])),
        (">", Value::Array(vec![var("best"), Value::Integer(1)])),
    ]);
    assert_eq!(shape(decode(&two)), Shape::SingleOperator);
    for operator in ["!=", "<=", "and", "or", "", "IN", "= ="] {
        assert_eq!(
            decode(&condition(operator, "best", Value::Integer(1))),
            Err(DecodeError::UnknownOperator(operator.to_string()))
        );
    }
    assert_eq!(
        decode(&condition("<=", "best", Value::Integer(1))).unwrap_err().message(),
        "unknown operator <=, expected one of `==`, `<`, `>`, `in`"
    );
}

#[test]
fn condition_wants_two_operands() {
    let binding = best();
    let decode = |value: &Value| JsonLogicExpr::deserialize(&binding, INT4, value);
    assert_eq!(shape(decode(&object(vec![("<", Value::Integer(1))]))), Shape::OperandPair);
    assert_eq!(shape(decode(&object(vec![("<", Value::Array(vec![var("best")]))]))), Shape::OperandPair);
    assert_eq!(
        shape(decode(&object(vec![(
            "<",
            Value::Array(vec![var("best"), Value::Integer(1), Value::Integer(2)])
        )]))),
        Shape::OperandPair
    );
    assert_eq!(
        decode(&condition("<", "other", Value::Integer(1))),
        Err(DecodeError::NameMismatch {
            struct_name: "Best".to_string(),
            expected: "best".to_string(),
            received: "other".to_string(),
        })
    );
}

#[test]
fn operand_has_the_type_of_the_column() {
    let binding = best();
    let decode = |ty: ValueType, operator: &str, operand: Value| {
        JsonLogicExpr::deserialize(&binding, ty, &condition(operator, "best", operand))
    };
    assert_eq!(shape(decode(INT4, "<", text("1"))), Shape::Operand);
    assert_eq!(shape(decode(INT4, "<", Value::Null)), Shape::Operand);
    assert_eq!(shape(decode(INT4, ">", Value::Null)), Shape::Operand);
    assert_eq!(shape(decode(INT4, "<", Value::Integer(2147483648))), Shape::Operand);
    assert_eq!(shape(decode(INT4, "<", Value::Integer(-2147483649))), Shape::Operand);
    assert!(decode(INT4, "<", Value::Integer(2147483647)).is_ok());
    assert!(decode(INT4, "<", Value::Integer(-2147483648)).is_ok());
    assert_eq!(shape(decode(INT4, "==", Value::Decimal("1.5".to_string()))), Shape::Operand);
    assert_eq!(shape(decode(ValueType::Text, "==", Value::Integer(1))), Shape::Operand);
    assert_eq!(shape(decode(ValueType::Boolean, "==", text("true"))), Shape::Operand);
    assert_eq!(shape(decode(ValueType::Other, ">", Value::Bool(true))), Shape::Operand);
    assert!(decode(ValueType::Other, ">", text("2024-01-01T00:00:00Z")).is_ok());
    assert_eq!(shape(decode(INT4, "in", Value::Integer(1))), Shape::OperandList);
    assert_eq!(shape(decode(INT4, "in", Value::Null)), Shape::OperandList);
    assert_eq!(
        shape(decode(INT4, "in", Value::Array(vec![Value::Integer(1), text("2")]))),
        Shape::Operand
    );
    assert_eq!(
        shape(decode(INT4, "in", Value::Array(vec![Value::Integer(1), Value::Null]))),
        Shape::Operand
    );
}

#[test]
fn wide_columns_take_what_64_bits_do_not_hold() {
    let u64_type = ValueType::of("u64");
    let decimal = |digits: &str| Value::Decimal(digits.to_string());
    let wide = |digits: &str| Ok(Scalar::Wide(digits.to_string()));
    assert_eq!(Scalar::deserialize(u64_type, &Value::Integer(7)), Ok(Scalar::Integer(7)));
    assert_eq!(Scalar::deserialize(u64_type, &Value::Integer(i64::MAX)), Ok(Scalar::Integer(i64::MAX)));
    assert_eq!(shape(Scalar::deserialize(u64_type, &Value::Integer(-1))), Shape::Operand);
    assert_eq!(Scalar::deserialize(u64_type, &decimal("9223372036854775808")), wide("9223372036854775808"));
    assert_eq!(Scalar::deserialize(u64_type, &decimal("18446744073709551615")), wide("18446744073709551615"));
    assert_eq!(shape(Scalar::deserialize(u64_type, &decimal("18446744073709551616"))), Shape::Operand);
    assert_eq!(shape(Scalar::deserialize(u64_type, &decimal("100000000000000000000"))), Shape::Operand);
    assert_eq!(shape(Scalar::deserialize(u64_type, &decimal("-1"))), Shape::Operand);
    assert_eq!(shape(Scalar::deserialize(u64_type, &decimal("1.5"))), Shape::Operand);
    assert_eq!(shape(Scalar::deserialize(u64_type, &decimal("1e3"))), Shape::Operand);
    assert_eq!(shape(Scalar::deserialize(u64_type, &decimal(""))), Shape::Operand);
    assert_eq!(shape(Scalar::deserialize(u64_type, &decimal("007"))), Shape::Operand);
    assert_eq!(shape(Scalar::deserialize(u64_type, &text("7"))), Shape::Operand);
    assert_eq!(Scalar::deserialize(u64_type, &decimal("0")), wide("0"));

    let i128_type = ValueType::of("i128");
    assert_eq!(Scalar::deserialize(i128_type, &Value::Integer(i64::MIN)), Ok(Scalar::Integer(i64::MIN)));
    assert_eq!(
        Scalar::deserialize(i128_type, &decimal("-170141183460469231731687303715884105728")),
        wide("-170141183460469231731687303715884105728")
    );
    assert_eq!(
        shape(Scalar::deserialize(i128_type, &decimal("-170141183460469231731687303715884105729"))),
        Shape::Operand
    );
    assert_eq!(
        Scalar::deserialize(i128_type, &decimal("170141183460469231731687303715884105727")),
        wide("170141183460469231731687303715884105727")
    );
    assert_eq!(
        shape(Scalar::deserialize(i128_type, &decimal("170141183460469231731687303715884105728"))),
        Shape::Operand
    );
    assert_eq!(shape(Scalar::deserialize(i128_type, &decimal("-0"))), Shape::Operand);
    assert_eq!(shape(Scalar::deserialize(i128_type, &decimal("-"))), Shape::Operand);

    let u128_type = ValueType::of("u128");
    assert_eq!(
        Scalar::deserialize(u128_type, &decimal("340282366920938463463374607431768211455")),
        wide("340282366920938463463374607431768211455")
    );
    assert_eq!(
        shape(Scalar::deserialize(u128_type, &decimal("340282366920938463463374607431768211456"))),
        Shape::Operand
    );
    assert_eq!(
        shape(Scalar::deserialize(u128_type, &decimal("3402823669209384634633746074317682114550"))),
        Shape::Operand
    );

    assert!(numeral_within("42", 0, 42));
    assert!(!numeral_within("43", 0, 42));
    assert!(numeral_within("-5", 5, 0));
    assert!(!numeral_within("-6", 5, 0));
    assert!(!numeral_within("4x", 0, 100));
}

#[test]
fn scalars_are_read_by_type() {
    assert_eq!(Scalar::deserialize(INT4, &Value::Integer(7)), Ok(Scalar::Integer(7)));
    assert_eq!(Scalar::deserialize(ValueType::Text, &text("x")), Ok(Scalar::Text("x".to_string())));
    assert_eq!(Scalar::deserialize(ValueType::Boolean, &Value::Bool(false)), Ok(Scalar::Boolean(false)));
    assert_eq!(
        Scalar::deserialize_all(INT4, &vec![Value::Integer(1), Value::Integer(2)]),
        Ok(vec![Scalar::Integer(1), Scalar::Integer(2)])
    );
    assert_eq!(Scalar::deserialize_all(INT4, &vec![]), Ok(vec![]));
    assert_eq!(shape(Scalar::deserialize_all(INT4, &vec![Value::Integer(1), Value::Bool(true)])), Shape::Operand);
}

#[test]
fn shape_messages() {
    assert_eq!(DecodeError::ShapeMismatch(Shape::Object).message(), "expected an object");
    assert_eq!(DecodeError::ShapeMismatch(Shape::Name).message(), "expected the name of a column");
    assert_eq!(DecodeError::ShapeMismatch(Shape::OperandPair).message(), "expected an array of two operands");
    assert_eq!(DecodeError::ShapeMismatch(Shape::DistinctColumns).message(), "expected each column at most once");
}

#[test]
fn query_holds_the_columns_that_are_written() {
    let query_struct = best_and_notes();
    let query = query_struct
        .deserialize(&object(vec![("best", condition("<", "best", Value::Integer(1)))]))
        .unwrap();
    assert_eq!(query.fields.len(), 2);
    assert!(matches!(query.fields[0], Some(JsonLogicExpr::Lt(_, Scalar::Integer(1)))));
    assert!(query.fields[1].is_none());
    let empty = query_struct.deserialize(&object(vec![])).unwrap();
    assert_eq!(empty, Query { fields: vec![None, None] });
    let null = query_struct.deserialize(&object(vec![("best", Value::Null)])).unwrap();
    assert_eq!(null, empty);
}

#[test]
fn query_passes_over_unknown_columns() {
    let query_struct = best_and_notes();
    let query = query_struct
        .deserialize(&object(vec![
            ("worst", Value::Integer(3)),
            ("notes", condition("==", "notes", text("n"))),
            ("worst", Value::Null),
        ]))
        .unwrap();
    assert!(query.fields[0].is_none());
    assert!(matches!(query.fields[1], Some(JsonLogicExpr::Eq(_, Some(_)))));
}

#[test]
fn query_fails_as_a_whole() {
    let query_struct = best_and_notes();
    assert_eq!(shape(query_struct.deserialize(&Value::Array(vec![]))), Shape::Object);
    let bad_notes = object(vec![
        ("best", condition("<", "best", Value::Integer(1))),
        ("notes", condition("<", "notes", Value::Integer(1))),
    ]);
    assert_eq!(shape(query_struct.deserialize(&bad_notes)), Shape::Operand);
    let crossed = object(vec![("best", condition("<", "notes", Value::Integer(1)))]);
    assert_eq!(
        query_struct.deserialize(&crossed),
        Err(DecodeError::NameMismatch {
            struct_name: "Best".to_string(),
            expected: "best".to_string(),
            received: "notes".to_string(),
        })
    );
    let twice = object(vec![
        ("best", condition("<", "best", Value::Integer(1))),
        ("best", condition(">", "best", Value::Integer(0))),
    ]);
    assert_eq!(shape(query_struct.deserialize(&twice)), Shape::DistinctColumns);
}

#[test]
fn filters_follow_the_declared_order() {
    let query_struct = best_and_notes();
    let best = ("best", condition("<", "best", Value::Integer(1)));
    let notes = ("notes", condition("in", "notes", Value::Array(vec![text("a"), text("b")])));
    let expected = vec![
        Filter::LessThan("best_column".to_string(), Scalar::Integer(1)),
        Filter::OneOf(
            "notes_column".to_string(),
            vec![Scalar::Text("a".to_string()), Scalar::Text("b".to_string())],
        ),
    ];
    let forwards = query_struct.deserialize(&object(vec![best, notes])).unwrap();
    assert_eq!(unpack_json_logic_query(forwards, Vec::new()), expected);

    let best = ("best", condition("<", "best", Value::Integer(1)));
    let notes = ("notes", condition("in", "notes", Value::Array(vec![text("a"), text("b")])));
    let backwards = query_struct.deserialize(&object(vec![notes, best])).unwrap();
    assert_eq!(unpack_json_logic_query(backwards, Vec::new()), expected);
}

#[test]
fn empty_query_leaves_the_statement_as_it_was() {
    let query_struct = best_and_notes();
    let had = || vec![Filter::IsNull("x".to_string())];
    let query = query_struct.deserialize(&object(vec![])).unwrap();
    assert_eq!(unpack_json_logic_query(query, had()), had());
    assert_eq!(unpack_json_logic_query(Query { fields: vec![] }, Vec::new()), vec![]);
}

#[test]
fn same_query_gives_the_same_filters_to_any_statement() {
    let query_struct = best_and_notes();
    let wire = || {
        object(vec![
            ("notes", condition("==", "notes", Value::Null)),
            ("best", condition(">", "best", Value::Integer(5))),
        ])
    };
    let first = unpack_json_logic_query(query_struct.deserialize(&wire()).unwrap(), Vec::new());
    let had = vec![Filter::IsNull("x".to_string()), Filter::IsNull("y".to_string())];
    let second = unpack_json_logic_query(query_struct.deserialize(&wire()).unwrap(), had);
    assert_eq!(
        first,
        vec![
            Filter::GreaterThan("best_column".to_string(), Scalar::Integer(5)),
            Filter::IsNull("notes_column".to_string()),
        ]
    );
    assert_eq!(second[..2], [Filter::IsNull("x".to_string()), Filter::IsNull("y".to_string())]);
    assert_eq!(second[2..], first[..]);
}

#[test]
fn query_struct_has_a_field_for_each_column() {
    let columns = vec![diesel_json_logic_core::column::QueryColumn {
        query_column_name: QueryColumnName("tbl_id".to_string()),
        diesel_column_name: "tbl_one::id".to_string(),
        ty: "i32".to_string(),
    }];
    let query_struct = generate_query_struct("TwoTablesQuery", &columns, false);
    assert_eq!(query_struct.struct_name, "TwoTablesQuery");
    assert_eq!(query_struct.json_logic_parent, "::diesel_json_logic");
    assert_eq!(query_struct.fields.len(), 1);
    assert_eq!(query_struct.fields[0].field_name, "tbl_id");
    assert_eq!(query_struct.fields[0].var.struct_name, "TblIdVar");
    assert_eq!(query_struct.fields[0].var.column.struct_name, "TblId");
    assert_eq!(query_struct.fields[0].value_type, INT4);
}
