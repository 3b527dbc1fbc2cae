use diesel_json_logic_core::column::QueryColumn;
use diesel_json_logic_core::define::{define_json_logic, identifier, JsonLogicInput};
use diesel_json_logic_core::expr::ValueType;
use diesel_json_logic_core::names::QueryColumnName;
use diesel_json_logic_core::parse::{flag_then, parse_columns, parse_tail, ParseError};

const TWO_TABLES: &str = "TwoTablesQuery,
    [
        #[diesel_column_name = tbl_one::id]
        tbl_id => i32,
        #[diesel_column_name = tbl_two::created_at]
        tbl_two_created_at => DateTime<Utc>,
        #[diesel_column_name = tbl_two::other_notes]
        tbl_two_other_notes => String,
    ],
    true,";

fn chars(text: &str) -> Vec<char> {
    text.chars().collect()
}

fn column(name: &str, path: &str, ty: &str) -> QueryColumn {
    QueryColumn {
        query_column_name: QueryColumnName(name.to_string()),
        diesel_column_name: path.to_string(),
        ty: ty.to_string(),
    }
}

#[test]
fn parse_reads_a_declaration() {
    let input = JsonLogicInput::parse(TWO_TABLES).unwrap();
    assert_eq!(
        input,
        JsonLogicInput {
            ident: "TwoTablesQuery".to_string(),
            columns: vec![
                column("tbl_id", "tbl_one::id", "i32"),
                column("tbl_two_created_at", "tbl_two::created_at", "DateTime<Utc>"),
                column("tbl_two_other_notes", "tbl_two::other_notes", "String"),
            ],
            is_test: true,
        }
    );
}

#[test]
fn parse_takes_the_flag_as_optional() {
    let input =
        JsonLogicInput::parse("MyTableQuery, [#[diesel_column_name = my_tbl::best_column] best => i32]")
            .unwrap();
    assert_eq!(input.ident, "MyTableQuery");
    assert_eq!(input.columns, vec![column("best", "my_tbl::best_column", "i32")]);
    assert!(!input.is_test);
    let input = JsonLogicInput::parse("Q, [], false").unwrap();
    assert!(input.columns.is_empty());
    assert!(!input.is_test);
    let input = JsonLogicInput::parse("Q,[],true,").unwrap();
    assert!(input.is_test);
}

#[test]
fn parse_keeps_commas_inside_a_type() {
    let input = JsonLogicInput::parse(
        "Q, [#[diesel_column_name = t::a] a => HashMap<String, (i32, [u8; 4])>, #[diesel_column_name = t::b] b => u8]",
    )
    .unwrap();
    assert_eq!(input.columns.len(), 2);
    assert_eq!(input.columns[0].query_column_name.0, "a");
    assert_eq!(input.columns[1], column("b", "t::b", "u8"));
    assert_eq!(ValueType::of(&input.columns[1].ty), ValueType::Integer { min: 0, max: 255 });
    assert_eq!(ValueType::of(&input.columns[0].ty), ValueType::Other);
}

#[test]
fn parse_keeps_paths_and_types_as_written() {
    let input = JsonLogicInput::parse(
        "TwoTablesQuery , [# [diesel_column_name = tbl_one :: id] tbl_id => i32 , # [diesel_column_name =\ttbl_two :: created_at\n] tbl_two_created_at =>   DateTime < Utc >  ,] , true ,",
    )
    .unwrap();
    assert_eq!(
        input,
        JsonLogicInput {
            ident: "TwoTablesQuery".to_string(),
            columns: vec![
                column("tbl_id", "tbl_one :: id", "i32"),
                column("tbl_two_created_at", "tbl_two :: created_at", "DateTime < Utc >"),
            ],
            is_test: true,
        }
    );
}

#[test]
fn parse_reads_names_through_syn() {
    let input = JsonLogicInput::parse(
        "  /* the query */ Q, [#[ diesel_column_name /* attribute */ = t::a] r#type => i32]",
    )
    .unwrap();
    assert_eq!(input.ident, "Q");
    assert_eq!(input.columns[0].query_column_name.0, "r#type");
}

#[test]
fn define_wants_distinct_names() {
    let define = |text: &str| define_json_logic(text).map(|definition| definition.structs.len());
    let column = |name: &str| format!("#[diesel_column_name = t::c] {} => i32", name);
    let declare = |query: &str, names: &[&str]| {
        let columns: Vec<String> = names.iter().map(|name| column(name)).collect();
        format!("{}, [{}]", query, columns.join(", "))
    };
    assert_eq!(define(&declare("Q", &["a", "b"])), Ok(2));
    assert_eq!(define(&declare("Q", &["a", "a"])), Err(ParseError::DuplicateName));
    assert_eq!(define(&declare("Q", &["a_b", "a__b"])), Err(ParseError::DuplicateName));
    assert_eq!(define(&declare("Q", &["a", "b", "a_var"])), Err(ParseError::DuplicateName));
    assert_eq!(define(&declare("AB", &["a_b"])), Err(ParseError::DuplicateName));
    assert_eq!(define(&declare("AbVar", &["ab"])), Err(ParseError::DuplicateName));
    assert_eq!(define(&declare("Q", &["a", "b", "c", "b"])), Err(ParseError::DuplicateName));
    assert_eq!(define(&declare("Q", &[])), Ok(0));
    let input = JsonLogicInput::parse(&declare("Q", &["a_b", "c"])).unwrap();
    assert_eq!(input.struct_names(), ["Q", "AB", "ABVar", "C", "CVar"]);
    assert_eq!(
        ParseError::DuplicateName.message(),
        "the structures of the declaration need distinct names"
    );
}

#[test]
fn define_wants_identifiers() {
    let define = |text: &str| define_json_logic(text).map(|definition| definition.structs.len());
    let declare = |name: &str| format!("Q, [#[diesel_column_name = t::c] {} => i32]", name);
    assert_eq!(define(&declare("tbl_id")), Ok(1));
    assert_eq!(define(&declare("_a")), Ok(1));
    assert_eq!(define(&declare("__")), Err(ParseError::InvalidName));
    assert_eq!(define(&declare("_1a")), Err(ParseError::InvalidName));
    assert_eq!(define(&declare("a_1")), Ok(1));
    assert_eq!(define(&declare("r#type")), Err(ParseError::InvalidName));
    // `self_` would give a structure the name `Self`.
    assert_eq!(define(&declare("self_")), Err(ParseError::InvalidName));
    assert_eq!(define(&declare("selves")), Ok(1));
    assert_eq!(define(&declare("_self")), Err(ParseError::InvalidName));
    assert_eq!(
        ParseError::InvalidName.message(),
        "the names of the declaration need to be identifiers"
    );
    let input = JsonLogicInput::parse(&declare("a_b")).unwrap();
    assert_eq!(input.defined_names(), ["Q", "AB", "ABVar", "a_b", "impl_q"]);
    assert!(identifier("TblIdVar"));
    assert!(identifier("impl_two_tables_query"));
    assert!(!identifier(""));
    assert!(!identifier("1a"));
    assert!(!identifier(" a"));
    assert!(!identifier("a b"));
    assert!(!identifier("struct"));
    assert!(!identifier(&"a".repeat(257)));
    assert!(identifier(&"a".repeat(256)));
}

#[test]
fn define_tests_a_declaration_that_was_not_parsed() {
    let input = |path: &str, ty: &str| JsonLogicInput {
        ident: "Q".to_string(),
        columns: vec![column("a", path, ty)],
        is_test: false,
    };
    assert!(input("t::a", "Vec<u8>").define().is_ok());
    assert_eq!(input("t::", "i32").define().unwrap_err(), ParseError::ExpectedPath);
    assert_eq!(input("1", "i32").define().unwrap_err(), ParseError::ExpectedPath);
    assert_eq!(input("t::a", "Vec<").define().unwrap_err(), ParseError::ExpectedType);
    assert_eq!(input("t::a", "").define().unwrap_err(), ParseError::ExpectedType);
}

#[test]
fn parse_hands_syn_short_texts_only() {
    let long = "a".repeat(257);
    let parse = |text: String| JsonLogicInput::parse(&text);
    assert_eq!(parse(format!("{}, []", long)).unwrap_err(), ParseError::ExpectedIdent);
    assert!(parse(format!("{}, []", "a".repeat(256))).is_ok());
    let declare = |path: &str, name: &str, ty: &str| {
        format!("Q, [#[diesel_column_name = {}] {} => {}]", path, name, ty)
    };
    assert_eq!(parse(declare(&long, "a", "i32")).unwrap_err(), ParseError::ExpectedPath);
    assert_eq!(parse(declare("t::a", &long, "i32")).unwrap_err(), ParseError::ExpectedIdent);
    assert_eq!(parse(declare("t::a", "a", &long)).unwrap_err(), ParseError::ExpectedType);
    let nested = format!("{}u8{}", "[".repeat(130), "]".repeat(130));
    assert_eq!(parse(declare("t::a", "a", &nested)).unwrap_err(), ParseError::ExpectedType);
    let nested = format!("{}u8{}", "[".repeat(100), "]".repeat(100));
    assert!(parse(declare("t::a", "a", &nested)).is_ok());
    assert_eq!(parse(format!("Q, [], {}true", " ".repeat(300))).unwrap_err(), ParseError::ExpectedBool);
}

#[test]
fn parse_says_what_is_missing() {
    let parse = |text: &str| JsonLogicInput::parse(text).unwrap_err();
    assert_eq!(parse(""), ParseError::ExpectedIdent);
    assert_eq!(parse("struct, []"), ParseError::ExpectedIdent);
    assert_eq!(parse("Q"), ParseError::ExpectedComma);
    assert_eq!(parse("Q, x"), ParseError::ExpectedBracket);
    assert_eq!(parse("Q, [ "), ParseError::UnclosedBracket);
    assert_eq!(parse("Q, [a => i32]"), ParseError::ExpectedPound);
    assert_eq!(parse("Q, [# a => i32]"), ParseError::ExpectedBracket);
    assert_eq!(parse("Q, [#[diesel_column_name t::a] a => i32]"), ParseError::ExpectedEquals);
    assert_eq!(parse("Q, [#[column = t::a] a => i32]"), ParseError::ExpectedAttribute);
    assert_eq!(parse("Q, [#[1 = t::a] a => i32]"), ParseError::ExpectedIdent);
    assert_eq!(parse("Q, [#[diesel_column_name = ] a => i32]"), ParseError::ExpectedPath);
    assert_eq!(parse("Q, [#[diesel_column_name = 1 + 1] a => i32]"), ParseError::ExpectedPath);
    assert_eq!(parse("Q, [#[diesel_column_name = t::a] a i32]"), ParseError::ExpectedArrow);
    assert_eq!(parse("Q, [#[diesel_column_name = t::a] a = i32]"), ParseError::ExpectedArrow);
    assert_eq!(parse("Q, [#[diesel_column_name = t::a] 1 => i32]"), ParseError::ExpectedIdent);
    assert_eq!(parse("Q, [#[diesel_column_name = t::a] a => ]"), ParseError::ExpectedType);
    assert_eq!(parse("Q, [#[diesel_column_name = t::a] a => i32 i32]"), ParseError::ExpectedType);
    assert_eq!(parse("Q, [],"), ParseError::ExpectedBool);
    assert_eq!(parse("Q, [], 1"), ParseError::ExpectedBool);
    assert_eq!(parse("Q, [] true"), ParseError::UnexpectedToken);
    assert_eq!(parse("Q, [], true, false"), ParseError::UnexpectedToken);
}

#[test]
fn parse_error_messages() {
    assert_eq!(ParseError::ExpectedAttribute.message(), "Expected attribute 'diesel_column_name'");
    assert_eq!(ParseError::ExpectedIdent.message(), "expected identifier");
    assert_eq!(ParseError::ExpectedComma.message(), "expected `,`");
    assert_eq!(ParseError::ExpectedBool.message(), "expected boolean literal");
}

#[test]
fn column_parse_says_where_the_column_ends() {
    let text = chars("  #[diesel_column_name = t::a] a => i32, rest");
    let (parsed, end) = QueryColumn::parse(&text, 0).unwrap();
    assert_eq!(parsed, column("a", "t::a", "i32"));
    assert_eq!(text[end], ',');
    assert_eq!(end, 39);
    let text = chars("#[diesel_column_name = t::a] a => i32");
    let (_, end) = QueryColumn::parse(&text, 0).unwrap();
    assert_eq!(end, text.len());
    assert_eq!(QueryColumn::parse(&text, 1).unwrap_err(), ParseError::ExpectedPound);
    assert_eq!(QueryColumn::parse(&text, 1000).unwrap_err(), ParseError::ExpectedPound);
}

#[test]
fn column_from_parts_names_the_first_missing_part() {
    let some = |text: &str| Some(text.to_string());
    assert_eq!(
        QueryColumn::from_parts(some("diesel_column_name"), some("t :: a"), some("a"), some("i32")),
        Ok(column("a", "t :: a", "i32"))
    );
    assert_eq!(
        QueryColumn::from_parts(None, some("t :: a"), some("a"), some("i32")),
        Err(ParseError::ExpectedIdent)
    );
    assert_eq!(
        QueryColumn::from_parts(some("other"), None, None, None),
        Err(ParseError::ExpectedAttribute)
    );
    assert_eq!(
        QueryColumn::from_parts(some("diesel_column_name"), None, None, None),
        Err(ParseError::ExpectedPath)
    );
    assert_eq!(
        QueryColumn::from_parts(some("diesel_column_name"), some("t :: a"), None, None),
        Err(ParseError::ExpectedIdent)
    );
    assert_eq!(
        QueryColumn::from_parts(some("diesel_column_name"), some("t :: a"), some("a"), None),
        Err(ParseError::ExpectedType)
    );
}

#[test]
fn columns_may_end_with_a_comma() {
    let with = parse_columns(&chars("#[diesel_column_name = t::a] a => i32,")).unwrap();
    let without = parse_columns(&chars("#[diesel_column_name = t::a] a => i32")).unwrap();
    assert_eq!(with, without);
    assert_eq!(with.len(), 1);
    assert!(parse_columns(&chars("  ")).unwrap().is_empty());
    assert_eq!(parse_columns(&chars(",")).unwrap_err(), ParseError::ExpectedPound);
}

#[test]
fn tail_holds_the_flag() {
    assert_eq!(parse_tail(&chars("")), Ok(false));
    assert_eq!(parse_tail(&chars(" \n")), Ok(false));
    assert_eq!(parse_tail(&chars(", true")), Ok(true));
    assert_eq!(parse_tail(&chars(", false ,  ")), Ok(false));
    assert_eq!(flag_then(Some(true), false), Ok(true));
    assert_eq!(flag_then(Some(true), true), Err(ParseError::UnexpectedToken));
    assert_eq!(flag_then(None, false), Err(ParseError::ExpectedBool));
}

#[test]
fn define_makes_the_structures_of_each_column() {
    let definition = define_json_logic(TWO_TABLES).unwrap();
    assert_eq!(definition.structs.len(), 3);
    let (guard, binding) = &definition.structs[0];
    assert_eq!(guard.struct_name, "TblId");
    assert_eq!(guard.column_path_string, "tbl_id");
    assert_eq!(binding.struct_name, "TblIdVar");
    assert_eq!(binding.column, *guard);
    assert_eq!(binding.diesel_column_name, "tbl_one::id");
    assert_eq!(definition.structs[1].0.struct_name, "TblTwoCreatedAt");
    assert_eq!(definition.structs[2].1.struct_name, "TblTwoOtherNotesVar");

    let query = &definition.query_struct;
    assert_eq!(query.struct_name, "TwoTablesQuery");
    assert_eq!(query.json_logic_parent, "crate");
    let names: Vec<&str> = query.fields.iter().map(|field| field.field_name.as_str()).collect();
    assert_eq!(names, ["tbl_id", "tbl_two_created_at", "tbl_two_other_notes"]);
    assert_eq!(query.fields[0].var, *binding);
    assert_eq!(query.fields[0].ty, "i32");
    assert_eq!(
        query.fields[0].value_type,
        ValueType::Integer { min: i32::MIN as i64, max: i32::MAX as i64 }
    );
    assert_eq!(query.fields[1].value_type, ValueType::Other);
    assert_eq!(query.fields[2].value_type, ValueType::Text);

    let unpacking = &definition.query_unpacking_macro;
    assert_eq!(unpacking.macro_name, "impl_two_tables_query");
    assert_eq!(unpacking.macro_parent, "crate");
    assert_eq!(unpacking.field_names, ["tbl_id", "tbl_two_created_at", "tbl_two_other_notes"]);
    assert!(unpacking.doc.contains("[`TwoTablesQuery`] instance and an [`IntoBoxed`][i] SQL statement."));
    assert!(unpacking.doc.starts_with("\n    Transforms the JSON Logic queries into [`diesel`] query filters."));
}

#[test]
fn define_outside_of_tests_names_the_crate() {
    let definition =
        define_json_logic("MyTableQuery, [#[diesel_column_name = my_tbl::best_column] best => i32]")
            .unwrap();
    assert_eq!(definition.query_struct.json_logic_parent, "::diesel_json_logic");
    assert_eq!(definition.query_unpacking_macro.macro_parent, "::diesel_json_logic");
    assert_eq!(definition.query_unpacking_macro.macro_name, "impl_my_table_query");
    assert_eq!(define_json_logic("MyTableQuery").unwrap_err(), ParseError::ExpectedComma);
}

#[test]
fn value_type_of_a_type_name() {
    assert_eq!(ValueType::of("i8"), ValueType::Integer { min: -128, max: 127 });
    assert_eq!(ValueType::of("i16"), ValueType::Integer { min: -32768, max: 32767 });
    assert_eq!(ValueType::of("i64"), ValueType::Integer { min: i64::MIN, max: i64::MAX });
    assert_eq!(ValueType::of("u16"), ValueType::Integer { min: 0, max: 65535 });
    assert_eq!(ValueType::of("u32"), ValueType::Integer { min: 0, max: 4294967295 });
    assert_eq!(ValueType::of("u64"), ValueType::Wide { below: 0, above: u64::MAX as u128 });
    assert_eq!(ValueType::of("usize"), ValueType::Wide { below: 0, above: u64::MAX as u128 });
    assert_eq!(ValueType::of("u128"), ValueType::Wide { below: 0, above: u128::MAX });
    assert_eq!(
        ValueType::of("i128"),
        ValueType::Wide { below: 1 << 127, above: i128::MAX as u128 }
    );
    assert_eq!(ValueType::of("isize"), ValueType::Integer { min: i64::MIN, max: i64::MAX });
    assert_eq!(ValueType::of("String"), ValueType::Text);
    assert_eq!(ValueType::of("bool"), ValueType::Boolean);
    assert_eq!(ValueType::of("DateTime<Utc>"), ValueType::Other);
}
