use diesel_json_logic_core::case::{camel_to_snake, capitalize_with, capitalize_word, push_snake_piece};
use diesel_json_logic_core::names::QueryColumnName;

#[test]
fn camel_to_snake_lowers_and_separates() {
    assert_eq!(camel_to_snake("TwoTablesQuery".to_string()), "two_tables_query");
    assert_eq!(camel_to_snake("MyTableQuery".to_string()), "my_table_query");
    assert_eq!(camel_to_snake("already_snake".to_string()), "already_snake");
    assert_eq!(camel_to_snake("ABC".to_string()), "a_b_c");
    assert_eq!(camel_to_snake("x".to_string()), "x");
    assert_eq!(camel_to_snake(String::new()), "");
}

#[test]
fn camel_to_snake_takes_the_first_lowercase_character() {
    // U+0130 lowers to two characters, of which the first is kept.
    assert_eq!(camel_to_snake("aİ".to_string()), "a_i");
}

#[test]
fn push_snake_piece_follows_the_case_it_is_given() {
    let mut out = String::from("ab");
    push_snake_piece(&mut out, false, 'C', true, &vec!['c']);
    assert_eq!(out, "ab_c");
    push_snake_piece(&mut out, true, 'D', true, &vec!['d', 'x']);
    assert_eq!(out, "ab_cd");
    push_snake_piece(&mut out, false, 'E', false, &vec!['e']);
    assert_eq!(out, "ab_cdE");
}

#[test]
fn capitalize_word_raises_first_letter() {
    assert_eq!(capitalize_word("tbl"), "Tbl");
    assert_eq!(capitalize_word("Tbl"), "Tbl");
    assert_eq!(capitalize_word("1st"), "1st");
    assert_eq!(capitalize_word(""), "");
    assert_eq!(capitalize_word("ßeta"), "SSeta");
}

#[test]
fn capitalize_with_replaces_the_first_character() {
    assert_eq!(capitalize_with("word", &vec!['W']), "Word");
    assert_eq!(capitalize_with("word", &vec!['X', 'Y']), "XYord");
    assert_eq!(capitalize_with("", &vec!['W']), "");
}

#[test]
fn camel_case_cuts_at_underscores() {
    assert_eq!(QueryColumnName("tbl_id".to_string()).as_camel_case(), "TblId");
    assert_eq!(
        QueryColumnName("tbl_two_created_at".to_string()).as_camel_case(),
        "TblTwoCreatedAt"
    );
    assert_eq!(QueryColumnName("best".to_string()).as_camel_case(), "Best");
    assert_eq!(QueryColumnName("a__b".to_string()).as_camel_case(), "AB");
    assert_eq!(QueryColumnName("_a_".to_string()).as_camel_case(), "A");
    assert_eq!(QueryColumnName("a b_c".to_string()).as_camel_case(), "AbC");
    assert_eq!(QueryColumnName(String::new()).as_camel_case(), "");
}

#[test]
fn derived_names_of_a_column() {
    let name = QueryColumnName("tbl_two_other_notes".to_string());
    assert_eq!(name.as_snake_case(), "tbl_two_other_notes");
    assert_eq!(name.as_struct_field_name(), "tbl_two_other_notes");
    assert_eq!(name.as_column_struct_name(), "TblTwoOtherNotes");
    assert_eq!(name.as_var_struct_name(), "TblTwoOtherNotesVar");
}
