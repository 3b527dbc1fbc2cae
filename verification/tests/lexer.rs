use diesel_json_logic_core::define::JsonLogicInput;

trait OnlyWithoutTheCompiler {
    fn unwrap(self) -> u8;
}

impl OnlyWithoutTheCompiler for proc_macro2::Span {
    fn unwrap(self) -> u8 {
        1
    }
}

// `Span::unwrap` is a method of `proc_macro2` itself only where it wraps the
// compiler's lexer. This compiles, and takes the method above, only in a build
// that holds the one lexer that `proc_macro2` brings along.
#[test]
fn syn_reads_with_one_lexer() {
    let lexers: u8 = proc_macro2::Span::call_site().unwrap();
    assert_eq!(lexers, 1);
}

#[test]
fn names_are_kept_as_they_are_written() {
    // The letter e and a combining acute accent stay two characters.
    let input = JsonLogicInput::parse("Q, [#[diesel_column_name = t::a] e\u{301} => i32]").unwrap();
    assert_eq!(input.columns[0].query_column_name.0.chars().count(), 2);
    assert_eq!(input.columns[0].query_column_name.0, "e\u{301}");
}
