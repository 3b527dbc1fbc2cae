//! From the declaration of a table shape to what it defines: the guard and
//! the binding structure of each column, the query structure, and the
//! unpacking macro.

use vstd::prelude::*;
use vstd::string::*;
use crate::case::chars_of;
use crate::column::{
    generate_column_struct, generate_var_struct, is_binding_of, is_guard_of, ColumnStruct,
    QueryColumn, QueryColumnView, VarStruct,
};
use crate::names::{camel_case_spec, var_struct_name_spec};
use crate::parse::{
    blank_end, char_position, closing_position, columns_from, find_char, find_close,
    ident_of, is_path_text, is_type_text, parse_columns, parse_tail, parsed_view, read_ident,
    read_path, read_type, skip_blank, slice_chars, tail_flag, ParseError,
};
use crate::query::{generate_query_struct, is_query_struct_of, QueryStruct};
use crate::unpack::{
    generate_query_unpacking_macro, is_unpacking_macro_of, macro_name_spec, unpacking_macro_name,
    UnpackingMacro,
};

verus! {

/// The declaration of a table shape: the name of its query structure, its
/// queryable columns, and whether the crate itself is being tested.
#[derive(Debug, PartialEq)]
pub struct JsonLogicInput {
    pub ident: String,
    pub columns: Vec<QueryColumn>,
    pub is_test: bool,
}

/// The mathematical content of a [`JsonLogicInput`].
pub ghost struct JsonLogicInputView {
    pub ident: Seq<char>,
    pub columns: Seq<QueryColumnView>,
    pub is_test: bool,
}

impl DeepView for JsonLogicInput {
    type V = JsonLogicInputView;

    open spec fn deep_view(&self) -> JsonLogicInputView {
        JsonLogicInputView {
            ident: self.ident@,
            columns: self.columns.deep_view(),
            is_test: self.is_test,
        }
    }
}

impl View for JsonLogicInput {
    type V = JsonLogicInputView;

    open spec fn view(&self) -> JsonLogicInputView {
        self.deep_view()
    }
}

/// What a declaration defines.
#[derive(Debug, PartialEq)]
pub struct JsonLogicDefinition {
    /// The guard and the binding structure of each column, in declaration order.
    pub structs: Vec<(ColumnStruct, VarStruct)>,
    pub query_struct: QueryStruct,
    pub query_unpacking_macro: UnpackingMacro,
}

/// The declaration that a text holds: the name of the query structure, a
/// comma, the bracketed list of columns, and what stands behind it.
pub open spec fn input_of(s: Seq<char>) -> Result<JsonLogicInputView, ParseError> {
    let comma = char_position(s, ',', 0);
    let open = blank_end(s, comma + 1);
    let close = closing_position(s, open + 1, 0);
    match ident_of(s.subrange(0, comma)) {
        None => Err(ParseError::ExpectedIdent),
        Some(ident) => {
            if !(comma < s.len()) {
                Err(ParseError::ExpectedComma)
            } else if !(open < s.len() && s[open] == '[') {
                Err(ParseError::ExpectedBracket)
            } else if !(close < s.len()) {
                Err(ParseError::UnclosedBracket)
            } else {
                match columns_from(s.subrange(open + 1, close), 0) {
                    Err(error) => Err(error),
                    Ok(columns) => match tail_flag(s.subrange(close + 1, s.len() as int)) {
                        Err(error) => Err(error),
                        Ok(is_test) => Ok(JsonLogicInputView { ident, columns, is_test }),
                    },
                }
            }
        },
    }
}

/// The names of the guard and of the binding structure of each column, in
/// declaration order.
pub open spec fn column_struct_names(columns: Seq<QueryColumnView>) -> Seq<Seq<char>>
    decreases columns.len(),
{
    if columns.len() == 0 {
        Seq::empty()
    } else {
        column_struct_names(columns.drop_last()).push(
            camel_case_spec(columns.last().query_column_name),
        ).push(var_struct_name_spec(columns.last().query_column_name))
    }
}

/// The names of the structures that a declaration defines: that of the query
/// structure, then those of the columns' structures.
pub open spec fn struct_names(input: JsonLogicInputView) -> Seq<Seq<char>> {
    seq![input.ident] + column_struct_names(input.columns)
}

/// Whether no two of `names` are the same.
pub open spec fn all_distinct(names: Seq<Seq<char>>) -> bool {
    forall|i: int, j: int| 0 <= i < j < names.len() ==> names[i] != names[j]
}

/// Whether `name` is an identifier, written as identifiers are written back.
pub open spec fn is_identifier(name: Seq<char>) -> bool {
    ident_of(name) == Some(name)
}

/// Whether each of `names` is an identifier.
pub open spec fn all_identifiers(names: Seq<Seq<char>>) -> bool {
    forall|i: int| 0 <= i < names.len() ==> is_identifier(#[trigger] names[i])
}

/// The names of the fields of the query structure, in declaration order.
pub open spec fn field_names(columns: Seq<QueryColumnView>) -> Seq<Seq<char>> {
    Seq::new(columns.len(), |i: int| columns[i].query_column_name)
}

/// The names that a declaration defines: those of the structures, those of
/// the fields of the query structure, and that of the unpacking macro.
pub open spec fn defined_names(input: JsonLogicInputView) -> Seq<Seq<char>> {
    struct_names(input) + field_names(input.columns) + seq![macro_name_spec(input.ident)]
}

/// Whether the column of the table behind each column is written as a path.
pub open spec fn all_paths(columns: Seq<QueryColumnView>) -> bool {
    forall|i: int| 0 <= i < columns.len() ==> is_path_text(#[trigger] columns[i].diesel_column_name)
}

/// Whether the type of the values of each column is written as a type.
pub open spec fn all_types(columns: Seq<QueryColumnView>) -> bool {
    forall|i: int| 0 <= i < columns.len() ==> is_type_text(#[trigger] columns[i].ty)
}

/// Whether a declaration defines anything, and if not, why: each name that it
/// defines is an identifier, each column names a path and a type, and no two
/// structures have one name.
pub open spec fn definable(input: JsonLogicInputView) -> Result<(), ParseError> {
    if !all_identifiers(defined_names(input)) {
        Err(ParseError::InvalidName)
    } else if !all_paths(input.columns) {
        Err(ParseError::ExpectedPath)
    } else if !all_types(input.columns) {
        Err(ParseError::ExpectedType)
    } else if !all_distinct(struct_names(input)) {
        Err(ParseError::DuplicateName)
    } else {
        Ok(())
    }
}

/// Whether `definition` is what the declaration `input` defines.
pub open spec fn is_definition_of(definition: JsonLogicDefinition, input: JsonLogicInputView) -> bool {
    &&& definition.structs@.len() == input.columns.len()
    &&& forall|i: int|
        0 <= i < input.columns.len() ==> {
            &&& is_guard_of(
                (#[trigger] definition.structs@[i]).0,
                input.columns[i].query_column_name,
            )
            &&& is_binding_of(
                definition.structs@[i].1,
                input.columns[i].query_column_name,
                input.columns[i].diesel_column_name,
            )
        }
    &&& is_query_struct_of(definition.query_struct, input.ident, input.columns, input.is_test)
    &&& is_unpacking_macro_of(
        definition.query_unpacking_macro,
        input.ident,
        input.columns,
        input.is_test,
    )
}

/// Whether no two of `names` are the same.
fn are_distinct(names: &Vec<String>) -> (b: bool)
    ensures
        b == all_distinct(names.deep_view()),
{
    let ghost all = names.deep_view();
    let mut j: usize = 0;
    while j < names.len()
        invariant
            j <= names@.len(),
            all == names.deep_view(),
            forall|a: int, b: int| 0 <= a < b < j ==> all[a] != all[b],
        decreases names@.len() - j,
    {
        let mut i: usize = 0;
        while i < j
            invariant
                i <= j < names@.len(),
                all == names.deep_view(),
                forall|a: int| 0 <= a < i ==> all[a] != all[j as int],
            decreases j - i,
        {
            if names[i] == names[j] {
                proof {
                    assert(all[i as int] == all[j as int]);
                }
                return false;
            }
            i += 1;
        }
        j += 1;
    }
    true
}

/// Whether `name` is an identifier, written as identifiers are written back.
pub fn identifier(name: &str) -> (b: bool)
    ensures
        b == is_identifier(name@),
{
    let chars = chars_of(name);
    proof {
        assert(chars@.subrange(0, chars@.len() as int) == name@);
    }
    match read_ident(&chars, 0, chars.len()) {
        Some(written) => written == String::from_str(name),
        None => false,
    }
}

/// Whether each of `names` is an identifier.
fn are_identifiers(names: &Vec<String>) -> (b: bool)
    ensures
        b == all_identifiers(names.deep_view()),
{
    let ghost all = names.deep_view();
    let mut i: usize = 0;
    while i < names.len()
        invariant
            i <= names@.len(),
            all == names.deep_view(),
            forall|j: int| 0 <= j < i ==> is_identifier(#[trigger] all[j]),
        decreases names@.len() - i,
    {
        if !identifier(names[i].as_str()) {
            proof {
                assert(!is_identifier(all[i as int]));
            }
            return false;
        }
        i += 1;
    }
    true
}

/// Whether the column of the table behind each column is written as a path.
fn are_paths(columns: &Vec<QueryColumn>) -> (b: bool)
    ensures
        b == all_paths(columns.deep_view()),
{
    let ghost all = columns.deep_view();
    let mut i: usize = 0;
    while i < columns.len()
        invariant
            i <= columns@.len(),
            all == columns.deep_view(),
            forall|j: int| 0 <= j < i ==> is_path_text(#[trigger] all[j].diesel_column_name),
        decreases columns@.len() - i,
    {
        let chars = chars_of(columns[i].diesel_column_name.as_str());
        proof {
            assert(chars@.subrange(0, chars@.len() as int) == all[i as int].diesel_column_name);
        }
        if !read_path(&chars, 0, chars.len()) {
            return false;
        }
        i += 1;
    }
    true
}

/// Whether the type of the values of each column is written as a type.
fn are_types(columns: &Vec<QueryColumn>) -> (b: bool)
    ensures
        b == all_types(columns.deep_view()),
{
    let ghost all = columns.deep_view();
    let mut i: usize = 0;
    while i < columns.len()
        invariant
            i <= columns@.len(),
            all == columns.deep_view(),
            forall|j: int| 0 <= j < i ==> is_type_text(#[trigger] all[j].ty),
        decreases columns@.len() - i,
    {
        let chars = chars_of(columns[i].ty.as_str());
        proof {
            assert(chars@.subrange(0, chars@.len() as int) == all[i as int].ty);
        }
        if !read_type(&chars, 0, chars.len()) {
            return false;
        }
        i += 1;
    }
    true
}

impl JsonLogicInput {
    /// The names that the declaration defines: those of the structures, those
    /// of the fields of the query structure, and that of the unpacking macro.
    pub fn defined_names(&self) -> (r: Vec<String>)
        ensures
            r.deep_view() == defined_names(self@),
    {
        let mut names = self.struct_names();
        let ghost structs = names.deep_view();
        let ghost columns = self.columns.deep_view();
        proof {
            assert(field_names(columns).take(0) == Seq::<Seq<char>>::empty());
            assert(structs + Seq::<Seq<char>>::empty() == structs);
        }
        let mut i: usize = 0;
        while i < self.columns.len()
            invariant
                i <= self.columns@.len(),
                columns == self.columns.deep_view(),
                names.deep_view() == structs + field_names(columns).take(i as int),
            decreases self.columns@.len() - i,
        {
            let ghost before = names.deep_view();
            let field = self.columns[i].query_column_name.as_struct_field_name();
            names.push(field);
            proof {
                assert(names.deep_view() == before.push(field@));
                assert(field_names(columns).take(i + 1) == field_names(columns).take(
                    i as int,
                ).push(field@));
            }
            i += 1;
        }
        let ghost before = names.deep_view();
        let unpacking = unpacking_macro_name(self.ident.as_str());
        names.push(unpacking);
        proof {
            assert(field_names(columns).take(self.columns@.len() as int) == field_names(columns));
            assert(names.deep_view() == before.push(unpacking@));
            assert(before.push(unpacking@) == before + seq![unpacking@]);
        }
        names
    }

    /// The names of the structures that the declaration defines.
    pub fn struct_names(&self) -> (r: Vec<String>)
        ensures
            r.deep_view() == struct_names(self@),
    {
        let mut names: Vec<String> = Vec::new();
        names.push(self.ident.clone());
        let ghost columns = self.columns.deep_view();
        proof {
            assert(names.deep_view() == seq![self.ident@]);
            assert(column_struct_names(columns.take(0)) == Seq::<Seq<char>>::empty());
            assert(seq![self.ident@] + Seq::<Seq<char>>::empty() == seq![self.ident@]);
        }
        let mut i: usize = 0;
        while i < self.columns.len()
            invariant
                i <= self.columns@.len(),
                columns == self.columns.deep_view(),
                names.deep_view() == seq![self.ident@] + column_struct_names(
                    columns.take(i as int),
                ),
            decreases self.columns@.len() - i,
        {
            let ghost before = names.deep_view();
            let guard = self.columns[i].query_column_name.as_column_struct_name();
            let binding = self.columns[i].query_column_name.as_var_struct_name();
            names.push(guard);
            names.push(binding);
            proof {
                assert(columns.take(i + 1).drop_last() == columns.take(i as int));
                assert(columns.take(i + 1).last() == self.columns@[i as int]@);
                assert(names.deep_view() == before.push(guard@).push(binding@));
            }
            i += 1;
        }
        proof {
            assert(columns.take(self.columns@.len() as int) == columns);
        }
        names
    }

    /// Reads a declaration.
    pub fn parse(input: &str) -> (r: Result<JsonLogicInput, ParseError>)
        ensures
            parsed_view(r) == input_of(input@),
    {
        let chars = chars_of(input);
        let n = chars.len();
        let comma = find_char(&chars, ',', 0);
        let ident = match read_ident(&chars, 0, comma) {
            Some(ident) => ident,
            None => { return Err(ParseError::ExpectedIdent); },
        };
        if comma >= n {
            return Err(ParseError::ExpectedComma);
        }
        let open = skip_blank(&chars, comma + 1);
        if open >= n || chars[open] != '[' {
            return Err(ParseError::ExpectedBracket);
        }
        let close = find_close(&chars, open + 1);
        if close >= n {
            return Err(ParseError::UnclosedBracket);
        }
        let columns = match parse_columns(&slice_chars(&chars, open + 1, close)) {
            Ok(columns) => columns,
            Err(error) => { return Err(error); },
        };
        match parse_tail(&slice_chars(&chars, close + 1, n)) {
            Ok(is_test) => Ok(JsonLogicInput { ident, columns, is_test }),
            Err(error) => Err(error),
        }
    }

    /// Makes what the declaration defines: for each column its guard and its
    /// binding structure, then the query structure and the unpacking macro.
    /// A declaration defines nothing where a name that it would define is no
    /// identifier, where a column names no path or no type, or where it
    /// would give two structures one name. Every name, path and type of a
    /// definition has therefore been read by `syn` as what it is.
    pub fn define(&self) -> (r: Result<JsonLogicDefinition, ParseError>)
        ensures
            match definable(self@) {
                Ok(_) => r is Ok && is_definition_of(r->Ok_0, self@),
                Err(error) => r is Err && r->Err_0 == error,
            },
    {
        if !are_identifiers(&self.defined_names()) {
            return Err(ParseError::InvalidName);
        }
        if !are_paths(&self.columns) {
            return Err(ParseError::ExpectedPath);
        }
        if !are_types(&self.columns) {
            return Err(ParseError::ExpectedType);
        }
        if !are_distinct(&self.struct_names()) {
            return Err(ParseError::DuplicateName);
        }
        let mut structs: Vec<(ColumnStruct, VarStruct)> = Vec::new();
        let mut i: usize = 0;
        while i < self.columns.len()
            invariant
                i <= self.columns@.len(),
                structs@.len() == i,
                forall|j: int|
                    0 <= j < i ==> {
                        &&& is_guard_of(
                            (#[trigger] structs@[j]).0,
                            self.columns@[j].query_column_name.0@,
                        )
                        &&& is_binding_of(
                            structs@[j].1,
                            self.columns@[j].query_column_name.0@,
                            self.columns@[j].diesel_column_name@,
                        )
                    },
            decreases self.columns@.len() - i,
        {
            let query_column = &self.columns[i];
            let column = generate_column_struct(&query_column.query_column_name);
            let var = generate_var_struct(
                &query_column.query_column_name,
                query_column.diesel_column_name.as_str(),
            );
            structs.push((column, var));
            i += 1;
        }
        let query_struct = generate_query_struct(self.ident.as_str(), &self.columns, self.is_test);
        let query_unpacking_macro = generate_query_unpacking_macro(
            self.ident.clone(),
            &self.columns,
            self.is_test,
        );
        Ok(JsonLogicDefinition { structs, query_struct, query_unpacking_macro })
    }
}

/// Reads the declaration of a table shape and makes what it defines. A text
/// that holds no declaration, or a declaration that defines nothing, gives
/// the error that says what was missed.
pub fn define_json_logic(tokens: &str) -> (r: Result<JsonLogicDefinition, ParseError>)
    ensures
        match input_of(tokens@) {
            Ok(input) => match definable(input) {
                Ok(_) => r is Ok && is_definition_of(r->Ok_0, input),
                Err(error) => r is Err && r->Err_0 == error,
            },
            Err(error) => r is Err && r->Err_0 == error,
        },
{
    match JsonLogicInput::parse(tokens) {
        Ok(input) => input.define(),
        Err(error) => Err(error),
    }
}

} // verus!
