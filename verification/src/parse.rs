//! Reading the declaration of a table shape: the name of the query structure,
//! the bracketed list of the queryable columns, and whether the crate itself
//! is being tested.
//!
//! ```text
//! TwoTablesQuery,
//! [
//!     #[diesel_column_name = tbl_one::id]
//!     tbl_id => i32,
//! ],
//! true,
//! ```

use vstd::prelude::*;
use vstd::string::*;
use crate::case::push_char;
use crate::column::{QueryColumn, QueryColumnView};
use crate::names::QueryColumnName;

verus! {

/// The identifier that `text` is, as `syn` parses it and writes it, if it is one.
pub uninterp spec fn syn_ident(text: Seq<char>) -> Option<Seq<char>>;

/// Whether `syn` parses `text` as a path.
pub uninterp spec fn syn_is_path(text: Seq<char>) -> bool;

/// Whether `syn` parses `text` as a type.
pub uninterp spec fn syn_is_type(text: Seq<char>) -> bool;

/// The boolean literal that `text` is, as `syn` parses it, if it is one.
pub uninterp spec fn syn_lit_bool(text: Seq<char>) -> Option<bool>;

/// The longest text, in characters, that is handed to `syn`. `syn` descends
/// once for each level at which brackets, references and the like are nested
/// in a text, and so no deeper than the text is long.
pub const MAX_TEXT: usize = 256;

/// `syn::parse_str` for `syn::Ident`, and `to_string` on the identifier.
///
/// This crate builds `syn` and `proc-macro2` without their `proc-macro`
/// feature. `proc-macro2` then holds one lexer, its own, and no switch to
/// the compiler's: what comes back depends on the text alone. A build that
/// turns the feature on is not what this contract speaks of.
#[verifier::external_body]
fn parse_ident(text: &str) -> (r: Option<String>)
    requires
        text@.len() <= MAX_TEXT,
    ensures
        r.deep_view() == syn_ident(text@),
{
    match syn::parse_str::<syn::Ident>(text) {
        Ok(ident) => Some(ident.to_string()),
        Err(_) => None,
    }
}

/// `syn::parse_str` for `syn::Path`: whether the text parses. With the one
/// lexer of this crate's build, that depends on the text alone.
#[verifier::external_body]
fn is_path(text: &str) -> (b: bool)
    requires
        text@.len() <= MAX_TEXT,
    ensures
        b == syn_is_path(text@),
{
    syn::parse_str::<syn::Path>(text).is_ok()
}

/// `syn::parse_str` for `syn::Type`: whether the text parses. With the one
/// lexer of this crate's build, that depends on the text alone.
#[verifier::external_body]
fn is_type(text: &str) -> (b: bool)
    requires
        text@.len() <= MAX_TEXT,
    ensures
        b == syn_is_type(text@),
{
    syn::parse_str::<syn::Type>(text).is_ok()
}

/// `syn::parse_str` for `syn::LitBool`, and the literal's value. With the one
/// lexer of this crate's build, what comes back depends on the text alone.
#[verifier::external_body]
fn parse_lit_bool(text: &str) -> (r: Option<bool>)
    requires
        text@.len() <= MAX_TEXT,
    ensures
        r == syn_lit_bool(text@),
{
    match syn::parse_str::<syn::LitBool>(text) {
        Ok(lit) => Some(lit.value),
        Err(_) => None,
    }
}

/// The identifier that `text` is, if it is one. A text longer than
/// [`MAX_TEXT`] is none.
pub open spec fn ident_of(text: Seq<char>) -> Option<Seq<char>> {
    if text.len() <= MAX_TEXT {
        syn_ident(text)
    } else {
        None
    }
}

/// Whether `text` is a path. A text longer than [`MAX_TEXT`] is none.
pub open spec fn is_path_text(text: Seq<char>) -> bool {
    text.len() <= MAX_TEXT && syn_is_path(text)
}

/// Whether `text` is a type. A text longer than [`MAX_TEXT`] is none.
pub open spec fn is_type_text(text: Seq<char>) -> bool {
    text.len() <= MAX_TEXT && syn_is_type(text)
}

/// The boolean literal that `text` is, if it is one. A text longer than
/// [`MAX_TEXT`] is none.
pub open spec fn lit_bool_of(text: Seq<char>) -> Option<bool> {
    if text.len() <= MAX_TEXT {
        syn_lit_bool(text)
    } else {
        None
    }
}

/// Why a declaration was not read.
#[derive(Debug, Clone, Copy, PartialEq, Eq, Structural)]
pub enum ParseError {
    /// An identifier was expected.
    ExpectedIdent,
    /// A comma was expected.
    ExpectedComma,
    /// An opening bracket was expected.
    ExpectedBracket,
    /// A bracket is not closed.
    UnclosedBracket,
    /// The `#` that opens a column's attribute was expected.
    ExpectedPound,
    /// The `=` of a column's attribute was expected.
    ExpectedEquals,
    /// The attribute of a column is not `diesel_column_name`.
    ExpectedAttribute,
    /// The path of a column of the table was expected.
    ExpectedPath,
    /// The `=>` between a column's name and its type was expected.
    ExpectedArrow,
    /// A type was expected.
    ExpectedType,
    /// A boolean literal was expected.
    ExpectedBool,
    /// Something stands where the declaration should end.
    UnexpectedToken,
    /// Two of the structures that the declaration defines have one name.
    DuplicateName,
    /// A name that the declaration defines is no identifier.
    InvalidName,
}

/// What is said of each error.
pub open spec fn parse_error_message(error: ParseError) -> Seq<char> {
    match error {
        ParseError::ExpectedIdent => "expected identifier"@,
        ParseError::ExpectedComma => "expected `,`"@,
        ParseError::ExpectedBracket => "expected square brackets"@,
        ParseError::UnclosedBracket => "expected `]`"@,
        ParseError::ExpectedPound => "expected `#`"@,
        ParseError::ExpectedEquals => "expected `=`"@,
        ParseError::ExpectedAttribute => "Expected attribute 'diesel_column_name'"@,
        ParseError::ExpectedPath => "expected path"@,
        ParseError::ExpectedArrow => "expected `=>`"@,
        ParseError::ExpectedType => "expected type"@,
        ParseError::ExpectedBool => "expected boolean literal"@,
        ParseError::UnexpectedToken => "unexpected token"@,
        ParseError::DuplicateName => "the structures of the declaration need distinct names"@,
        ParseError::InvalidName => "the names of the declaration need to be identifiers"@,
    }
}

impl ParseError {
    /// The text in which the error is reported.
    pub fn message(&self) -> (r: &'static str)
        ensures
            r@ == parse_error_message(*self),
    {
        match self {
            ParseError::ExpectedIdent => "expected identifier",
            ParseError::ExpectedComma => "expected `,`",
            ParseError::ExpectedBracket => "expected square brackets",
            ParseError::UnclosedBracket => "expected `]`",
            ParseError::ExpectedPound => "expected `#`",
            ParseError::ExpectedEquals => "expected `=`",
            ParseError::ExpectedAttribute => "Expected attribute 'diesel_column_name'",
            ParseError::ExpectedPath => "expected path",
            ParseError::ExpectedArrow => "expected `=>`",
            ParseError::ExpectedType => "expected type",
            ParseError::ExpectedBool => "expected boolean literal",
            ParseError::UnexpectedToken => "unexpected token",
            ParseError::DuplicateName => "the structures of the declaration need distinct names",
            ParseError::InvalidName => "the names of the declaration need to be identifiers",
        }
    }
}

/// Whether `c` separates tokens without being one: a space, a tab or a line end.
pub open spec fn is_blank(c: char) -> bool {
    c == ' ' || c == '\t' || c == '\n' || c == '\r'
}

/// The first position at or behind `from` that holds no blank, or the length
/// of the text where there is none.
pub open spec fn blank_end(s: Seq<char>, from: int) -> int
    decreases s.len() - from,
{
    if 0 <= from < s.len() && is_blank(s[from]) {
        blank_end(s, from + 1)
    } else {
        from
    }
}

/// The first position at or before `to` behind which all is blank up to `to`.
pub open spec fn blank_start(s: Seq<char>, to: int) -> int
    decreases to,
{
    if 0 < to <= s.len() && is_blank(s[to - 1]) {
        blank_start(s, to - 1)
    } else {
        to
    }
}

/// A text without the blanks in front of it and behind it.
pub open spec fn trimmed(s: Seq<char>) -> Seq<char> {
    if blank_end(s, 0) >= s.len() {
        Seq::empty()
    } else {
        s.subrange(blank_end(s, 0), blank_start(s, s.len() as int))
    }
}

/// The first position at or behind `from` that holds `c`, or the length of
/// the text where there is none.
pub open spec fn char_position(s: Seq<char>, c: char, from: int) -> int
    decreases s.len() - from,
{
    if 0 <= from < s.len() && s[from] != c {
        char_position(s, c, from + 1)
    } else {
        from
    }
}

/// The position at or behind `from` of the bracket that closes the bracket
/// in which `from` stands, `depth` brackets having been opened since; the
/// length of the text where there is none.
pub open spec fn closing_position(s: Seq<char>, from: int, depth: nat) -> int
    decreases s.len() - from,
{
    if 0 <= from < s.len() {
        if s[from] == '[' {
            closing_position(s, from + 1, depth + 1)
        } else if s[from] == ']' {
            if depth == 0 {
                from
            } else {
                closing_position(s, from + 1, (depth - 1) as nat)
            }
        } else {
            closing_position(s, from + 1, depth)
        }
    } else {
        from
    }
}

/// Where the type that starts at `start` ends: at the first comma at or
/// behind `from`, or else at the end of the text, before which the text from
/// `start` on is a type.
pub open spec fn type_end(s: Seq<char>, start: int, from: int) -> Option<int>
    decreases s.len() - from,
{
    if 0 <= start <= from < s.len() {
        if s[from] == ',' && is_type_text(s.subrange(start, from)) {
            Some(from)
        } else {
            type_end(s, start, from + 1)
        }
    } else if 0 <= start <= from == s.len() && is_type_text(s.subrange(start, from)) {
        Some(from)
    } else {
        None
    }
}

/// The column that the parts of its declaration make: the name of the
/// attribute, the path behind it, the name of the column and its type, each
/// as far as it was read. The first part that is missing, in this order,
/// decides the error.
pub open spec fn column_of_parts(
    attribute: Option<Seq<char>>,
    path: Option<Seq<char>>,
    name: Option<Seq<char>>,
    ty: Option<Seq<char>>,
) -> Result<QueryColumnView, ParseError> {
    if attribute is None {
        Err(ParseError::ExpectedIdent)
    } else if attribute->0 != "diesel_column_name"@ {
        Err(ParseError::ExpectedAttribute)
    } else if path is None {
        Err(ParseError::ExpectedPath)
    } else if name is None {
        Err(ParseError::ExpectedIdent)
    } else if ty is None {
        Err(ParseError::ExpectedType)
    } else {
        Ok(
            QueryColumnView {
                query_column_name: name->0,
                diesel_column_name: path->0,
                ty: ty->0,
            },
        )
    }
}

/// The column that is declared at `from`, and where its declaration ends:
/// `#`, the bracketed attribute `diesel_column_name = path`, the name of the
/// column, `=>`, and the type. The path and the type are kept as they are
/// written, without the blanks around them.
pub open spec fn column_at(s: Seq<char>, from: int) -> Result<(QueryColumnView, int), ParseError> {
    let pound = blank_end(s, from);
    let open = blank_end(s, pound + 1);
    let close = closing_position(s, open + 1, 0);
    let equals = char_position(s, '=', open + 1);
    let arrow = char_position(s, '=', close + 1);
    let end = type_end(s, arrow + 2, arrow + 2);
    if !(0 <= pound < s.len() && s[pound] == '#') {
        Err(ParseError::ExpectedPound)
    } else if !(open < s.len() && s[open] == '[') {
        Err(ParseError::ExpectedBracket)
    } else if !(close < s.len()) {
        Err(ParseError::UnclosedBracket)
    } else if !(equals < close) {
        Err(ParseError::ExpectedEquals)
    } else if !(arrow + 1 < s.len() && s[arrow + 1] == '>') {
        Err(ParseError::ExpectedArrow)
    } else {
        match column_of_parts(
            ident_of(s.subrange(open + 1, equals)),
            if is_path_text(s.subrange(equals + 1, close)) {
                Some(trimmed(s.subrange(equals + 1, close)))
            } else {
                None
            },
            ident_of(s.subrange(close + 1, arrow)),
            match end {
                Some(end) => Some(trimmed(s.subrange(arrow + 2, end))),
                None => None,
            },
        ) {
            Ok(column) => Ok((column, end->0)),
            Err(error) => Err(error),
        }
    }
}

/// The columns that are declared from `from` on, each closed by a comma but
/// for the last, which may go without.
pub open spec fn columns_from(s: Seq<char>, from: int) -> Result<Seq<QueryColumnView>, ParseError>
    decreases s.len() - from,
{
    if !(0 <= from) || blank_end(s, from) >= s.len() {
        Ok(Seq::empty())
    } else {
        match column_at(s, from) {
            Ok((column, end)) => {
                if from <= end < s.len() {
                    match columns_from(s, end + 1) {
                        Ok(columns) => Ok(seq![column] + columns),
                        Err(error) => Err(error),
                    }
                } else {
                    Ok(seq![column])
                }
            },
            Err(error) => Err(error),
        }
    }
}

/// What stands behind the list of columns: nothing, or a comma and a boolean
/// literal, which a last comma may follow.
pub open spec fn tail_flag(s: Seq<char>) -> Result<bool, ParseError> {
    let comma = blank_end(s, 0);
    let second = char_position(s, ',', comma + 1);
    if comma >= s.len() {
        Ok(false)
    } else if s[comma] != ',' {
        Err(ParseError::UnexpectedToken)
    } else {
        match lit_bool_of(s.subrange(comma + 1, second)) {
            Some(flag) => {
                if second < s.len() && blank_end(s, second + 1) < s.len() {
                    Err(ParseError::UnexpectedToken)
                } else {
                    Ok(flag)
                }
            },
            None => Err(ParseError::ExpectedBool),
        }
    }
}

/// The mathematical content of what reading returns.
pub open spec fn parsed_view<T: DeepView>(r: Result<T, ParseError>) -> Result<T::V, ParseError> {
    match r {
        Ok(value) => Ok(value.deep_view()),
        Err(error) => Err(error),
    }
}

/// Whether `c` separates tokens without being one.
fn blank(c: char) -> (b: bool)
    ensures
        b == is_blank(c),
{
    c == ' ' || c == '\t' || c == '\n' || c == '\r'
}

/// The first position at or behind `from` that holds no blank.
pub(crate) fn skip_blank(input: &Vec<char>, from: usize) -> (r: usize)
    requires
        from <= input@.len(),
    ensures
        r == blank_end(input@, from as int),
        from <= r <= input@.len(),
        r < input@.len() ==> !is_blank(input@[r as int]),
{
    let mut i = from;
    while i < input.len() && blank(input[i])
        invariant
            from <= i <= input@.len(),
            blank_end(input@, from as int) == blank_end(input@, i as int),
        decreases input@.len() - i,
    {
        i += 1;
    }
    i
}

/// The first position at or behind `from` that holds `c`.
pub(crate) fn find_char(input: &Vec<char>, c: char, from: usize) -> (r: usize)
    requires
        from <= input@.len(),
    ensures
        r == char_position(input@, c, from as int),
        from <= r <= input@.len(),
{
    let mut i = from;
    while i < input.len() && input[i] != c
        invariant
            from <= i <= input@.len(),
            char_position(input@, c, from as int) == char_position(input@, c, i as int),
        decreases input@.len() - i,
    {
        i += 1;
    }
    i
}

/// The position at or behind `from` of the bracket that closes the bracket in
/// which `from` stands.
pub(crate) fn find_close(input: &Vec<char>, from: usize) -> (r: usize)
    requires
        from <= input@.len(),
    ensures
        r == closing_position(input@, from as int, 0),
        from <= r <= input@.len(),
{
    let mut i = from;
    let mut depth: usize = 0;
    while i < input.len()
        invariant
            from <= i <= input@.len(),
            depth <= i - from,
            closing_position(input@, from as int, 0) == closing_position(
                input@,
                i as int,
                depth as nat,
            ),
        decreases input@.len() - i,
    {
        let c = input[i];
        if c == '[' {
            depth += 1;
        } else if c == ']' {
            if depth == 0 {
                return i;
            }
            depth -= 1;
        }
        i += 1;
    }
    i
}

/// The characters between two positions.
pub(crate) fn slice_chars(input: &Vec<char>, from: usize, to: usize) -> (r: Vec<char>)
    requires
        from <= to <= input@.len(),
    ensures
        r@ == input@.subrange(from as int, to as int),
{
    let mut chars: Vec<char> = Vec::new();
    let mut i = from;
    while i < to
        invariant
            from <= i <= to <= input@.len(),
            chars@ == input@.subrange(from as int, i as int),
        decreases to - i,
    {
        chars.push(input[i]);
        proof {
            assert(input@.subrange(from as int, i + 1) == input@.subrange(
                from as int,
                i as int,
            ).push(input@[i as int]));
        }
        i += 1;
    }
    chars
}

/// The text between two positions.
pub(crate) fn slice_text(input: &Vec<char>, from: usize, to: usize) -> (r: String)
    requires
        from <= to <= input@.len(),
    ensures
        r@ == input@.subrange(from as int, to as int),
{
    let mut text = String::new();
    let mut i = from;
    while i < to
        invariant
            from <= i <= to <= input@.len(),
            text@ == input@.subrange(from as int, i as int),
        decreases to - i,
    {
        push_char(&mut text, input[i]);
        proof {
            assert(input@.subrange(from as int, i + 1) == input@.subrange(
                from as int,
                i as int,
            ).push(input@[i as int]));
        }
        i += 1;
    }
    text
}

/// The identifier that stands between two positions, if there is one.
pub(crate) fn read_ident(input: &Vec<char>, from: usize, to: usize) -> (r: Option<String>)
    requires
        from <= to <= input@.len(),
    ensures
        r.deep_view() == ident_of(input@.subrange(from as int, to as int)),
{
    if to - from > MAX_TEXT {
        None
    } else {
        parse_ident(slice_text(input, from, to).as_str())
    }
}

/// Whether a path stands between two positions.
pub(crate) fn read_path(input: &Vec<char>, from: usize, to: usize) -> (b: bool)
    requires
        from <= to <= input@.len(),
    ensures
        b == is_path_text(input@.subrange(from as int, to as int)),
{
    to - from <= MAX_TEXT && is_path(slice_text(input, from, to).as_str())
}

/// Whether a type stands between two positions.
pub(crate) fn read_type(input: &Vec<char>, from: usize, to: usize) -> (b: bool)
    requires
        from <= to <= input@.len(),
    ensures
        b == is_type_text(input@.subrange(from as int, to as int)),
{
    to - from <= MAX_TEXT && is_type(slice_text(input, from, to).as_str())
}

/// The boolean literal that stands between two positions, if there is one.
fn read_lit_bool(input: &Vec<char>, from: usize, to: usize) -> (r: Option<bool>)
    requires
        from <= to <= input@.len(),
    ensures
        r == lit_bool_of(input@.subrange(from as int, to as int)),
{
    if to - from > MAX_TEXT {
        None
    } else {
        parse_lit_bool(slice_text(input, from, to).as_str())
    }
}

/// A text without the blanks in front of it and behind it.
fn trim(text: &Vec<char>) -> (r: String)
    ensures
        r@ == trimmed(text@),
{
    let n = text.len();
    let from = skip_blank(text, 0);
    if from >= n {
        return String::new();
    }
    let mut to = n;
    while to > 0 && blank(text[to - 1])
        invariant
            from < to <= n,
            n == text@.len(),
            !is_blank(text@[from as int]),
            blank_start(text@, n as int) == blank_start(text@, to as int),
        decreases to,
    {
        to -= 1;
    }
    slice_text(text, from, to)
}

/// Where the type that starts at `start` ends.
fn find_type_end(input: &Vec<char>, start: usize) -> (r: Option<usize>)
    requires
        start <= input@.len(),
    ensures
        match r {
            Some(end) => type_end(input@, start as int, start as int) == Some(end as int)
                && start <= end <= input@.len(),
            None => type_end(input@, start as int, start as int) is None,
        },
{
    let mut i = start;
    while i < input.len()
        invariant
            start <= i <= input@.len(),
            type_end(input@, start as int, start as int) == type_end(
                input@,
                start as int,
                i as int,
            ),
        decreases input@.len() - i,
    {
        if input[i] == ',' && read_type(input, start, i) {
            return Some(i);
        }
        i += 1;
    }
    if read_type(input, start, i) {
        Some(i)
    } else {
        None
    }
}

impl QueryColumn {
    /// Makes a column of the parts of its declaration, each as far as it was
    /// read: the name of the attribute, the path behind it, the name of the
    /// column and its type.
    pub fn from_parts(
        attribute: Option<String>,
        path: Option<String>,
        name: Option<String>,
        ty: Option<String>,
    ) -> (r: Result<QueryColumn, ParseError>)
        ensures
            parsed_view(r) == column_of_parts(
                attribute.deep_view(),
                path.deep_view(),
                name.deep_view(),
                ty.deep_view(),
            ),
    {
        let attribute = match attribute {
            Some(attribute) => attribute,
            None => { return Err(ParseError::ExpectedIdent); },
        };
        if attribute != String::from_str("diesel_column_name") {
            return Err(ParseError::ExpectedAttribute);
        }
        let diesel_column_name = match path {
            Some(path) => path,
            None => { return Err(ParseError::ExpectedPath); },
        };
        let name = match name {
            Some(name) => name,
            None => { return Err(ParseError::ExpectedIdent); },
        };
        let ty = match ty {
            Some(ty) => ty,
            None => { return Err(ParseError::ExpectedType); },
        };
        Ok(QueryColumn { query_column_name: QueryColumnName(name), diesel_column_name, ty })
    }

    /// Reads the column that is declared at `from`, and says where its
    /// declaration ends: at the comma behind its type, or at the end of the text.
    pub fn parse(input: &Vec<char>, from: usize) -> (r: Result<(QueryColumn, usize), ParseError>)
        ensures
            match r {
                Ok((column, end)) => column_at(input@, from as int) == Ok::<
                    (QueryColumnView, int),
                    ParseError,
                >((column@, end as int)) && from <= end <= input@.len(),
                Err(error) => column_at(input@, from as int) == Err::<
                    (QueryColumnView, int),
                    ParseError,
                >(error),
            },
    {
        let n = input.len();
        if from > n {
            return Err(ParseError::ExpectedPound);
        }
        let pound = skip_blank(input, from);
        if pound >= n || input[pound] != '#' {
            return Err(ParseError::ExpectedPound);
        }
        let open = skip_blank(input, pound + 1);
        if open >= n || input[open] != '[' {
            return Err(ParseError::ExpectedBracket);
        }
        let close = find_close(input, open + 1);
        if close >= n {
            return Err(ParseError::UnclosedBracket);
        }
        let equals = find_char(input, '=', open + 1);
        if equals >= close {
            return Err(ParseError::ExpectedEquals);
        }
        let arrow = find_char(input, '=', close + 1);
        if arrow >= n - 1 || input[arrow + 1] != '>' {
            return Err(ParseError::ExpectedArrow);
        }
        let attribute = read_ident(input, open + 1, equals);
        let path = if read_path(input, equals + 1, close) {
            Some(trim(&slice_chars(input, equals + 1, close)))
        } else {
            None
        };
        let name = read_ident(input, close + 1, arrow);
        let (end, ty) = match find_type_end(input, arrow + 2) {
            Some(end) => (end, Some(trim(&slice_chars(input, arrow + 2, end)))),
            None => (n, None),
        };
        match QueryColumn::from_parts(attribute, path, name, ty) {
            Ok(column) => Ok((column, end)),
            Err(error) => Err(error),
        }
    }
}

/// The columns that stand in front, and behind them what was read of the rest.
pub open spec fn columns_then(
    front: Seq<QueryColumnView>,
    rest: Result<Seq<QueryColumnView>, ParseError>,
) -> Result<Seq<QueryColumnView>, ParseError> {
    match rest {
        Ok(columns) => Ok(front + columns),
        Err(error) => Err(error),
    }
}

/// Reads the columns that a list declares.
pub fn parse_columns(input: &Vec<char>) -> (r: Result<Vec<QueryColumn>, ParseError>)
    ensures
        parsed_view(r) == columns_from(input@, 0),
{
    let n = input.len();
    let mut columns: Vec<QueryColumn> = Vec::new();
    let mut from: usize = 0;
    proof {
        assert(columns.deep_view() == Seq::<QueryColumnView>::empty());
        assert(Seq::<QueryColumnView>::empty() + columns_from(input@, 0)->Ok_0 == columns_from(
            input@,
            0,
        )->Ok_0);
    }
    loop
        invariant
            n == input@.len(),
            from <= n,
            columns_from(input@, 0) == columns_then(
                columns.deep_view(),
                columns_from(input@, from as int),
            ),
        decreases n - from,
    {
        if skip_blank(input, from) >= n {
            proof {
                assert(columns.deep_view() + Seq::<QueryColumnView>::empty()
                    == columns.deep_view());
            }
            return Ok(columns);
        }
        match QueryColumn::parse(input, from) {
            Ok((column, end)) => {
                let ghost before = columns.deep_view();
                let ghost rest = columns_from(input@, end + 1);
                columns.push(column);
                proof {
                    assert(columns.deep_view() == before.push(column@));
                    assert(before + seq![column@] == before.push(column@));
                    if end < n && rest is Ok {
                        assert(before + (seq![column@] + rest->Ok_0) == before.push(column@)
                            + rest->Ok_0);
                    }
                }
                if end < n {
                    from = end + 1;
                } else {
                    return Ok(columns);
                }
            },
            Err(error) => {
                return Err(error);
            },
        }
    }
}

/// Reads what stands behind the list of columns.
pub fn parse_tail(input: &Vec<char>) -> (r: Result<bool, ParseError>)
    ensures
        r == tail_flag(input@),
{
    let n = input.len();
    let comma = skip_blank(input, 0);
    if comma >= n {
        return Ok(false);
    }
    if input[comma] != ',' {
        return Err(ParseError::UnexpectedToken);
    }
    let second = find_char(input, ',', comma + 1);
    let flag = read_lit_bool(input, comma + 1, second);
    flag_then(flag, second < n && skip_blank(input, second + 1) < n)
}

/// What a boolean literal, as far as it was read, and whether anything stands
/// behind it make of the end of a declaration.
pub open spec fn flag_then_spec(flag: Option<bool>, more: bool) -> Result<bool, ParseError> {
    match flag {
        Some(flag) => if more {
            Err(ParseError::UnexpectedToken)
        } else {
            Ok(flag)
        },
        None => Err(ParseError::ExpectedBool),
    }
}

/// Decides the end of a declaration from the boolean literal, as far as it
/// was read, and from whether anything stands behind it.
pub fn flag_then(flag: Option<bool>, more: bool) -> (r: Result<bool, ParseError>)
    ensures
        r == flag_then_spec(flag, more),
{
    match flag {
        Some(flag) => if more {
            Err(ParseError::UnexpectedToken)
        } else {
            Ok(flag)
        },
        None => Err(ParseError::ExpectedBool),
    }
}

} // verus!
