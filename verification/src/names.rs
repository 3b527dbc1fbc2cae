//! The names that are derived from the name of a queryable column.

use vstd::prelude::*;
use vstd::string::*;
use crate::case::{capitalize_spec, capitalize_word, char_uppercase, chars_of, push_char};

verus! {

/// The name under which a column is queried, in `snake_case`.
#[derive(Debug, PartialEq)]
pub struct QueryColumnName(pub String);

/// `s` without its space characters.
pub open spec fn without_spaces(s: Seq<char>) -> Seq<char>
    decreases s.len(),
{
    if s.len() == 0 {
        s
    } else if s.last() == ' ' {
        without_spaces(s.drop_last())
    } else {
        without_spaces(s.drop_last()).push(s.last())
    }
}

/// What the character at `i` contributes to the `CamelCase` form of `t`: an
/// underscore nothing, a character that opens the name or follows an
/// underscore its uppercase mapping, any other character itself.
pub open spec fn camel_piece(t: Seq<char>, i: int) -> Seq<char> {
    if t[i] == '_' {
        Seq::empty()
    } else if i == 0 || t[i - 1] == '_' {
        char_uppercase(t[i])
    } else {
        seq![t[i]]
    }
}

/// The contributions of the first `n` characters of `t`, in their order.
pub open spec fn camel_prefix(t: Seq<char>, n: nat) -> Seq<char>
    decreases n,
{
    if n == 0 {
        Seq::empty()
    } else {
        camel_prefix(t, (n - 1) as nat) + camel_piece(t, n - 1)
    }
}

/// The `CamelCase` form of a `snake_case` name: spaces are dropped, the name
/// is cut at its underscores, and each word is capitalized.
pub open spec fn camel_case_spec(s: Seq<char>) -> Seq<char> {
    let t = without_spaces(s);
    camel_prefix(t, t.len())
}

/// The name of the binding structure of a column.
pub open spec fn var_struct_name_spec(s: Seq<char>) -> Seq<char> {
    camel_case_spec(s) + "Var"@
}

/// Removes the space characters of `s`.
fn strip_spaces(s: &str) -> (r: Vec<char>)
    ensures
        r@ == without_spaces(s@),
{
    let chars = chars_of(s);
    let mut kept: Vec<char> = Vec::new();
    let mut i: usize = 0;
    while i < chars.len()
        invariant
            i <= chars@.len(),
            chars@ == s@,
            kept@ == without_spaces(s@.take(i as int)),
        decreases chars@.len() - i,
    {
        if chars[i] != ' ' {
            kept.push(chars[i]);
        }
        proof {
            assert(s@.take(i + 1).drop_last() == s@.take(i as int));
        }
        i += 1;
    }
    proof {
        assert(s@.take(s@.len() as int) == s@);
    }
    kept
}

impl QueryColumnName {
    /// The `CamelCase` form of the name. It is an identifier only where the
    /// name holds a word, and its first word opens as identifiers do:
    /// [`crate::define::JsonLogicInput::define`] tests that.
    pub fn as_camel_case(&self) -> (r: String)
        ensures
            r@ == camel_case_spec(self.0@),
    {
        let t = strip_spaces(self.0.as_str());
        let mut out = String::new();
        let mut word = String::new();
        let mut i: usize = 0;
        while i < t.len()
            invariant
                i <= t@.len(),
                out@ + capitalize_spec(word@) == camel_prefix(t@, i as nat),
                word@.len() == 0 <==> (i == 0 || t@[i - 1] == '_'),
            decreases t@.len() - i,
        {
            let c = t[i];
            if c == '_' {
                let capitalized = capitalize_word(word.as_str());
                out.append(capitalized.as_str());
                word = String::new();
            } else {
                proof {
                    let longer = word@.push(c);
                    if word@.len() == 0 {
                        assert(longer.drop_first() == Seq::<char>::empty());
                        assert(capitalize_spec(longer) == char_uppercase(c));
                    } else {
                        assert(longer.drop_first() == word@.drop_first().push(c));
                        assert(capitalize_spec(longer) == capitalize_spec(word@) + seq![c]);
                    }
                }
                push_char(&mut word, c);
            }
            i += 1;
        }
        let capitalized = capitalize_word(word.as_str());
        out.append(capitalized.as_str());
        out
    }

    /// The `snake_case` form of the name: the name as it was declared.
    pub fn as_snake_case(&self) -> (r: String)
        ensures
            r@ == self.0@,
    {
        self.0.clone()
    }

    /// The name of the column's field in the query structure.
    pub fn as_struct_field_name(&self) -> (r: String)
        ensures
            r@ == self.0@,
    {
        self.as_snake_case()
    }

    /// The name of the column's guard structure.
    pub fn as_column_struct_name(&self) -> (r: String)
        ensures
            r@ == camel_case_spec(self.0@),
    {
        self.as_camel_case()
    }

    /// The name of the column's binding structure.
    pub fn as_var_struct_name(&self) -> (r: String)
        ensures
            r@ == var_struct_name_spec(self.0@),
    {
        let mut name = self.as_camel_case();
        name.append("Var");
        name
    }
}

} // verus!
