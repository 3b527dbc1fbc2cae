//! Typed JSON Logic filters for relational queries.
//!
//! A table shape is declared once: the name of its query structure and its
//! queryable columns, each with the name under which it is queried, the
//! column of the table that stands behind it, and the type of its values.
//! [`define_json_logic`] reads such a declaration and makes what it defines:
//! a guard and a binding structure for each column, the query structure, and
//! the unpacking macro.
//!
//! A condition arrives as a JSON Logic value, `{"<": [{"var": "best"}, 1]}`.
//! The query structure decodes one optional condition for each column, and a
//! condition only decodes against the column that it names.
//! [`unpack_json_logic_query`] folds the decoded conditions, in the order in
//! which the columns are declared, into the filters of a statement.

pub mod case;
pub mod column;
pub mod decode;
pub mod define;
pub mod error;
pub mod expr;
pub mod laws;
pub mod names;
pub mod numeral;
pub mod parse;
pub mod query;
pub mod unpack;
pub mod value;

pub use crate::define::define_json_logic;
pub use crate::expr::JsonLogicExpr;
pub use crate::unpack::unpack_json_logic_query;
