//! The statements that a run sends, built from a table's name and the values
//! of a row.

use vstd::prelude::*;
use vstd::string::StringExecFns;
use crate::text::{decimal_of, push_decimal};

verus! {

/// The statement that inserts a row holding `id` alone into `table`.
pub open spec fn insert_id_statement(table: Seq<char>, id: int) -> Seq<char> {
    "INSERT INTO "@ + table + " VALUES ("@ + decimal_of(id) + ")"@
}

/// The statement that inserts a row holding `id` and `text` into `table`.
/// The text stands between single quotes as it is.
pub open spec fn insert_text_statement(table: Seq<char>, id: int, text: Seq<char>) -> Seq<char> {
    "INSERT INTO "@ + table + " VALUES ("@ + decimal_of(id) + ", '"@ + text + "')"@
}

/// Builds the statement that inserts a row holding `id` alone into `table`.
pub fn insert_id(table: &str, id: i64) -> (statement: String)
    ensures
        statement@ == insert_id_statement(table@, id as int),
{
    let mut statement = String::from_str("INSERT INTO ");
    statement.append(table);
    statement.append(" VALUES (");
    push_decimal(&mut statement, id);
    statement.append(")");
    statement
}

/// Builds the statement that inserts a row holding `id` and `text` into
/// `table`. The text is put between single quotes as it is.
pub fn insert_text(table: &str, id: i64, text: &str) -> (statement: String)
    ensures
        statement@ == insert_text_statement(table@, id as int, text@),
{
    let mut statement = String::from_str("INSERT INTO ");
    statement.append(table);
    statement.append(" VALUES (");
    push_decimal(&mut statement, id);
    statement.append(", '");
    statement.append(text);
    statement.append("')");
    statement
}

} // verus!
