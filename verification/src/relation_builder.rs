//! The declaration of the row type of a circuit.

use vstd::prelude::*;
use vstd::string::*;
use crate::utils::{map_with_newline, mapped_lines, views};

verus! {

/// The declaration of one field of a row.
pub open spec fn row_field_text(column: Seq<char>) -> Seq<char> {
    "    FF "@ + column + "{};"@
}

/// Renders the declaration of one field of a row.
pub fn row_field(column: &str) -> (r: String)
    ensures
        r@ == row_field_text(column@),
{
    let mut out = String::from_str("    FF ");
    out.append(column);
    out.append("{};");
    out
}

/// Closes the fields of a row type and declares the list of their names.
pub const ROW_TYPE_TAIL: &'static str = "

    [[maybe_unused]] static std::vector<std::string> names();
}";

/// The row type `name`: a record with one field for each column, in the order
/// of `columns`, and the declaration of the list of the columns' names.
pub open spec fn row_type_text(name: Seq<char>, columns: Seq<Seq<char>>) -> Seq<char> {
    "template <typename FF> struct "@ + name + "Row {\n"@ + mapped_lines(
        columns,
        |column: Seq<char>| row_field_text(column),
    ) + ROW_TYPE_TAIL@
}

/// Renders the declaration of the row type `name` with the fields `all_rows`.
pub fn create_row_type(name: &str, all_rows: &[String]) -> (r: String)
    ensures
        r@ == row_type_text(name@, views(all_rows@)),
{
    let row_transformation = |column: &String| -> (text: String)
        ensures
            text@ == row_field_text(column@),
        { row_field(column.as_str()) };
    let all_annotated = map_with_newline(
        all_rows,
        row_transformation,
        Ghost(|column: Seq<char>| row_field_text(column)),
    );
    let mut out = String::from_str("template <typename FF> struct ");
    out.append(name);
    out.append("Row {\n");
    out.append(all_annotated.as_str());
    out.append(ROW_TYPE_TAIL);
    out
}

} // verus!
