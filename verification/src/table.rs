//! Rows of text laid out as a table, by the crate `tabular`.
//!
//! The layout itself is `tabular`'s work and is not verified here. What this
//! file states of it, it takes on trust from that crate's source; what it
//! proves is that every row reaches the table, in order, and that no call is
//! made that `tabular` would refuse.

use vstd::prelude::*;

verus! {

/// `tabular::Table`: a table that is being filled.
#[verifier::external_type_specification]
#[verifier::external_body]
pub struct ExTable(tabular::Table);

/// The number of columns that `tabular` reads from a layout, or nothing
/// where it refuses the layout.
pub uninterp spec fn layout_columns(layout: Seq<char>) -> Option<nat>;

/// The layout that a table was made with.
pub uninterp spec fn table_layout(table: tabular::Table) -> Seq<char>;

/// The rows of a table, in the order in which they were added, each by the
/// texts of its cells.
pub uninterp spec fn table_rows(table: tabular::Table) -> Seq<Seq<Seq<char>>>;

/// The text that `tabular` writes for a table of the given layout and rows.
pub uninterp spec fn table_text(layout: Seq<char>, rows: Seq<Seq<Seq<char>>>) -> Seq<char>;

/// `tabular::Table::new_safe`: makes an empty table of the given layout, or
/// nothing where it refuses the layout. It is trusted that the outcome
/// depends on the layout alone, and that the new table has no rows.
#[verifier::external_body]
fn new_table(layout: &str) -> (made: Option<tabular::Table>)
    ensures
        match made {
            Some(table) => layout_columns(layout@) is Some && table_layout(table) == layout@
                && table_rows(table) == Seq::<Seq<Seq<char>>>::empty(),
            None => layout_columns(layout@) is None,
        },
{
    tabular::Table::new_safe(layout).ok()
}

/// `tabular::Table::column_count`: the number of columns of a table, which
/// is trusted to be the one read from its layout.
#[verifier::external_body]
fn column_count(table: &tabular::Table) -> (count: usize)
    ensures
        layout_columns(table_layout(*table)) == Some(count as nat),
{
    table.column_count()
}

/// `tabular::Table::add_row`, with a row made by `tabular::Row::from_cells`:
/// adds a row of the given cells at the end of a table. `tabular` panics
/// where the row has not as many cells as the table has columns, so this is
/// asked of the caller. It is trusted that the layout stays and that the
/// rows are those before and the new one.
#[verifier::external_body]
fn add_row(table: &mut tabular::Table, cells: &Vec<String>)
    requires
        layout_columns(table_layout(*old(table))) == Some(cells.len() as nat),
    ensures
        table_layout(*final(table)) == table_layout(*old(table)),
        table_rows(*final(table)) == table_rows(*old(table)).push(cells.deep_view()),
{
    table.add_row(tabular::Row::from_cells(cells.iter().cloned()));
}

/// `tabular::Table`'s `Display`, through `to_string`: the text of a table,
/// which is trusted to depend on its layout and its rows alone.
#[verifier::external_body]
fn table_to_string(table: &tabular::Table) -> (text: String)
    ensures
        text@ == table_text(table_layout(*table), table_rows(*table)),
{
    table.to_string()
}

/// The layout of the table of images: four columns, each aligned to the
/// left, two spaces apart.
pub open spec fn spec_image_layout() -> Seq<char> {
    "{:<}  {:<}  {:<}  {:<}"@
}

/// The layout of the table of images.
pub fn image_layout() -> (layout: &'static str)
    ensures
        layout@ == spec_image_layout(),
{
    "{:<}  {:<}  {:<}  {:<}"
}

/// Whether every one of `rows` has `count` cells.
pub open spec fn all_of_width(rows: Seq<Seq<Seq<char>>>, count: nat) -> bool {
    forall|i: int| 0 <= i < rows.len() ==> (#[trigger] rows[i]).len() == count
}

/// Lays `rows` out as a table of the layout `layout`.
///
/// There is a table exactly where `tabular` takes the layout and every row
/// has as many cells as the layout has columns. Its text is then the one
/// that `tabular` writes for that layout and these rows.
pub fn tabulate(layout: &str, rows: &Vec<Vec<String>>) -> (text: Option<String>)
    ensures
        text is Some <==> layout_columns(layout@) is Some && all_of_width(
            rows.deep_view(),
            layout_columns(layout@)->0,
        ),
        text matches Some(written) ==> written@ == table_text(layout@, rows.deep_view()),
{
    let mut table = match new_table(layout) {
        Some(table) => table,
        None => {
            return None;
        },
    };
    let columns = column_count(&table);
    let mut i: usize = 0;
    while i < rows.len()
        invariant
            i <= rows.len(),
            table_layout(table) == layout@,
            layout_columns(layout@) == Some(columns as nat),
            table_rows(table) == rows.deep_view().take(i as int),
            all_of_width(rows.deep_view().take(i as int), columns as nat),
        decreases rows.len() - i,
    {
        if rows[i].len() != columns {
            assert(rows.deep_view()[i as int].len() != columns);
            return None;
        }
        add_row(&mut table, &rows[i]);
        i += 1;
    }
    assert(rows.deep_view().take(i as int) =~= rows.deep_view());
    Some(table_to_string(&table))
}

} // verus!
