//! Tables: rows of cells under a schema.

use vstd::prelude::*;

verus! {

/// The type of a column.
#[derive(Clone, Copy, Debug, PartialEq, Eq, Structural)]
pub enum ColumnKind {
    Utf8,
    Int64,
    Boolean,
}

/// Name and type of a column, and whether its cells may be empty.
#[derive(Clone, Copy, Debug)]
pub struct ColumnField {
    pub name: &'static str,
    pub kind: ColumnKind,
    pub nullable: bool,
}

/// What a column is.
pub ghost struct FieldView {
    pub name: Seq<char>,
    pub kind: ColumnKind,
    pub nullable: bool,
}

impl View for ColumnField {
    type V = FieldView;

    open spec fn view(&self) -> FieldView {
        FieldView { name: self.name@, kind: self.kind, nullable: self.nullable }
    }
}

/// What the columns of a list are.
pub open spec fn field_views(fields: Seq<ColumnField>) -> Seq<FieldView> {
    fields.map_values(|f: ColumnField| f@)
}

/// A column of texts that are always there.
pub open spec fn text_column(name: Seq<char>) -> FieldView {
    FieldView { name, kind: ColumnKind::Utf8, nullable: false }
}

/// A column of texts that may be missing.
pub open spec fn opt_text_column(name: Seq<char>) -> FieldView {
    FieldView { name, kind: ColumnKind::Utf8, nullable: true }
}

/// A column of integers that are always there.
pub open spec fn int_column(name: Seq<char>) -> FieldView {
    FieldView { name, kind: ColumnKind::Int64, nullable: false }
}

/// A column of integers that may be missing.
pub open spec fn opt_int_column(name: Seq<char>) -> FieldView {
    FieldView { name, kind: ColumnKind::Int64, nullable: true }
}

/// A column of truth values that are always there.
pub open spec fn bool_column(name: Seq<char>) -> FieldView {
    FieldView { name, kind: ColumnKind::Boolean, nullable: false }
}

/// A column of truth values that may be missing.
pub open spec fn opt_bool_column(name: Seq<char>) -> FieldView {
    FieldView { name, kind: ColumnKind::Boolean, nullable: true }
}

/// A column of texts that are always there.
pub fn text_field(name: &'static str) -> (field: ColumnField)
    ensures
        field@ == text_column(name@),
{
    ColumnField { name, kind: ColumnKind::Utf8, nullable: false }
}

/// A column of texts that may be missing.
pub fn opt_text_field(name: &'static str) -> (field: ColumnField)
    ensures
        field@ == opt_text_column(name@),
{
    ColumnField { name, kind: ColumnKind::Utf8, nullable: true }
}

/// A column of integers that are always there.
pub fn int_field(name: &'static str) -> (field: ColumnField)
    ensures
        field@ == int_column(name@),
{
    ColumnField { name, kind: ColumnKind::Int64, nullable: false }
}

/// A column of integers that may be missing.
pub fn opt_int_field(name: &'static str) -> (field: ColumnField)
    ensures
        field@ == opt_int_column(name@),
{
    ColumnField { name, kind: ColumnKind::Int64, nullable: true }
}

/// A column of truth values that are always there.
pub fn bool_field(name: &'static str) -> (field: ColumnField)
    ensures
        field@ == bool_column(name@),
{
    ColumnField { name, kind: ColumnKind::Boolean, nullable: false }
}

/// A column of truth values that may be missing.
pub fn opt_bool_field(name: &'static str) -> (field: ColumnField)
    ensures
        field@ == opt_bool_column(name@),
{
    ColumnField { name, kind: ColumnKind::Boolean, nullable: true }
}

/// A cell.
#[derive(Clone, Debug, PartialEq, Eq)]
pub enum Cell {
    Null,
    Text(String),
    Int(i64),
    Bool(bool),
}

/// What a cell holds.
pub ghost enum CellView {
    Null,
    Text(Seq<char>),
    Int(i64),
    Bool(bool),
}

impl View for Cell {
    type V = CellView;

    open spec fn view(&self) -> CellView {
        match *self {
            Cell::Null => CellView::Null,
            Cell::Text(contents) => CellView::Text(contents@),
            Cell::Int(n) => CellView::Int(n),
            Cell::Bool(b) => CellView::Bool(b),
        }
    }
}

/// What the cells of a list hold.
pub open spec fn cell_views(cells: Seq<Cell>) -> Seq<CellView> {
    cells.map_values(|c: Cell| c@)
}

/// The cell of an optional text.
pub open spec fn opt_text_view(contents: Option<String>) -> CellView {
    match contents {
        Some(s) => CellView::Text(s@),
        None => CellView::Null,
    }
}

/// The cell of an optional integer.
pub open spec fn opt_int_view(n: Option<i64>) -> CellView {
    match n {
        Some(value) => CellView::Int(value),
        None => CellView::Null,
    }
}

/// The cell of an optional truth value.
pub open spec fn opt_bool_view(b: Option<bool>) -> CellView {
    match b {
        Some(value) => CellView::Bool(value),
        None => CellView::Null,
    }
}

/// The cell of a text.
pub fn text_cell(contents: &str) -> (cell: Cell)
    ensures
        cell@ == CellView::Text(contents@),
{
    Cell::Text(contents.to_owned())
}

/// The cell of an optional text.
pub fn opt_text_cell(contents: &Option<String>) -> (cell: Cell)
    ensures
        cell@ == opt_text_view(*contents),
{
    match contents {
        Some(s) => Cell::Text(s.clone()),
        None => Cell::Null,
    }
}

/// The cell of an optional integer.
pub fn opt_int_cell(n: Option<i64>) -> (cell: Cell)
    ensures
        cell@ == opt_int_view(n),
{
    match n {
        Some(value) => Cell::Int(value),
        None => Cell::Null,
    }
}

/// The cell of an optional truth value.
pub fn opt_bool_cell(b: Option<bool>) -> (cell: Cell)
    ensures
        cell@ == opt_bool_view(b),
{
    match b {
        Some(value) => Cell::Bool(value),
        None => Cell::Null,
    }
}

/// The cell has the type of the column, and is empty only where that is allowed.
pub open spec fn cell_fits(cell: CellView, field: FieldView) -> bool {
    match cell {
        CellView::Null => field.nullable,
        CellView::Text(_) => field.kind == ColumnKind::Utf8,
        CellView::Int(_) => field.kind == ColumnKind::Int64,
        CellView::Bool(_) => field.kind == ColumnKind::Boolean,
    }
}

/// There is a cell for each column, and each fits.
pub open spec fn row_fits(cells: Seq<CellView>, schema: Seq<FieldView>) -> bool {
    &&& cells.len() == schema.len()
    &&& forall|c: int| 0 <= c < schema.len() ==> cell_fits(#[trigger] cells[c], schema[c])
}

/// The items of a list whose positions fit an integer cell.
pub open spec fn numbered<T>(list: Seq<T>) -> Seq<T> {
    if list.len() <= i64::MAX + 1 {
        list
    } else {
        list.take(i64::MAX + 1)
    }
}

/// Whether a position fits an integer cell.
pub fn fits_cell(index: usize) -> (yes: bool)
    ensures
        yes == (index <= i64::MAX),
{
    index as u64 <= 0x7fff_ffff_ffff_ffff
}

/// Rows of a table with a schema of its own.
pub trait TableRow: Sized {
    /// The columns of the table.
    spec fn schema() -> Seq<FieldView>;

    /// The cells of the row.
    spec fn cells(self) -> Seq<CellView>;

    /// The cells fit the columns.
    proof fn cells_fit_schema(self)
        ensures
            row_fits(self.cells(), Self::schema()),
    ;

    /// The columns of the table.
    fn fields() -> (fields: Vec<ColumnField>)
        ensures
            field_views(fields@) == Self::schema(),
    ;

    /// The cells of the row.
    fn row_cells(&self) -> (cells: Vec<Cell>)
        ensures
            cell_views(cells@) == self.cells(),
    ;
}

/// The columns hold the cells of the rows: column `c` has in line `r` the cell `c` of row `r`.
pub open spec fn holds_rows<R: TableRow>(columns: Seq<Vec<Cell>>, rows: Seq<R>) -> bool {
    &&& columns.len() == R::schema().len()
    &&& forall|c: int| 0 <= c < columns.len() ==> (#[trigger] columns[c])@.len() == rows.len()
    &&& forall|c: int, r: int|
        0 <= c < columns.len() && 0 <= r < rows.len() ==> (#[trigger] columns[c]@[r])@
            == rows[r].cells()[c]
}

/// The columns of a list of rows.
pub fn columns_of<R: TableRow>(rows: &Vec<R>) -> (columns: Vec<Vec<Cell>>)
    ensures
        holds_rows(columns@, rows@),
{
    let width: usize = R::fields().len();
    let mut columns: Vec<Vec<Cell>> = Vec::new();
    let mut c: usize = 0;
    while c < width
        invariant
            c <= width,
            columns@.len() == c,
            forall|k: int| 0 <= k < c ==> (#[trigger] columns@[k])@.len() == 0,
        decreases width - c,
    {
        columns.push(Vec::new());
        c = c + 1;
    }
    let mut r: usize = 0;
    while r < rows.len()
        invariant
            r <= rows@.len(),
            width == R::schema().len(),
            columns@.len() == width,
            forall|k: int| 0 <= k < width ==> (#[trigger] columns@[k])@.len() == r,
            forall|k: int, j: int|
                0 <= k < width && 0 <= j < r ==> (#[trigger] columns@[k]@[j])@
                    == rows@[j].cells()[k],
        decreases rows@.len() - r,
    {
        let mut cells = rows[r].row_cells();
        let ghost views = rows@[r as int].cells();
        proof {
            rows@[r as int].cells_fit_schema();
        }
        let ghost before = columns@;
        let ghost all = cells@;
        let mut k: usize = width;
        while k > 0
            invariant
                k <= width,
                width == columns@.len(),
                before.len() == width,
                r < rows@.len(),
                cells@.len() == k,
                all.len() == width,
                cells@ == all.take(k as int),
                cell_views(all) == rows@[r as int].cells(),
                forall|m: int| 0 <= m < k ==> #[trigger] columns@[m] == before[m],
                forall|m: int|
                    k <= m < width ==> (#[trigger] columns@[m])@ == before[m]@.push(all[m]),
            decreases k,
        {
            k = k - 1;
            let cell = cells.pop().unwrap();
            let ghost was = columns@;
            assert(cell == all[k as int]);
            columns[k].push(cell);
            assert(columns@ =~= was.update(k as int, columns@[k as int]));
        }
        assert forall|m: int, j: int| 0 <= m < width && 0 <= j < r + 1 implies (
        #[trigger] columns@[m]@[j])@ == rows@[j].cells()[m] by {
            assert(columns@[m]@ == before[m]@.push(all[m]));
            if j < r {
                assert(before[m]@[j]@ == rows@[j].cells()[m]);
            } else {
                assert(cell_views(all)[m] == all[m]@);
            }
        }
        r = r + 1;
    }
    columns
}

/// The columns of rows always form a table of the schema: each column has as many cells as there
/// are rows, of the column's type, and none is missing where it is required.
pub proof fn columns_fit_schema<R: TableRow>(columns: Seq<Vec<Cell>>, rows: Seq<R>)
    requires
        holds_rows(columns, rows),
    ensures
        columns.len() == R::schema().len(),
        forall|c: int, r: int|
            0 <= c < columns.len() && 0 <= r < rows.len() ==> cell_fits(
                (#[trigger] columns[c]@[r])@,
                R::schema()[c],
            ),
{
    assert forall|c: int, r: int| 0 <= c < columns.len() && 0 <= r < rows.len() implies cell_fits(
        (#[trigger] columns[c]@[r])@,
        R::schema()[c],
    ) by {
        rows[r].cells_fit_schema();
    }
}

} // verus!
