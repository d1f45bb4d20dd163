//! Writing rows in batches: no row is lost, doubled or moved.

use vstd::prelude::*;

use crate::batch;
use crate::batch::BatchBuffer;
use crate::batch::ZeroBatchSize;
use crate::batch::buffer_rows;
use crate::lists::reversed;
use crate::table;
use crate::table::Cell;
use crate::table::TableRow;
use crate::table::columns_of;

verus! {

/// The batches of a writer, one behind the other, and what waits behind them, are the rows that
/// waited and the rows that came, in their order; a batch is full, and what waits is less than one.
pub proof fn batches_are_the_rows_in_order<R>(
    writer: &mut BatchBuffer<R>,
    rows: Vec<R>,
    done: Vec<Vec<R>>,
)
    requires
        call_ensures(buffer_rows::<R>, (writer, rows), done),
        old(writer).waiting().len() < old(writer).size(),
    ensures
        batch::joined(done@.map_values(|b: Vec<R>| b@)) + final(writer).waiting() == old(
            writer,
        ).waiting() + rows@,
        forall|i: int|
            0 <= i < done@.len() ==> (#[trigger] done@[i])@.len() == old(writer).size(),
        final(writer).waiting().len() < final(writer).size(),
        final(writer).size() == old(writer).size(),
        old(writer).count() + rows@.len() <= usize::MAX ==> final(writer).count() == old(
            writer,
        ).count() + rows@.len(),
{
    batch::batches_hold_all_rows(old(writer).waiting(), rows@, old(writer).size() as nat);
    let all = batch::batch_rows(done@);
    assert(all =~= done@.map_values(|b: Vec<R>| b@));
    assert forall|i: int| 0 <= i < done@.len() implies (#[trigger] done@[i])@.len() == old(
        writer,
    ).size() by {
        assert(all[i] == done@[i]@);
    }
}

/// A row that is written is the last of its batch, or waits as the last; the rows before it keep
/// their places.
pub proof fn written_rows_come_last<R>(
    writer: &mut BatchBuffer<R>,
    row: R,
    full: Option<Vec<R>>,
)
    requires
        call_ensures(BatchBuffer::<R>::write, (writer, row), full),
    ensures
        full is Some ==> full->Some_0@ == old(writer).waiting().push(row) && full->Some_0@.len()
            == old(writer).size() && final(writer).waiting().len() == 0,
        full is None ==> final(writer).waiting() == old(writer).waiting().push(row),
        old(writer).count() < usize::MAX ==> final(writer).count() == old(writer).count() + 1,
{
}

/// At the end everything that waits is handed out, and the count is that of all rows.
pub proof fn nothing_waits_at_the_end<R>(
    writer: BatchBuffer<R>,
    r: (Option<Vec<R>>, usize),
)
    requires
        call_ensures(BatchBuffer::<R>::close, (writer,), r),
    ensures
        r.0 is Some ==> r.0->Some_0@ == writer.waiting() && writer.waiting().len() > 0,
        r.0 is None ==> writer.waiting().len() == 0,
        r.1 == writer.count(),
{
}

/// A writer begins with nothing; a batch of no row is refused, and no other size is.
pub proof fn writers_begin_empty<R>(
    batch_size: usize,
    r: Result<BatchBuffer<R>, ZeroBatchSize>,
)
    requires
        call_ensures(BatchBuffer::<R>::create, (batch_size,), r),
    ensures
        r is Err <==> batch_size == 0,
        r is Ok ==> r->Ok_0.waiting().len() == 0 && r->Ok_0.count() == 0 && r->Ok_0.size()
            == batch_size,
{
}

/// A table of rows has in each line the cells of one row, in the order of the rows, each cell in the
/// column at its own position.
pub proof fn tables_hold_their_rows<R: TableRow>(
    rows: &Vec<R>,
    columns: Vec<Vec<Cell>>,
    cells: Vec<Cell>,
    r: int,
    c: int,
)
    requires
        call_ensures(columns_of::<R>, (rows,), columns),
        0 <= r < rows@.len(),
        0 <= c < R::schema().len(),
        table::cell_views(cells@) == rows@[r].cells(),
    ensures
        columns@.len() == R::schema().len(),
        columns@[c]@.len() == rows@.len(),
        cells@.len() == columns@.len(),
        columns@[c]@[r]@ == cells@[c]@,
{
    rows@[r].cells_fit_schema();
    assert(table::cell_views(cells@)[c] == cells@[c]@);
}

/// A reversed list has the same items, the last one first; reversed again it is the list.
pub proof fn reversed_twice_is_the_list<T>(list: Vec<T>, once: Vec<T>, twice: Vec<T>)
    requires
        call_ensures(reversed::<T>, (list,), once),
        call_ensures(reversed::<T>, (once,), twice),
    ensures
        twice@ == list@,
        list@.len() > 0 ==> once@[0] == list@.last(),
{
    assert(twice@ =~= list@);
}

} // verus!
