//! Rows that are written in batches of bounded size.

use vstd::prelude::*;

use crate::lists::reversed;

verus! {

/// Rows that wait to be written, and how many came in all.
#[derive(Debug)]
pub struct BatchBuffer<R> {
    buffer: Vec<R>,
    row_count: usize,
    batch_size: usize,
}

/// Why a buffer cannot be made.
#[derive(Clone, Copy, Debug, PartialEq, Eq, Structural)]
pub struct ZeroBatchSize;

impl<R> BatchBuffer<R> {
    #[verifier::type_invariant]
    spec fn well_formed(self) -> bool {
        self.buffer@.len() < self.batch_size
    }

    /// The rows that wait.
    pub closed spec fn waiting(self) -> Seq<R> {
        self.buffer@
    }

    /// The number of rows that came.
    pub closed spec fn count(self) -> usize {
        self.row_count
    }

    /// The number of rows of a batch.
    pub closed spec fn size(self) -> usize {
        self.batch_size
    }

    /// An empty buffer; a batch must hold a row.
    pub fn create(batch_size: usize) -> (r: Result<BatchBuffer<R>, ZeroBatchSize>)
        ensures
            r is Ok <==> batch_size > 0,
            r is Ok ==> r->Ok_0.waiting() == Seq::<R>::empty() && r->Ok_0.count() == 0
                && r->Ok_0.size() == batch_size,
    {
        if batch_size == 0 {
            return Err(ZeroBatchSize);
        }
        Ok(BatchBuffer { buffer: Vec::new(), row_count: 0, batch_size })
    }

    /// Adds a row; hands out the batch that it completes.
    pub fn write(&mut self, row: R) -> (batch: Option<Vec<R>>)
        ensures
            final(self).size() == old(self).size(),
            final(self).count() == if old(self).count() == usize::MAX {
                usize::MAX
            } else {
                (old(self).count() + 1) as usize
            },
            old(self).waiting().len() < old(self).size(),
            if old(self).waiting().len() + 1 >= old(self).size() {
                &&& batch is Some
                &&& batch->Some_0@ == old(self).waiting().push(row)
                &&& final(self).waiting() == Seq::<R>::empty()
            } else {
                &&& batch is None
                &&& final(self).waiting() == old(self).waiting().push(row)
            },
    {
        proof {
            use_type_invariant(&*self);
        }
        let mut rows: Vec<R> = Vec::new();
        std::mem::swap(&mut rows, &mut self.buffer);
        rows.push(row);
        self.row_count = self.row_count.saturating_add(1);
        if rows.len() >= self.batch_size {
            return Some(rows);
        }
        self.buffer = rows;
        None
    }

    /// Ends the writing: hands out what still waits, and the number of rows that came.
    pub fn close(self) -> (r: (Option<Vec<R>>, usize))
        ensures
            r.1 == self.count(),
            self.waiting().len() < self.size(),
            if self.waiting().len() == 0 {
                r.0 is None
            } else {
                r.0 is Some && r.0->Some_0@ == self.waiting()
            },
    {
        proof {
            use_type_invariant(&self);
        }
        if self.buffer.len() == 0 {
            return (None, self.row_count);
        }
        (Some(self.buffer), self.row_count)
    }
}

/// The batches that `rows` complete behind the rows that wait already, and what waits then.
pub open spec fn batches_from<R>(waiting: Seq<R>, rows: Seq<R>, size: nat) -> (Seq<Seq<R>>, Seq<R>)
    decreases rows.len(),
{
    if rows.len() == 0 {
        (Seq::empty(), waiting)
    } else {
        let (done, before) = batches_from(waiting, rows.drop_last(), size);
        let more = before.push(rows.last());
        if more.len() >= size {
            (done.push(more), Seq::empty())
        } else {
            (done, more)
        }
    }
}

/// The rows of a list of batches, one batch behind the other.
pub open spec fn joined<R>(list: Seq<Seq<R>>) -> Seq<R>
    decreases list.len(),
{
    if list.len() == 0 {
        Seq::empty()
    } else {
        joined(list.drop_last()) + list.last()
    }
}

/// No row is lost, doubled or moved: the batches and what waits behind them are the rows in their
/// order, behind those that waited already. Every batch has the full size, and what waits is less
/// than a batch.
pub proof fn batches_hold_all_rows<R>(waiting: Seq<R>, rows: Seq<R>, size: nat)
    requires
        waiting.len() < size,
    ensures
        joined(batches_from(waiting, rows, size).0) + batches_from(waiting, rows, size).1 == waiting
            + rows,
        batches_from(waiting, rows, size).1.len() < size,
        forall|i: int|
            0 <= i < batches_from(waiting, rows, size).0.len() ==> (#[trigger] batches_from(
                waiting,
                rows,
                size,
            ).0[i]).len() == size,
    decreases rows.len(),
{
    if rows.len() > 0 {
        batches_hold_all_rows(waiting, rows.drop_last(), size);
        let (done, before) = batches_from(waiting, rows.drop_last(), size);
        let more = before.push(rows.last());
        if more.len() >= size {
            assert(done.push(more).drop_last() =~= done);
            assert(joined(done.push(more)) == joined(done) + more);
        }
        assert(joined(batches_from(waiting, rows, size).0) + batches_from(waiting, rows, size).1
            =~= (joined(done) + before).push(rows.last()));
        assert(waiting + rows =~= (waiting + rows.drop_last()).push(rows.last()));
    } else {
        assert(joined(batches_from(waiting, rows, size).0) + batches_from(waiting, rows, size).1
            =~= waiting + rows);
    }
}

/// What is written first is written first: the batches of two lists of rows, one behind the
/// other, are those of the first list and then those of the second.
pub proof fn batches_follow_each_other<R>(waiting: Seq<R>, first: Seq<R>, second: Seq<R>, size: nat)
    ensures
        ({
            let (done, between) = batches_from(waiting, first, size);
            let (more, rest) = batches_from(between, second, size);
            batches_from(waiting, first + second, size) == (done + more, rest)
        }),
    decreases second.len(),
{
    let (done, between) = batches_from(waiting, first, size);
    if second.len() == 0 {
        assert(first + second =~= first);
        assert(done + batches_from(between, second, size).0 =~= done);
    } else {
        batches_follow_each_other(waiting, first, second.drop_last(), size);
        assert((first + second).drop_last() =~= first + second.drop_last());
        assert((first + second).last() == second.last());
        let (more, before) = batches_from(between, second.drop_last(), size);
        let last = before.push(second.last());
        assert((done + more).push(last) =~= done + more.push(last));
    }
}

/// The rows of each batch of a list.
pub open spec fn batch_rows<R>(list: Seq<Vec<R>>) -> Seq<Seq<R>> {
    list.map_values(|b: Vec<R>| b@)
}

/// A number of rows more, up to the largest count.
pub open spec fn counted(count: usize, rows: nat) -> usize {
    if count + rows <= usize::MAX {
        (count + rows) as usize
    } else {
        usize::MAX
    }
}

/// The buffer took the rows and handed out the batches that they completed.
pub open spec fn buffered<R>(
    before: BatchBuffer<R>,
    after: BatchBuffer<R>,
    rows: Seq<R>,
    done: Seq<Vec<R>>,
) -> bool {
    &&& after.size() == before.size()
    &&& after.count() == counted(before.count(), rows.len())
    &&& (batch_rows(done), after.waiting()) == batches_from(
        before.waiting(),
        rows,
        before.size() as nat,
    )
}

/// Adds rows one after the other; hands out the batches that they complete.
pub fn buffer_rows<R>(writer: &mut BatchBuffer<R>, rows: Vec<R>) -> (done: Vec<Vec<R>>)
    ensures
        buffered(*old(writer), *final(writer), rows@, done@),
{
    let ghost all = rows@;
    let ghost start = *writer;
    let mut rest = reversed(rows);
    let mut done: Vec<Vec<R>> = Vec::new();
    let ghost mut n: int = 0;
    assert(batch_rows(done@) =~= Seq::empty());
    assert(all.take(0) =~= Seq::empty());
    while rest.len() > 0
        invariant
            0 <= n <= all.len(),
            rest@.len() == all.len() - n,
            forall|i: int| 0 <= i < rest@.len() ==> #[trigger] rest@[i] == all[all.len() - 1 - i],
            start == *old(writer),
            buffered(start, *writer, all.take(n), done@),
        decreases rest@.len(),
    {
        let row = rest.pop().unwrap();
        let ghost before = *writer;
        let ghost written = done@;
        assert(row == all[n]);
        assert(all.take(n + 1).drop_last() =~= all.take(n));
        assert(all.take(n + 1).last() == row);
        if let Some(batch) = writer.write(row) {
            done.push(batch);
            assert(batch_rows(done@) =~= batch_rows(written).push(batch@));
        }
        proof {
            n = n + 1;
        }
    }
    assert(all.take(n) =~= all);
    done
}

} // verus!
