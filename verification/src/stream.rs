//! The columnar payload the operator hands back: opaque record batches and
//! the finite, single-pass sequence that delivers one partition's content.

use crate::schema::Schema;
use vstd::prelude::*;

verus! {

/// One immutable, column-oriented chunk of rows, produced remotely and never
/// read here. The operator only carries batches through, so a batch is
/// modelled by the two quantities the surrounding plan observes: how many
/// rows it holds and how many columns it was built with.
#[derive(Clone, Copy, Debug, PartialEq, Eq, Structural)]
pub struct RecordBatch {
    pub num_rows: usize,
    pub num_columns: usize,
}

impl RecordBatch {
    /// A batch conforms to a schema when it carries one array per column.
    pub open spec fn conforms_to(self, schema: Schema) -> bool {
        self.num_columns == schema.fields@.len()
    }
}

/// One partition's full content as a finite, ordered, single-pass sequence:
/// `next` yields the batches in order, each exactly once, and then reports
/// exhaustion forever. An optional row limit stops the sequence early, after
/// the first batch that brings the yielded row count up to the limit.
#[derive(Clone, Debug)]
pub struct BatchSequence {
    pub batches: Vec<RecordBatch>,
    pub schema: Schema,
    pub row_limit: Option<usize>,
    pub cursor: usize,
    pub rows_yielded: usize,
}

impl BatchSequence {
    /// The cursor never runs past the end of the batches.
    pub open spec fn well_formed(self) -> bool {
        self.cursor <= self.batches@.len()
    }

    /// True while the row limit, if any, has not been reached.
    pub open spec fn under_limit(self) -> bool {
        match self.row_limit {
            Option::None => true,
            Option::Some(limit) => self.rows_yielded < limit,
        }
    }

    /// True while a further batch is owed: some batch has not been yielded
    /// and the row limit, if any, has not been reached.
    pub open spec fn can_yield(self) -> bool {
        self.cursor < self.batches@.len() && self.under_limit()
    }

    /// Wraps a finite batch collection, the schema its rows conform to, and
    /// an optional row limit into a fresh, unconsumed sequence. Never fails
    /// and performs no I/O.
    pub fn make_sequence(
        batches: Vec<RecordBatch>,
        schema: Schema,
        row_limit: Option<usize>,
    ) -> (r: BatchSequence)
        ensures
            r.batches@ == batches@,
            r.schema.fields@ == schema.fields@,
            r.row_limit == row_limit,
            r.cursor == 0,
            r.rows_yielded == 0,
            r.well_formed(),
    {
        BatchSequence { batches, schema, row_limit, cursor: 0, rows_yielded: 0 }
    }

    /// Pulls the next batch. While the sequence can yield, it returns the
    /// batch at the cursor and advances, accumulating the yielded row count;
    /// once the batches are spent or the row limit is reached, it returns
    /// nothing and leaves the sequence unchanged, so exhaustion is permanent.
    pub fn next(&mut self) -> (r: Option<RecordBatch>)
        ensures
            final(self).batches@ == old(self).batches@,
            final(self).schema == old(self).schema,
            final(self).row_limit == old(self).row_limit,
            old(self).can_yield() ==> {
                &&& r == Some(old(self).batches@[old(self).cursor as int])
                &&& final(self).cursor == old(self).cursor + 1
                &&& final(self).rows_yielded == old(self).rows_yielded.saturating_add(
                    old(self).batches@[old(self).cursor as int].num_rows,
                )
            },
            !old(self).can_yield() ==> r is None && *final(self) == *old(self),
            old(self).well_formed() ==> final(self).well_formed(),
    {
        if self.cursor < self.batches.len() {
            let under = match self.row_limit {
                Option::None => true,
                Option::Some(limit) => self.rows_yielded < limit,
            };
            if under {
                let batch = self.batches[self.cursor];
                self.cursor = self.cursor + 1;
                self.rows_yielded = self.rows_yielded.saturating_add(batch.num_rows);
                return Some(batch);
            }
            None
        } else {
            None
        }
    }

    /// Pulls until the sequence is exhausted and returns everything it
    /// yielded, in order. A sequence with no row limit delivers every batch
    /// from its cursor to the end; in particular one fresh from
    /// `make_sequence` delivers exactly its whole batch collection — and
    /// afterwards the sequence yields nothing, forever.
    pub fn drain(&mut self) -> (r: Vec<RecordBatch>)
        ensures
            final(self).batches@ == old(self).batches@,
            final(self).schema == old(self).schema,
            final(self).row_limit == old(self).row_limit,
            !final(self).can_yield(),
            old(self).cursor <= final(self).cursor,
            (old(self).row_limit is None && old(self).cursor <= old(self).batches@.len()) ==> {
                &&& r@ == old(self).batches@.skip(old(self).cursor as int)
                &&& final(self).cursor == old(self).batches@.len()
            },
            (old(self).row_limit is None && old(self).cursor == 0) ==> r@ == old(self).batches@,
    {
        let ghost init = *self;
        let mut out: Vec<RecordBatch> = Vec::new();
        loop
            invariant
                self.batches@ == init.batches@,
                self.schema == init.schema,
                self.row_limit == init.row_limit,
                init.cursor <= self.cursor,
                self.cursor <= self.batches@.len() || self.cursor == init.cursor,
                (init.row_limit is None && init.cursor <= init.batches@.len()) ==> {
                    &&& self.cursor <= self.batches@.len()
                    &&& out@ == init.batches@.subrange(init.cursor as int, self.cursor as int)
                },
            ensures
                self.batches@ == init.batches@,
                self.schema == init.schema,
                self.row_limit == init.row_limit,
                init.cursor <= self.cursor,
                !self.can_yield(),
                (init.row_limit is None && init.cursor <= init.batches@.len()) ==> {
                    &&& self.cursor <= self.batches@.len()
                    &&& out@ == init.batches@.subrange(init.cursor as int, self.cursor as int)
                },
            decreases self.batches@.len() - self.cursor,
        {
            match self.next() {
                Some(batch) => {
                    out.push(batch);
                    proof {
                        if init.row_limit is None && init.cursor <= init.batches@.len() {
                            assert(out@ =~= init.batches@.subrange(
                                init.cursor as int,
                                self.cursor as int,
                            ));
                        }
                    }
                },
                None => {
                    break;
                },
            }
        }
        proof {
            if init.row_limit is None && init.cursor <= init.batches@.len() {
                assert(self.cursor == init.batches@.len());
                assert(out@ =~= init.batches@.skip(init.cursor as int));
                if init.cursor == 0 {
                    assert(out@ =~= init.batches@);
                }
            }
        }
        out
    }

    /// How many batches have been yielded so far.
    pub fn position(&self) -> (r: usize)
        ensures
            r == self.cursor,
    {
        self.cursor
    }
}

/// A sequence is single-pass and finite: once it stops yielding it stays
/// stopped. Exhaustion is a property of the value alone, so a sequence that
/// `next` left unchanged — as it does whenever it returns nothing — cannot
/// yield on any later pull.
pub proof fn lemma_exhaustion_is_permanent(s1: BatchSequence, s2: BatchSequence)
    requires
        !s1.can_yield(),
        s2 == s1,
    ensures
        !s2.can_yield(),
{
}

} // verus!
