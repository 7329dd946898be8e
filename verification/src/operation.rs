use vstd::prelude::*;

use crate::error::DBError;
use crate::schema::schema_eq;
use crate::schema::Schema;
use crate::types::Type;

verus! {

/// A row count or row address within a cursor's output.
pub type RowOffset = usize;

/// The block/arena allocator that owns all backing memory for column data.
/// Its allocation and reclamation contract lives outside this core;
/// operations are handed one by reference at bind time and may hold that
/// reference for the cursor's lifetime.
pub struct Allocator {}

/// An in-memory storage block, as this core sees it: the schema its rows
/// conform to and how many rows it holds. The physical column payload is
/// owned and laid out by the storage layer outside this core; the cursor
/// protocol reads only the shape.
pub struct Block {
    /// The schema every row of the block conforms to.
    pub schema: Schema,
    /// How many rows the block holds.
    pub num_rows: usize,
}

/// A materialized, non-owning view of a consecutive run of rows inside one
/// block, as wrapped by [`CursorChunk::Next`]. It is valid only as long as
/// the backing block is not reclaimed, which the borrow enforces.
pub struct RefView<'a> {
    /// The block the rows live in.
    pub block: &'a Block,
    /// The first viewed row.
    pub start: RowOffset,
    /// How many rows the view covers.
    pub rows: usize,
}

impl<'a> RefView<'a> {
    /// The view denotes rows the block actually holds.
    pub open spec fn wf(&self) -> bool {
        self.start + self.rows <= self.block.num_rows
    }

    /// How many rows the view covers.
    pub fn len(&self) -> (n: usize)
        ensures
            n == self.rows,
    {
        self.rows
    }

    /// The schema the viewed rows conform to.
    pub fn schema(&self) -> (s: &'a Schema)
        ensures
            s@ == self.block.schema@,
    {
        &self.block.schema
    }
}

/// One pull's result: the next materialized run of rows, or the end of the
/// stream. Transient: it exists only across the span of one `next` call's
/// borrow.
pub enum CursorChunk<'a> {
    /// The next rows.
    Next(RefView<'a>),
    /// End of stream, terminal for the cursor that returned it.
    End,
}

/// A bound, stateful, lazily-pulled result stream, one instance per bound
/// [`Operation`].
///
/// Each call to [`Cursor::next`] asks for at most `rows` further rows, and
/// different calls may request different batch sizes. The cursor may return
/// fewer rows than requested but never more, and the row counts of all
/// chunks it ever yields sum to exactly the rows it had remaining. Once it
/// has returned [`CursorChunk::End`] it returns `End` again on every further
/// call — the end-of-stream policy is idempotent, for all operators alike.
/// After an `Err` the cursor's state is undefined: `wf` is no longer known,
/// so a verified caller cannot pull again.
pub trait Cursor<'a> {
    /// Well-formedness: established by [`Operation::bind`] and preserved by
    /// every successful pull.
    spec fn wf(&self) -> bool;

    /// The shape of every chunk this cursor yields, fixed for its lifetime.
    spec fn spec_schema(&self) -> Seq<(Seq<char>, Type, bool)>;

    /// The rows this cursor has not yet handed out.
    spec fn remaining(&self) -> nat;

    /// The output schema, fixed for the cursor's lifetime and equal to what
    /// the operation it was bound from advertises.
    fn schema(&self) -> (s: Schema)
        ensures
            s@ == self.spec_schema(),
    ;

    /// Pulls at most `rows` further rows; a pull asks for at least one.
    fn next(&mut self, rows: RowOffset) -> (r: Result<CursorChunk<'a>, DBError>)
        requires
            old(self).wf(),
            rows >= 1,
        ensures
            match r {
                Ok(CursorChunk::Next(v)) => {
                    &&& final(self).wf()
                    &&& final(self).spec_schema() == old(self).spec_schema()
                    &&& 1 <= v.rows <= rows
                    &&& final(self).remaining() + v.rows == old(self).remaining()
                    &&& v.wf()
                    &&& v.block.schema@ == old(self).spec_schema()
                },
                Ok(CursorChunk::End) => {
                    &&& final(self).wf()
                    &&& final(self).spec_schema() == old(self).spec_schema()
                    &&& old(self).remaining() == 0
                    &&& final(self).remaining() == 0
                },
                Err(_) => old(self).remaining() > 0,
            },
    ;
}

/// An immutable node of the operation tree. Binding it against an allocator
/// is a pure construction step producing a fresh cursor; it neither consumes
/// nor mutates the node, so one node may be bound many times, and cursors
/// bound from it are independent of one another.
pub trait Operation<'a> {
    /// The cursor type binding produces.
    type Out: Cursor<'a>;

    /// The output schema this node advertises.
    spec fn spec_schema(&self) -> Seq<(Seq<char>, Type, bool)>;

    /// How many rows a fresh cursor bound from this node yields in total.
    spec fn spec_rows(&self) -> nat;

    /// Whether setup succeeds. Binding fails only for setup-time reasons
    /// (schema mismatch, allocation failure, a malformed tree), never for
    /// per-row data reasons, which surface later through the cursor.
    spec fn binds(&self) -> bool;

    /// Binds this node against an allocator, producing a fresh cursor whose
    /// schema matches what the node advertises and whose remaining rows are
    /// determined by the node alone.
    fn bind(&self, alloc: &Allocator) -> (r: Result<Self::Out, DBError>)
        ensures
            r is Ok <==> self.binds(),
            r matches Ok(c) ==> {
                &&& c.wf()
                &&& c.spec_schema() == self.spec_schema()
                &&& c.remaining() == self.spec_rows()
            },
    ;
}

/// A leaf operation: scan every row of one block, in storage order.
pub struct BlockScan<'a> {
    /// The block to scan.
    pub block: &'a Block,
}

/// The cursor of a [`BlockScan`]: a position that advances through the
/// block's rows.
pub struct BlockCursor<'a> {
    /// The block being scanned.
    pub block: &'a Block,
    /// The first row not yet handed out.
    pub pos: usize,
}

impl<'a> Cursor<'a> for BlockCursor<'a> {
    open spec fn wf(&self) -> bool {
        self.pos <= self.block.num_rows
    }

    open spec fn spec_schema(&self) -> Seq<(Seq<char>, Type, bool)> {
        self.block.schema@
    }

    open spec fn remaining(&self) -> nat {
        (self.block.num_rows - self.pos) as nat
    }

    fn schema(&self) -> (s: Schema) {
        self.block.schema.clone()
    }

    /// A scan never fails mid-stream: every pull yields the next run of the
    /// block's rows — as many as requested, or all that are left — or `End`.
    fn next(&mut self, rows: RowOffset) -> (r: Result<CursorChunk<'a>, DBError>)
        ensures
            r is Ok,
            r matches Ok(CursorChunk::Next(v)) ==> {
                &&& v.block == old(self).block
                &&& v.start == old(self).pos
                &&& v.rows as nat == if rows as nat <= old(self).remaining() {
                    rows as nat
                } else {
                    old(self).remaining()
                }
            },
    {
        let rem = self.block.num_rows - self.pos;
        if rem == 0 {
            Ok(CursorChunk::End)
        } else {
            let take = if rows < rem {
                rows
            } else {
                rem
            };
            let v = RefView { block: self.block, start: self.pos, rows: take };
            self.pos = self.pos + take;
            Ok(CursorChunk::Next(v))
        }
    }
}

impl<'a> Operation<'a> for BlockScan<'a> {
    type Out = BlockCursor<'a>;

    open spec fn spec_schema(&self) -> Seq<(Seq<char>, Type, bool)> {
        self.block.schema@
    }

    open spec fn spec_rows(&self) -> nat {
        self.block.num_rows as nat
    }

    open spec fn binds(&self) -> bool {
        true
    }

    fn bind(&self, alloc: &Allocator) -> (r: Result<BlockCursor<'a>, DBError>) {
        Ok(BlockCursor { block: self.block, pos: 0 })
    }
}

/// A composed operation: every row of the first child followed by every row
/// of the second. Binding fails with [`DBError::SchemaMismatch`] unless both
/// children advertise the same schema.
pub struct Concat<L, R> {
    /// The child whose rows come first.
    pub left: L,
    /// The child whose rows follow.
    pub right: R,
}

/// The cursor of a [`Concat`]: drains its first child, then its second.
pub struct ConcatCursor<CL, CR> {
    /// The child cursor pulled first.
    pub left: CL,
    /// The child cursor pulled once the first is exhausted.
    pub right: CR,
}

impl<'a, CL: Cursor<'a>, CR: Cursor<'a>> Cursor<'a> for ConcatCursor<CL, CR> {
    open spec fn wf(&self) -> bool {
        &&& self.left.wf()
        &&& self.right.wf()
        &&& self.left.spec_schema() == self.right.spec_schema()
    }

    open spec fn spec_schema(&self) -> Seq<(Seq<char>, Type, bool)> {
        self.left.spec_schema()
    }

    open spec fn remaining(&self) -> nat {
        self.left.remaining() + self.right.remaining()
    }

    fn schema(&self) -> (s: Schema) {
        self.left.schema()
    }

    fn next(&mut self, rows: RowOffset) -> (r: Result<CursorChunk<'a>, DBError>) {
        match self.left.next(rows) {
            Ok(CursorChunk::Next(v)) => Ok(CursorChunk::Next(v)),
            Ok(CursorChunk::End) => self.right.next(rows),
            Err(e) => Err(e),
        }
    }
}

impl<'a, L: Operation<'a>, R: Operation<'a>> Operation<'a> for Concat<L, R> {
    type Out = ConcatCursor<L::Out, R::Out>;

    open spec fn spec_schema(&self) -> Seq<(Seq<char>, Type, bool)> {
        self.left.spec_schema()
    }

    open spec fn spec_rows(&self) -> nat {
        self.left.spec_rows() + self.right.spec_rows()
    }

    open spec fn binds(&self) -> bool {
        &&& self.left.binds()
        &&& self.right.binds()
        &&& self.left.spec_schema() == self.right.spec_schema()
    }

    /// Where both children bind but advertise different schemas, the
    /// mismatch is what binding reports.
    fn bind(&self, alloc: &Allocator) -> (r: Result<Self::Out, DBError>)
        ensures
            (self.left.binds() && self.right.binds() && self.left.spec_schema()
                != self.right.spec_schema()) ==> r matches Err(DBError::SchemaMismatch),
    {
        let lc = match self.left.bind(alloc) {
            Ok(c) => c,
            Err(e) => {
                return Err(e);
            },
        };
        let rc = match self.right.bind(alloc) {
            Ok(c) => c,
            Err(e) => {
                return Err(e);
            },
        };
        let ls = lc.schema();
        let rs = rc.schema();
        if !schema_eq(&ls, &rs) {
            return Err(DBError::SchemaMismatch);
        }
        Ok(ConcatCursor { left: lc, right: rc })
    }
}

/// Law: binding one operation node twice produces cursors that share no
/// mutable state. The node binds against the second allocator exactly when
/// it binds against the first, and after the first cursor has been pulled,
/// the second still holds the node's full advertised row count, schema and
/// well-formedness, exactly as if it had been bound alone.
pub fn bind_two_cursors<'a, O: Operation<'a>>(
    op: &O,
    first: &Allocator,
    second: &Allocator,
    rows: RowOffset,
) -> (r: Option<(O::Out, O::Out)>)
    requires
        rows >= 1,
    ensures
        r is Some <==> op.binds(),
        r matches Some((c1, c2)) ==> {
            &&& c2.wf()
            &&& c2.spec_schema() == op.spec_schema()
            &&& c2.remaining() == op.spec_rows()
        },
{
    let mut c1 = match op.bind(first) {
        Ok(c) => c,
        Err(_) => {
            return None;
        },
    };
    let c2 = match op.bind(second) {
        Ok(c) => c,
        Err(_) => {
            return None;
        },
    };
    let _ = c1.next(rows);
    Some((c1, c2))
}

/// Law: pulling any well-formed cursor to exhaustion yields chunks whose row
/// counts sum to exactly the rows it had remaining — whatever the dataset
/// and whatever batch size each pull requests — and ends with `End`.
pub fn drain_count<'a, C: Cursor<'a>>(c: &mut C, batch: RowOffset) -> (r: Result<usize, DBError>)
    requires
        old(c).wf(),
        batch >= 1,
        old(c).remaining() <= usize::MAX,
    ensures
        r matches Ok(n) ==> {
            &&& n == old(c).remaining()
            &&& final(c).wf()
            &&& final(c).remaining() == 0
        },
        old(c).remaining() == 0 ==> r is Ok,
        r is Err ==> old(c).remaining() > 0,
{
    let mut total: usize = 0;
    loop
        invariant
            c.wf(),
            batch >= 1,
            total + c.remaining() == old(c).remaining(),
            old(c).remaining() <= usize::MAX,
        decreases c.remaining(),
    {
        match c.next(batch) {
            Ok(CursorChunk::Next(v)) => {
                total = total + v.len();
            },
            Ok(CursorChunk::End) => {
                return Ok(total);
            },
            Err(e) => {
                return Err(e);
            },
        }
    }
}

} // verus!
