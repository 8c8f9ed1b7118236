//! The ordered-delivery end of the parallel render scheduler.
//!
//! Rows of the image are computed in parallel and can finish in any order,
//! but the sink must receive them in strictly ascending row order. The
//! reassembler buffers rows that arrive early and, on demand, delivers the
//! longest in-order prefix that has become available.

use vstd::prelude::*;
use crate::file::FileWriter;
use crate::structs::color::Color;

verus! {

/// Hands every pixel of one completed row to the sink, left to right.
pub fn write_row<W: FileWriter>(row: &Vec<Color>, writer: &mut W)
    ensures
        final(writer).received() == old(writer).received() + row@,
{
    let ghost w0 = writer.received();
    let mut j: usize = 0;
    while j < row.len()
        invariant
            j <= row.len(),
            writer.received() == w0 + row@.take(j as int),
        decreases row.len() - j,
    {
        writer.write(row[j]);
        proof {
            assert(w0 + row@.take(j + 1) =~= (w0 + row@.take(j as int)).push(row@[j as int]));
        }
        j = j + 1;
    }
    proof {
        assert(w0 + row@.take(row@.len() as int) =~= w0 + row@);
    }
}

/// Concatenating rows of one uniform width multiplies out to a pixel
/// count of rows times width.
proof fn lemma_flatten_uniform_len(rows: Seq<Seq<Color>>, w: int)
    requires
        forall|k: int| 0 <= k < rows.len() ==> (#[trigger] rows[k]).len() == w,
    ensures
        rows.flatten().len() == rows.len() * w,
    decreases rows.len(),
{
    if rows.len() == 0 {
    } else {
        lemma_flatten_uniform_len(rows.drop_first(), w);
        assert((rows.len() - 1) * w + w == rows.len() * w) by (nonlinear_arith);
    }
}

/// Reorders out-of-order row results into ascending row order.
///
/// Rows `0 .. next_row` have already been delivered; a slot holds `Some`
/// exactly when its row has arrived but has not yet been delivered.
pub struct Reassembler {
    pub width: usize,
    pub height: usize,
    pub next_row: usize,
    pub slots: Vec<Option<Vec<Color>>>,
}

impl Reassembler {
    /// Well-formedness: one slot per row, delivered slots empty again, and
    /// every buffered row exactly as wide as the image.
    pub open spec fn wf(self) -> bool {
        &&& self.slots@.len() == self.height
        &&& self.next_row <= self.height
        &&& forall|i: int| 0 <= i < self.next_row ==> (#[trigger] self.slots@[i]) is None
        &&& forall|i: int|
            0 <= i < self.slots@.len() && (#[trigger] self.slots@[i]) is Some
                ==> self.slots@[i]->Some_0@.len() == self.width
    }

    /// Every row at or past the delivery point has arrived.
    pub open spec fn complete(self) -> bool {
        forall|i: int| self.next_row <= i < self.height ==> (#[trigger] self.slots@[i]) is Some
    }

    /// The buffered rows from the delivery point on, in ascending row order.
    pub open spec fn remaining_rows(self) -> Seq<Seq<Color>> {
        Seq::new(
            (self.height - self.next_row) as nat,
            |k: int| self.slots@[self.next_row + k]->Some_0@,
        )
    }

    /// A fresh reassembler for an image of the given dimensions: nothing
    /// has arrived and delivery starts at row zero.
    pub fn new(width: usize, height: usize) -> (r: Reassembler)
        ensures
            r.wf(),
            r.width == width,
            r.height == height,
            r.next_row == 0,
            forall|i: int| 0 <= i < height ==> (#[trigger] r.slots@[i]) is None,
    {
        let mut slots: Vec<Option<Vec<Color>>> = Vec::new();
        let mut i: usize = 0;
        while i < height
            invariant
                i <= height,
                slots@.len() == i,
                forall|k: int| 0 <= k < i ==> (#[trigger] slots@[k]) is None,
            decreases height - i,
        {
            slots.push(None);
            i = i + 1;
        }
        Reassembler { width, height, next_row: 0, slots }
    }

    /// True when row `i` has arrived and has not yet been delivered.
    pub fn has_row(&self, i: usize) -> (b: bool)
        requires
            i < self.slots@.len(),
        ensures
            b == (self.slots@[i as int] is Some),
    {
        self.slots[i].is_some()
    }

    /// Records the arrival of computed row `i`.
    pub fn submit(&mut self, i: usize, row: Vec<Color>)
        requires
            old(self).wf(),
            old(self).next_row <= i < old(self).height,
            old(self).slots@[i as int] is None,
            row@.len() == old(self).width,
        ensures
            final(self).wf(),
            final(self).width == old(self).width,
            final(self).height == old(self).height,
            final(self).next_row == old(self).next_row,
            final(self).slots@ == old(self).slots@.update(i as int, Some(row)),
    {
        self.slots[i] = Some(row);
    }

    /// Delivers to the sink, in strictly ascending row order, every
    /// buffered row that is next in sequence, stopping at the first row
    /// that has not arrived yet (or at the end of the image).
    pub fn deliver_ready<W: FileWriter>(&mut self, writer: &mut W)
        requires
            old(self).wf(),
        ensures
            final(self).wf(),
            final(self).width == old(self).width,
            final(self).height == old(self).height,
            old(self).next_row <= final(self).next_row,
            final(writer).received() == old(writer).received() + old(self).remaining_rows().take(
                final(self).next_row - old(self).next_row,
            ).flatten(),
            forall|i: int|
                old(self).next_row <= i < final(self).next_row
                    ==> (#[trigger] old(self).slots@[i]) is Some,
            forall|i: int|
                final(self).next_row <= i < final(self).height
                    ==> final(self).slots@[i] == old(self).slots@[i],
            final(self).next_row == final(self).height || final(self).slots@[
                final(self).next_row as int
            ] is None,
            old(self).complete() ==> final(self).next_row == final(self).height,
    {
        let ghost init = *self;
        let ghost w0 = writer.received();
        proof {
            assert(w0 + init.remaining_rows().take(0).flatten() =~= w0);
        }
        while self.next_row < self.height && self.has_row(self.next_row)
            invariant
                self.wf(),
                self.width == init.width,
                self.height == init.height,
                init.next_row <= self.next_row <= self.height,
                forall|i: int|
                    init.next_row <= i < self.next_row
                        ==> (#[trigger] init.slots@[i]) is Some,
                forall|i: int|
                    self.next_row <= i < self.height ==> self.slots@[i] == init.slots@[i],
                writer.received() == w0 + init.remaining_rows().take(
                    self.next_row - init.next_row,
                ).flatten(),
            decreases self.height - self.next_row,
        {
            let mut taken: Option<Vec<Color>> = None;
            let k = self.next_row;
            core::mem::swap(&mut taken, &mut self.slots[k]);
            match taken {
                Some(row) => {
                    proof {
                        assert(row@ == init.remaining_rows()[k - init.next_row]);
                    }
                    write_row(&row, writer);
                    self.next_row = k + 1;
                    proof {
                        let d = k - init.next_row;
                        let rem = init.remaining_rows();
                        assert(rem.take(d + 1) =~= rem.take(d).push(rem[d]));
                        rem.take(d).lemma_flatten_push(rem[d]);
                        assert(writer.received() =~= w0 + rem.take(d + 1).flatten());
                    }
                }
                None => {
                    proof {
                        assert(false);
                    }
                }
            }
        }
        proof {
            if init.complete() && self.next_row < self.height {
                assert(self.slots@[self.next_row as int] == init.slots@[self.next_row as int]);
                assert(init.slots@[self.next_row as int] is Some);
                assert(false);
            }
        }
    }

    /// Law: once every row has arrived, what remains to be delivered is
    /// one row per image row still owed, each exactly as wide as the
    /// image, so a full delivery hands the sink `height * width` colors.
    pub proof fn lemma_remaining_dimensions(self)
        requires
            self.wf(),
            self.complete(),
        ensures
            self.remaining_rows().len() == self.height - self.next_row,
            forall|k: int|
                0 <= k < self.remaining_rows().len()
                    ==> (#[trigger] self.remaining_rows()[k]).len() == self.width,
            self.remaining_rows().flatten().len() == (self.height - self.next_row) * self.width,
    {
        let rows = self.remaining_rows();
        assert forall|k: int| 0 <= k < rows.len() implies (#[trigger] rows[k]).len()
            == self.width by {
            assert(self.slots@[self.next_row + k] is Some);
        }
        lemma_flatten_uniform_len(rows, self.width as int);
    }
}

} // verus!
