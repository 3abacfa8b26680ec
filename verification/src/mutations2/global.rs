//! Mutations that are handed the whole buffer and choose their own windows.

use super::{AreaType, Mutation};
use crate::random::thread_index;
use crate::text::{decimal, decimal_text};
use moveslice::Moveslice;
use vstd::prelude::*;
use vstd::string::StringExecFns;

verus! {

/// `s` with the `c` bytes at `first` and the `c` bytes at `second` exchanged.
pub open spec fn exchanged(s: Seq<u8>, first: int, second: int, c: int) -> Seq<u8> {
    Seq::new(
        s.len(),
        |i: int|
            if first <= i < first + c {
                s[i - first + second]
            } else if second <= i < second + c {
                s[i - second + first]
            } else {
                s[i]
            },
    )
}

/// Whether `split`, `first` and `second` are a choice `Swap` can make in a
/// buffer of `len` bytes with windows of `c` bytes: the split leaves room for
/// more than one window on either side, `first` starts a window left of the
/// split and `second` one at or right of it, neither in the last position of
/// its side.
pub open spec fn swap_choice(len: int, c: int, split: int, first: int, second: int) -> bool {
    &&& c < split < len - c
    &&& 0 <= first < split - c
    &&& split <= second < len - c
}

/// `s` after the chunk `[start, end)` has been moved forward so that it
/// begins at `dest`, the bytes it passes over closing the gap it leaves.
pub open spec fn moved(s: Seq<u8>, start: int, end: int, dest: int) -> Seq<u8> {
    let landing = dest + (end - start);
    s.subrange(0, start) + s.subrange(end, landing) + s.subrange(start, end) + s.subrange(
        landing,
        s.len() as int,
    )
}

/// `Moveslice::moveslice` of the `moveslice` crate, on a byte slice with the
/// range `start..end` and a destination at or after `start`.
///
/// The crate rotates the part of the slice from the chunk's start to where
/// the moved chunk ends, so the chunk lands at `dest` and the bytes it passes
/// over shift back by its length; with `dest` equal to `start` it does
/// nothing. It panics when the range leaves the slice or the moved chunk
/// would end past it; both are excluded here, as is a reversed range.
#[verifier::external_body]
fn move_chunk(window: &mut [u8], start: usize, end: usize, dest: usize)
    requires
        start <= end <= old(window)@.len(),
        start <= dest,
        dest + (end - start) <= old(window)@.len(),
    ensures
        final(window)@ == moved(old(window)@, start as int, end as int, dest as int),
{
    window.as_mut().moveslice(start..end, dest);
}

/// Exchanges two windows of `chunksize` bytes, one on each side of a random
/// split point.
#[derive(Debug, Clone, Copy)]
pub struct Swap {
    pub chunksize: usize,
}

impl Mutation for Swap {
    open spec fn name(&self) -> Seq<char> {
        "swap"@
    }

    open spec fn details(&self) -> Seq<char> {
        "[none]"@
    }

    open spec fn area(&self) -> AreaType {
        AreaType::Global
    }

    open spec fn chunk(&self) -> nat {
        self.chunksize as nat
    }

    /// Both sides of some split must hold more than one window position.
    open spec fn fits(&self, len: nat) -> bool {
        2 * self.chunksize + 2 <= len
    }

    open spec fn effect(&self, before: Seq<u8>, after: Seq<u8>) -> bool {
        exists|split: int, first: int, second: int|
            #[trigger] swap_choice(
                before.len() as int,
                self.chunksize as int,
                split,
                first,
                second,
            ) && after == exchanged(before, first, second, self.chunksize as int)
    }

    fn get_name(&self) -> (name: String) {
        String::from_str("swap")
    }

    fn get_details(&self) -> (details: String) {
        String::from_str("[none]")
    }

    fn bend(&self, to_mutate: &mut [u8]) {
        let n: usize = to_mutate.len();
        let c: usize = self.chunksize;
        let ghost before = to_mutate@;
        let split: usize = thread_index(c + 1, n - c);
        let first: usize = thread_index(0, split - c);
        let offset: usize = thread_index(0, n - split - c);
        let second: usize = split + offset;
        let mut k: usize = 0;
        while k < c
            invariant
                k <= c,
                first + c <= split <= second,
                second + c <= n,
                to_mutate@.len() == n,
                before.len() == n,
                forall|i: int|
                    0 <= i < n ==> to_mutate@[i] == if first <= i < first + k {
                        before[i - first + second]
                    } else if second <= i < second + k {
                        before[i - second + first]
                    } else {
                        before[i]
                    },
            decreases c - k,
        {
            let low: u8 = to_mutate[first + k];
            let high: u8 = to_mutate[second + k];
            to_mutate[first + k] = high;
            to_mutate[second + k] = low;
            k += 1;
        }
        assert(to_mutate@ =~= exchanged(before, first as int, second as int, c as int));
        assert(swap_choice(n as int, c as int, split as int, first as int, second as int));
    }

    fn get_type(&self) -> (area: AreaType) {
        AreaType::Global
    }

    fn get_chunksize(&self) -> (chunksize: usize) {
        self.chunksize
    }

    fn accepts(&self, len: usize) -> (ok: bool) {
        len >= 2 && self.chunksize <= (len - 2) / 2
    }
}

/// Moves a window of `chunksize` bytes forward by `by` positions; the bytes
/// it passes over shift back to close the gap.
///
/// The window's start is drawn at random among the offsets that leave room
/// for the move. `from` is carried and shown in the details, but it is not
/// the offset that `bend` uses.
#[derive(Debug, Clone, Copy)]
pub struct Shift {
    pub from: usize,
    pub by: usize,
    pub chunksize: usize,
}

impl Mutation for Shift {
    open spec fn name(&self) -> Seq<char> {
        "shift"@
    }

    open spec fn details(&self) -> Seq<char> {
        "[from="@ + decimal_text(self.from as nat) + " by="@ + decimal_text(self.by as nat) + "]"@
    }

    open spec fn area(&self) -> AreaType {
        AreaType::Global
    }

    open spec fn chunk(&self) -> nat {
        self.chunksize as nat
    }

    /// The window and the distance it travels must fit with a byte to spare.
    open spec fn fits(&self, len: nat) -> bool {
        self.chunksize + self.by < len
    }

    open spec fn effect(&self, before: Seq<u8>, after: Seq<u8>) -> bool {
        exists|start: int|
            0 <= start < before.len() - self.chunksize - self.by && after == #[trigger] moved(
                before,
                start,
                start + self.chunksize,
                start + self.by,
            )
    }

    fn get_name(&self) -> (name: String) {
        String::from_str("shift")
    }

    fn get_details(&self) -> (details: String) {
        String::from_str("[from=").concat(decimal(self.from).as_str()).concat(" by=").concat(
            decimal(self.by).as_str(),
        ).concat("]")
    }

    fn bend(&self, to_mutate: &mut [u8]) {
        let n: usize = to_mutate.len();
        let start: usize = thread_index(0, n - self.chunksize - self.by);
        move_chunk(to_mutate, start, start + self.chunksize, start + self.by);
    }

    fn get_type(&self) -> (area: AreaType) {
        AreaType::Global
    }

    fn get_chunksize(&self) -> (chunksize: usize) {
        self.chunksize
    }

    fn accepts(&self, len: usize) -> (ok: bool) {
        self.chunksize < len && self.by < len - self.chunksize
    }
}

} // verus!
