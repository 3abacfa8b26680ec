//! Mutations that act on a window the driver places.

use super::{AreaType, Mutation};
use crate::random::{thread_byte, thread_shuffle};
use crate::text::{decimal, decimal_text};
use vstd::prelude::*;
use vstd::string::StringExecFns;

verus! {

/// Replaces every byte of the window with an independent random byte.
#[derive(Debug, Clone, Copy)]
pub struct Chaos {
    pub chunksize: usize,
}

impl Mutation for Chaos {
    open spec fn name(&self) -> Seq<char> {
        "chaos"@
    }

    open spec fn details(&self) -> Seq<char> {
        "[none]"@
    }

    open spec fn area(&self) -> AreaType {
        AreaType::Local
    }

    open spec fn chunk(&self) -> nat {
        self.chunksize as nat
    }

    open spec fn fits(&self, len: nat) -> bool {
        true
    }

    /// Any window of the same length may come out.
    open spec fn effect(&self, before: Seq<u8>, after: Seq<u8>) -> bool {
        after.len() == before.len()
    }

    fn get_name(&self) -> (name: String) {
        String::from_str("chaos")
    }

    fn get_details(&self) -> (details: String) {
        String::from_str("[none]")
    }

    fn bend(&self, to_mutate: &mut [u8]) {
        let n: usize = to_mutate.len();
        let mut i: usize = 0;
        while i < n
            invariant
                to_mutate@.len() == n,
            decreases n - i,
        {
            to_mutate[i] = thread_byte();
            i += 1;
        }
    }

    fn get_type(&self) -> (area: AreaType) {
        AreaType::Local
    }

    fn get_chunksize(&self) -> (chunksize: usize) {
        self.chunksize
    }

    fn accepts(&self, len: usize) -> (ok: bool) {
        true
    }
}

/// Sets every byte of the window to zero.
#[derive(Debug, Clone, Copy)]
pub struct Voidout {
    pub chunksize: usize,
}

impl Mutation for Voidout {
    open spec fn name(&self) -> Seq<char> {
        "voidout"@
    }

    open spec fn details(&self) -> Seq<char> {
        "[none]"@
    }

    open spec fn area(&self) -> AreaType {
        AreaType::Local
    }

    open spec fn chunk(&self) -> nat {
        self.chunksize as nat
    }

    open spec fn fits(&self, len: nat) -> bool {
        true
    }

    open spec fn effect(&self, before: Seq<u8>, after: Seq<u8>) -> bool {
        after == Seq::new(before.len(), |i: int| 0u8)
    }

    fn get_name(&self) -> (name: String) {
        String::from_str("voidout")
    }

    fn get_details(&self) -> (details: String) {
        String::from_str("[none]")
    }

    fn bend(&self, to_mutate: &mut [u8]) {
        let n: usize = to_mutate.len();
        let mut i: usize = 0;
        while i < n
            invariant
                i <= n,
                to_mutate@.len() == n,
                forall|j: int| 0 <= j < i ==> to_mutate@[j] == 0u8,
            decreases n - i,
        {
            to_mutate[i] = 0;
            i += 1;
        }
        assert(to_mutate@ =~= Seq::new(n as nat, |i: int| 0u8));
    }

    fn get_type(&self) -> (area: AreaType) {
        AreaType::Local
    }

    fn get_chunksize(&self) -> (chunksize: usize) {
        self.chunksize
    }

    fn accepts(&self, len: usize) -> (ok: bool) {
        true
    }
}

/// The sum `byte + from + by * step` reduced modulo 256, computed without
/// leaving `usize`.
fn ramp(byte: u8, from: usize, by: usize, step: usize) -> (out: u8)
    ensures
        out == (byte + from + by * step) % 256,
{
    let low_by: usize = by % 256;
    let low_step: usize = step % 256;
    assert(low_by * low_step <= 255 * 255) by (nonlinear_arith)
        requires
            low_by <= 255,
            low_step <= 255,
    ;
    let product: usize = (low_by * low_step) % 256;
    let increment: usize = ((from % 256) + product) % 256;
    proof {
        vstd::arithmetic::div_mod::lemma_mul_mod_noop(by as int, step as int, 256);
        vstd::arithmetic::div_mod::lemma_add_mod_noop(from as int, by * step, 256);
        vstd::arithmetic::div_mod::lemma_add_mod_noop(byte as int, from + by * step, 256);
        vstd::arithmetic::div_mod::lemma_add_mod_noop(byte as int, increment as int, 256);
    }
    ((byte as usize + increment) % 256) as u8
}

/// Rebuilds the window so that byte `i` is the old byte `i / by`: every old
/// byte is repeated `by` times until the window is full.
#[derive(Debug, Clone, Copy)]
pub struct Compress {
    pub by: usize,
    pub chunksize: usize,
}

impl Mutation for Compress {
    open spec fn name(&self) -> Seq<char> {
        "compress"@
    }

    open spec fn details(&self) -> Seq<char> {
        "[by="@ + decimal_text(self.by as nat) + "]"@
    }

    open spec fn area(&self) -> AreaType {
        AreaType::Local
    }

    open spec fn chunk(&self) -> nat {
        self.chunksize as nat
    }

    open spec fn fits(&self, len: nat) -> bool {
        self.by >= 1
    }

    open spec fn effect(&self, before: Seq<u8>, after: Seq<u8>) -> bool {
        after == Seq::new(before.len(), |i: int| before[i / (self.by as int)])
    }

    fn get_name(&self) -> (name: String) {
        String::from_str("compress")
    }

    fn get_details(&self) -> (details: String) {
        String::from_str("[by=").concat(decimal(self.by).as_str()).concat("]")
    }

    fn bend(&self, to_mutate: &mut [u8]) {
        let n: usize = to_mutate.len();
        let source = vstd::slice::slice_to_vec(to_mutate);
        let mut i: usize = 0;
        while i < n
            invariant
                i <= n,
                self.by >= 1,
                to_mutate@.len() == n,
                source@.len() == n,
                forall|j: int| 0 <= j < i ==> to_mutate@[j] == source@[j / (self.by as int)],
            decreases n - i,
        {
            assert(i / self.by <= i) by (nonlinear_arith)
                requires
                    self.by >= 1,
            ;
            to_mutate[i] = source[i / self.by];
            i += 1;
        }
        assert(to_mutate@ =~= Seq::new(n as nat, |i: int| source@[i / (self.by as int)]));
    }

    fn get_type(&self) -> (area: AreaType) {
        AreaType::Local
    }

    fn get_chunksize(&self) -> (chunksize: usize) {
        self.chunksize
    }

    fn accepts(&self, len: usize) -> (ok: bool) {
        self.by >= 1
    }
}

/// Rebuilds the window by reading the old window with stride `by`: byte `i`
/// is the old byte `(i * by) mod len`, so the read position wraps inside the
/// window instead of leaving it.
#[derive(Debug, Clone, Copy)]
pub struct Expand {
    pub by: usize,
    pub chunksize: usize,
}

impl Mutation for Expand {
    open spec fn name(&self) -> Seq<char> {
        "expand"@
    }

    open spec fn details(&self) -> Seq<char> {
        "[by="@ + decimal_text(self.by as nat) + "]"@
    }

    open spec fn area(&self) -> AreaType {
        AreaType::Local
    }

    open spec fn chunk(&self) -> nat {
        self.chunksize as nat
    }

    open spec fn fits(&self, len: nat) -> bool {
        true
    }

    open spec fn effect(&self, before: Seq<u8>, after: Seq<u8>) -> bool {
        after == Seq::new(before.len(), |i: int| before[(i * self.by) % (before.len() as int)])
    }

    fn get_name(&self) -> (name: String) {
        String::from_str("expand")
    }

    fn get_details(&self) -> (details: String) {
        String::from_str("[by=").concat(decimal(self.by).as_str()).concat("]")
    }

    fn bend(&self, to_mutate: &mut [u8]) {
        let n: usize = to_mutate.len();
        let source = vstd::slice::slice_to_vec(to_mutate);
        let mut i: usize = 0;
        while i < n
            invariant
                i <= n,
                to_mutate@.len() == n,
                source@.len() == n,
                forall|j: int| 0 <= j < i ==> to_mutate@[j] == source@[(j * self.by) % (n as int)],
            decreases n - i,
        {
            assert(i * self.by <= usize::MAX * usize::MAX) by (nonlinear_arith)
                requires
                    i <= usize::MAX,
                    self.by <= usize::MAX,
            ;
            let wide: u128 = (i as u128) * (self.by as u128);
            let at: usize = (wide % (n as u128)) as usize;
            to_mutate[i] = source[at];
            i += 1;
        }
        assert(to_mutate@ =~= Seq::new(n as nat, |i: int| source@[(i * self.by) % (n as int)]));
    }

    fn get_type(&self) -> (area: AreaType) {
        AreaType::Local
    }

    fn get_chunksize(&self) -> (chunksize: usize) {
        self.chunksize
    }

    fn accepts(&self, len: usize) -> (ok: bool) {
        true
    }
}

/// Adds to byte `i` the amount `from + by * (i / after)`, modulo 256: the
/// increment grows by `by` every `after` bytes.
#[derive(Debug, Clone, Copy)]
pub struct Accelerate {
    pub from: usize,
    pub by: usize,
    pub after: usize,
    pub chunksize: usize,
}

impl Mutation for Accelerate {
    open spec fn name(&self) -> Seq<char> {
        "accelerate"@
    }

    open spec fn details(&self) -> Seq<char> {
        "[by="@ + decimal_text(self.by as nat) + " after="@ + decimal_text(self.after as nat)
            + "]"@
    }

    open spec fn area(&self) -> AreaType {
        AreaType::Local
    }

    open spec fn chunk(&self) -> nat {
        self.chunksize as nat
    }

    open spec fn fits(&self, len: nat) -> bool {
        self.after >= 1
    }

    open spec fn effect(&self, before: Seq<u8>, after: Seq<u8>) -> bool {
        after == Seq::new(
            before.len(),
            |i: int| ((before[i] + self.from + self.by * (i / (self.after as int))) % 256) as u8,
        )
    }

    fn get_name(&self) -> (name: String) {
        String::from_str("accelerate")
    }

    fn get_details(&self) -> (details: String) {
        String::from_str("[by=").concat(decimal(self.by).as_str()).concat(" after=").concat(
            decimal(self.after).as_str(),
        ).concat("]")
    }

    fn bend(&self, to_mutate: &mut [u8]) {
        let n: usize = to_mutate.len();
        let ghost before = to_mutate@;
        let mut i: usize = 0;
        while i < n
            invariant
                i <= n,
                self.after >= 1,
                to_mutate@.len() == n,
                before.len() == n,
                forall|j: int| i <= j < n ==> to_mutate@[j] == before[j],
                forall|j: int|
                    0 <= j < i ==> to_mutate@[j] == ((before[j] + self.from + self.by * (j / (
                    self.after as int))) % 256) as u8,
            decreases n - i,
        {
            let byte: u8 = to_mutate[i];
            to_mutate[i] = ramp(byte, self.from, self.by, i / self.after);
            i += 1;
        }
        assert(to_mutate@ =~= Seq::new(
            n as nat,
            |i: int| ((before[i] + self.from + self.by * (i / (self.after as int))) % 256) as u8,
        ));
    }

    fn get_type(&self) -> (area: AreaType) {
        AreaType::Local
    }

    fn get_chunksize(&self) -> (chunksize: usize) {
        self.chunksize
    }

    fn accepts(&self, len: usize) -> (ok: bool) {
        self.after >= 1
    }
}

/// Adds `by` to every byte of the window, modulo 256.
#[derive(Debug, Clone, Copy)]
pub struct Increment {
    pub by: usize,
    pub chunksize: usize,
}

impl Mutation for Increment {
    open spec fn name(&self) -> Seq<char> {
        "increment"@
    }

    open spec fn details(&self) -> Seq<char> {
        "[by="@ + decimal_text(self.by as nat) + "]"@
    }

    open spec fn area(&self) -> AreaType {
        AreaType::Local
    }

    open spec fn chunk(&self) -> nat {
        self.chunksize as nat
    }

    open spec fn fits(&self, len: nat) -> bool {
        true
    }

    open spec fn effect(&self, before: Seq<u8>, after: Seq<u8>) -> bool {
        after == Seq::new(before.len(), |i: int| ((before[i] + self.by) % 256) as u8)
    }

    fn get_name(&self) -> (name: String) {
        String::from_str("increment")
    }

    fn get_details(&self) -> (details: String) {
        String::from_str("[by=").concat(decimal(self.by).as_str()).concat("]")
    }

    fn bend(&self, to_mutate: &mut [u8]) {
        let n: usize = to_mutate.len();
        let ghost before = to_mutate@;
        let mut i: usize = 0;
        while i < n
            invariant
                i <= n,
                to_mutate@.len() == n,
                before.len() == n,
                forall|j: int| i <= j < n ==> to_mutate@[j] == before[j],
                forall|j: int|
                    0 <= j < i ==> to_mutate@[j] == ((before[j] + self.by) % 256) as u8,
            decreases n - i,
        {
            let byte: u8 = to_mutate[i];
            to_mutate[i] = ramp(byte, self.by, 0, 0);
            i += 1;
        }
        assert(to_mutate@ =~= Seq::new(n as nat, |i: int| ((before[i] + self.by) % 256) as u8));
    }

    fn get_type(&self) -> (area: AreaType) {
        AreaType::Local
    }

    fn get_chunksize(&self) -> (chunksize: usize) {
        self.chunksize
    }

    fn accepts(&self, len: usize) -> (ok: bool) {
        true
    }
}

/// Keeps the first `loopsize` bytes of the window and overwrites the rest
/// with repetitions of them.
#[derive(Debug, Clone, Copy)]
pub struct Loop {
    pub loopsize: usize,
    pub chunksize: usize,
}

impl Mutation for Loop {
    open spec fn name(&self) -> Seq<char> {
        "loop"@
    }

    open spec fn details(&self) -> Seq<char> {
        "[loopsize="@ + decimal_text(self.loopsize as nat) + "]"@
    }

    open spec fn area(&self) -> AreaType {
        AreaType::Local
    }

    open spec fn chunk(&self) -> nat {
        self.chunksize as nat
    }

    /// The head must be nonempty and leave a tail to fill.
    open spec fn fits(&self, len: nat) -> bool {
        1 <= self.loopsize < len
    }

    open spec fn effect(&self, before: Seq<u8>, after: Seq<u8>) -> bool {
        after == Seq::new(before.len(), |i: int| before[i % (self.loopsize as int)])
    }

    fn get_name(&self) -> (name: String) {
        String::from_str("loop")
    }

    fn get_details(&self) -> (details: String) {
        String::from_str("[loopsize=").concat(decimal(self.loopsize).as_str()).concat("]")
    }

    fn bend(&self, to_mutate: &mut [u8]) {
        let n: usize = to_mutate.len();
        let ghost before = to_mutate@;
        let mut i: usize = self.loopsize;
        while i < n
            invariant
                1 <= self.loopsize <= i <= n,
                to_mutate@.len() == n,
                before.len() == n,
                forall|j: int| 0 <= j < self.loopsize ==> to_mutate@[j] == before[j],
                forall|j: int|
                    self.loopsize <= j < i ==> to_mutate@[j] == before[j % (self.loopsize as int)],
            decreases n - i,
        {
            let byte: u8 = to_mutate[i % self.loopsize];
            to_mutate[i] = byte;
            i += 1;
        }
        assert(to_mutate@ =~= Seq::new(n as nat, |i: int| before[i % (self.loopsize as int)])) by {
            assert forall|j: int| 0 <= j < n implies to_mutate@[j] == before[j % (
            self.loopsize as int)] by {
                if j < self.loopsize {
                    assert(j % (self.loopsize as int) == j) by (nonlinear_arith)
                        requires
                            0 <= j < self.loopsize,
                    ;
                }
            }
        }
    }

    fn get_type(&self) -> (area: AreaType) {
        AreaType::Local
    }

    fn get_chunksize(&self) -> (chunksize: usize) {
        self.chunksize
    }

    fn accepts(&self, len: usize) -> (ok: bool) {
        1 <= self.loopsize && self.loopsize < len
    }
}

/// Reverses the order of the bytes in the window.
#[derive(Debug, Clone, Copy)]
pub struct Reverse {
    pub chunksize: usize,
}

impl Mutation for Reverse {
    open spec fn name(&self) -> Seq<char> {
        "reverse"@
    }

    open spec fn details(&self) -> Seq<char> {
        "[none]"@
    }

    open spec fn area(&self) -> AreaType {
        AreaType::Local
    }

    open spec fn chunk(&self) -> nat {
        self.chunksize as nat
    }

    open spec fn fits(&self, len: nat) -> bool {
        true
    }

    open spec fn effect(&self, before: Seq<u8>, after: Seq<u8>) -> bool {
        after == before.reverse()
    }

    fn get_name(&self) -> (name: String) {
        String::from_str("reverse")
    }

    fn get_details(&self) -> (details: String) {
        String::from_str("[none]")
    }

    fn bend(&self, to_mutate: &mut [u8]) {
        let n: usize = to_mutate.len();
        let ghost before = to_mutate@;
        let mut i: usize = 0;
        while i < n / 2
            invariant
                i <= n / 2,
                to_mutate@.len() == n,
                before.len() == n,
                forall|j: int| 0 <= j < i ==> to_mutate@[j] == before[n - 1 - j],
                forall|j: int| n - i <= j < n ==> to_mutate@[j] == before[n - 1 - j],
                forall|j: int| i <= j < n - i ==> to_mutate@[j] == before[j],
            decreases n / 2 - i,
        {
            let low: u8 = to_mutate[i];
            let high: u8 = to_mutate[n - 1 - i];
            to_mutate[i] = high;
            to_mutate[n - 1 - i] = low;
            i += 1;
        }
        assert(to_mutate@ =~= before.reverse());
    }

    fn get_type(&self) -> (area: AreaType) {
        AreaType::Local
    }

    fn get_chunksize(&self) -> (chunksize: usize) {
        self.chunksize
    }

    fn accepts(&self, len: usize) -> (ok: bool) {
        true
    }
}

/// Permutes the bytes of the window at random.
#[derive(Debug, Clone, Copy)]
pub struct Shuffle {
    pub chunksize: usize,
}

impl Mutation for Shuffle {
    open spec fn name(&self) -> Seq<char> {
        "shuffle"@
    }

    open spec fn details(&self) -> Seq<char> {
        "[none]"@
    }

    open spec fn area(&self) -> AreaType {
        AreaType::Local
    }

    open spec fn chunk(&self) -> nat {
        self.chunksize as nat
    }

    open spec fn fits(&self, len: nat) -> bool {
        true
    }

    /// The window afterwards holds the same bytes, each as often as before.
    open spec fn effect(&self, before: Seq<u8>, after: Seq<u8>) -> bool {
        after.to_multiset() == before.to_multiset()
    }

    fn get_name(&self) -> (name: String) {
        String::from_str("shuffle")
    }

    fn get_details(&self) -> (details: String) {
        String::from_str("[none]")
    }

    fn bend(&self, to_mutate: &mut [u8]) {
        thread_shuffle(to_mutate);
    }

    fn get_type(&self) -> (area: AreaType) {
        AreaType::Local
    }

    fn get_chunksize(&self) -> (chunksize: usize) {
        self.chunksize
    }

    fn accepts(&self, len: usize) -> (ok: bool) {
        true
    }
}

/// Reversing a window twice gives back the window.
pub proof fn law_reverse_twice(
    first: Reverse,
    second: Reverse,
    before: Seq<u8>,
    mid: Seq<u8>,
    after: Seq<u8>,
)
    requires
        first.effect(before, mid),
        second.effect(mid, after),
    ensures
        after == before,
{
}

/// Whatever a window holds, `Voidout` leaves a window of the same length
/// that holds nothing but zeros.
pub proof fn law_voidout_zeroes(mutation: Voidout, before: Seq<u8>, after: Seq<u8>)
    requires
        mutation.effect(before, after),
    ensures
        after.len() == before.len(),
        forall|i: int| 0 <= i < after.len() ==> after[i] == 0u8,
{
}

} // verus!
