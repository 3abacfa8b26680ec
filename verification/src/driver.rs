//! Applying a list of mutations to a buffer, in order.

use crate::mutations2::{AreaType, Mutation};
use crate::random::draw_index;
use vstd::prelude::*;

verus! {

/// Why the driver stopped: the mutation at `index` cannot work on a buffer of
/// `length` bytes. The mutations before it have been applied, it and those
/// after it have not.
#[derive(Debug, Clone, Copy, PartialEq, Eq, Structural)]
pub struct Rejection {
    pub index: usize,
    pub length: usize,
}

/// Whether a window of `chunk` bytes can be placed in a buffer of `len`
/// bytes: it must hold at least one byte and be shorter than the buffer.
pub open spec fn placeable(chunk: nat, len: nat) -> bool {
    1 <= chunk < len
}

/// Whether `mutation` can be applied to a buffer of `len` bytes: a global one
/// must accept the buffer, a local one needs a window that can be placed in
/// the buffer and must accept that window.
pub open spec fn applicable<M: Mutation>(mutation: &M, len: nat) -> bool {
    match mutation.area() {
        AreaType::Global => mutation.fits(len),
        AreaType::Local => placeable(mutation.chunk(), len) && mutation.fits(mutation.chunk()),
    }
}

/// Whether `after` is `before` with the window of `mutation` at offset
/// `start` bent and every byte outside that window untouched.
pub open spec fn bent_at<M: Mutation>(
    mutation: &M,
    before: Seq<u8>,
    after: Seq<u8>,
    start: int,
) -> bool {
    let end = start + mutation.chunk();
    &&& after.len() == before.len()
    &&& after.subrange(0, start) == before.subrange(0, start)
    &&& after.subrange(end, after.len() as int) == before.subrange(end, before.len() as int)
    &&& mutation.effect(before.subrange(start, end), after.subrange(start, end))
}

/// Whether `after` is a possible result of applying `mutation` to `before`.
///
/// A global mutation bends the whole buffer. A local one bends a window of
/// its chunk size that starts at some offset `s` with `0 <= s` and
/// `s + chunk < len`.
pub open spec fn step<M: Mutation>(mutation: &M, before: Seq<u8>, after: Seq<u8>) -> bool {
    &&& applicable(mutation, before.len())
    &&& after.len() == before.len()
    &&& match mutation.area() {
        AreaType::Global => mutation.effect(before, after),
        AreaType::Local => exists|start: int|
            0 <= start < before.len() - mutation.chunk() && #[trigger] bent_at(
                mutation,
                before,
                after,
                start,
            ),
    }
}

/// Whether `trace` lists the buffer before the first of `mutations` and after
/// each of them, every entry a possible result of applying the next mutation
/// to the entry before it.
pub open spec fn follows<M: Mutation>(mutations: Seq<M>, trace: Seq<Seq<u8>>) -> bool {
    &&& trace.len() == mutations.len() + 1
    &&& forall|i: int|
        0 <= i < mutations.len() ==> step(&#[trigger] mutations[i], trace[i], trace[i + 1])
}

/// Whether `after` is a possible result of applying `mutations` to `before`
/// one after the other in list order, each to the result of the one before
/// it.
pub open spec fn run<M: Mutation>(mutations: Seq<M>, before: Seq<u8>, after: Seq<u8>) -> bool {
    exists|trace: Seq<Seq<u8>>|
        #[trigger] follows(mutations, trace) && trace.first() == before && trace.last() == after
}

/// Whether every one of `mutations` can be applied to a buffer of `len`
/// bytes.
pub open spec fn all_applicable<M: Mutation>(mutations: Seq<M>, len: nat) -> bool {
    forall|i: int| 0 <= i < mutations.len() ==> applicable(&#[trigger] mutations[i], len)
}

/// Whether applying `mutations` to a buffer of `len` bytes draws nothing from
/// the driver's generator: every one of them is global, or cannot be applied
/// and so ends the run before a window is placed for it. An empty list draws
/// nothing.
pub open spec fn drawless<M: Mutation>(mutations: Seq<M>, len: nat) -> bool {
    forall|i: int|
        0 <= i < mutations.len() ==> (#[trigger] mutations[i]).area() == AreaType::Global
            || !applicable(&mutations[i], len)
}

/// Draws the offset at which a window of `chunksize` bytes starts in a
/// buffer of `bytesize` bytes: some `s` with `0 <= s < bytesize - chunksize`,
/// so that the window `[s, s + chunksize)` lies inside the buffer. An empty
/// window is not placed, and a buffer that is not longer than the window has
/// no such offset; nothing is drawn for either.
pub fn chunk_start(rng: &mut rand::rngs::StdRng, bytesize: usize, chunksize: usize) -> (start:
    Option<usize>)
    ensures
        start is Some <==> placeable(chunksize as nat, bytesize as nat),
        start matches Some(s) ==> s + chunksize < bytesize,
        start is None ==> *final(rng) == *old(rng),
{
    if chunksize == 0 || chunksize >= bytesize {
        None
    } else {
        Some(draw_index(rng, 0, bytesize - chunksize))
    }
}

/// Applies one mutation to the buffer, or refuses it. The generator is used
/// for nothing but the window of a local mutation that is applied.
pub fn apply_one<M: Mutation>(
    bytes: &mut [u8],
    rng: &mut rand::rngs::StdRng,
    mutation: &M,
) -> (applied: bool)
    ensures
        applied == applicable(mutation, old(bytes)@.len()),
        applied ==> step(mutation, old(bytes)@, final(bytes)@),
        !applied ==> final(bytes)@ == old(bytes)@,
        mutation.area() == AreaType::Global || !applied ==> *final(rng) == *old(rng),
{
    let bytesize: usize = bytes.len();
    match mutation.get_type() {
        AreaType::Global => {
            if !mutation.accepts(bytesize) {
                return false;
            }
            mutation.bend(bytes);
            true
        },
        AreaType::Local => {
            let chunksize: usize = mutation.get_chunksize();
            if !mutation.accepts(chunksize) {
                return false;
            }
            let chunkstart: usize = match chunk_start(rng, bytesize, chunksize) {
                Some(start) => start,
                None => { return false; },
            };
            let ghost before = bytes@;
            let (_head, rest) = bytes.split_at_mut(chunkstart);
            let (window, _tail) = rest.split_at_mut(chunksize);
            mutation.bend(window);
            proof {
                let after = bytes@;
                let end = chunkstart + chunksize;
                assert(after.subrange(0, chunkstart as int) =~= before.subrange(
                    0,
                    chunkstart as int,
                ));
                assert(after.subrange(end, after.len() as int) =~= before.subrange(
                    end,
                    before.len() as int,
                ));
                assert(before.subrange(chunkstart as int, end) =~= before.subrange(
                    chunkstart as int,
                    bytesize as int,
                ).subrange(0, chunksize as int));
                assert(after.subrange(chunkstart as int, end) =~= window@);
                assert(bent_at(mutation, before, after, chunkstart as int));
            }
            true
        },
    }
}

/// Applies `mutations` to `bytes` in list order, each to what the ones
/// before it left.
///
/// Every local mutation gets a window of its chunk size at a random offset
/// `s` with `0 <= s` and `s + chunk < len`; every global one gets the whole
/// buffer. The first mutation that cannot be applied stops the run: it is
/// not invoked, and the error names it. The generator is used for nothing
/// but the windows of the local mutations that are applied.
pub fn mutate_bytes<M: Mutation>(
    bytes: &mut [u8],
    rng: &mut rand::rngs::StdRng,
    mutations: &Vec<M>,
) -> (done: Result<(), Rejection>)
    ensures
        final(bytes)@.len() == old(bytes)@.len(),
        drawless(mutations@, old(bytes)@.len()) ==> *final(rng) == *old(rng),
        match done {
            Ok(()) => {
                &&& all_applicable(mutations@, old(bytes)@.len())
                &&& run(mutations@, old(bytes)@, final(bytes)@)
            },
            Err(rejection) => {
                &&& rejection.index < mutations@.len()
                &&& rejection.length == old(bytes)@.len()
                &&& all_applicable(mutations@.take(rejection.index as int), old(bytes)@.len())
                &&& !applicable(&mutations@[rejection.index as int], old(bytes)@.len())
                &&& run(mutations@.take(rejection.index as int), old(bytes)@, final(bytes)@)
            },
        },
{
    let bytesize: usize = bytes.len();
    let count: usize = mutations.len();
    let ghost before = bytes@;
    let ghost mut trace: Seq<Seq<u8>> = seq![before];
    let mut i: usize = 0;
    while i < count
        invariant
            i <= count,
            count == mutations@.len(),
            before == old(bytes)@,
            bytes@.len() == bytesize,
            before.len() == bytesize,
            drawless(mutations@, bytesize as nat) ==> *rng == *old(rng),
            all_applicable(mutations@.take(i as int), bytesize as nat),
            follows(mutations@.take(i as int), trace),
            trace.first() == before,
            trace.last() == bytes@,
        decreases count - i,
    {
        let applied = apply_one(bytes, rng, &mutations[i]);
        if !applied {
            return Err(Rejection { index: i, length: bytesize });
        }
        proof {
            let done = mutations@.take(i as int);
            let next = mutations@.take(i + 1);
            let longer = trace.push(bytes@);
            assert forall|k: int| 0 <= k < next.len() implies applicable(
                &#[trigger] next[k],
                bytesize as nat,
            ) && step(&next[k], longer[k], longer[k + 1]) by {
                if k < i {
                    assert(done[k] == next[k]);
                }
            }
            trace = longer;
        }
        i += 1;
    }
    assert(mutations@.take(count as int) =~= mutations@);
    Ok(())
}

/// Applying two lists of mutations one after the other is applying their
/// concatenation.
///
/// `after` is a possible result of `first + second` on `before` exactly when
/// some `mid` is a possible result of `first` on `before` and `after` is a
/// possible result of `second` on `mid`. Mutations are never reordered.
pub proof fn law_run_concat<M: Mutation>(
    first: Seq<M>,
    second: Seq<M>,
    before: Seq<u8>,
    after: Seq<u8>,
)
    ensures
        run(first + second, before, after) <==> exists|mid: Seq<u8>|
            #[trigger] run(first, before, mid) && run(second, mid, after),
{
    let whole = first + second;
    let cut = first.len() as int;
    if run(whole, before, after) {
        let trace = choose|trace: Seq<Seq<u8>>|
            #[trigger] follows(whole, trace) && trace.first() == before && trace.last() == after;
        let left = trace.subrange(0, cut + 1);
        let right = trace.subrange(cut, trace.len() as int);
        let mid = trace[cut];
        assert forall|i: int| 0 <= i < first.len() implies step(
            &#[trigger] first[i],
            left[i],
            left[i + 1],
        ) by {
            assert(whole[i] == first[i]);
        }
        assert forall|i: int| 0 <= i < second.len() implies step(
            &#[trigger] second[i],
            right[i],
            right[i + 1],
        ) by {
            assert(whole[cut + i] == second[i]);
        }
        assert(follows(first, left) && left.first() == before && left.last() == mid);
        assert(follows(second, right) && right.first() == mid && right.last() == after);
        assert(run(first, before, mid) && run(second, mid, after));
    }
    if exists|mid: Seq<u8>| #[trigger] run(first, before, mid) && run(second, mid, after) {
        let mid = choose|mid: Seq<u8>|
            #[trigger] run(first, before, mid) && run(second, mid, after);
        let left = choose|trace: Seq<Seq<u8>>|
            #[trigger] follows(first, trace) && trace.first() == before && trace.last() == mid;
        let right = choose|trace: Seq<Seq<u8>>|
            #[trigger] follows(second, trace) && trace.first() == mid && trace.last() == after;
        let trace = left + right.drop_first();
        assert forall|i: int| 0 <= i < whole.len() implies step(
            &#[trigger] whole[i],
            trace[i],
            trace[i + 1],
        ) by {
            if i < cut {
                assert(whole[i] == first[i]);
            } else {
                assert(whole[i] == second[i - cut]);
            }
        }
        assert(follows(whole, trace) && trace.first() == before && trace.last() == after);
    }
}

/// Applying the list `[a, b]` is applying `a` and then applying `b` to what
/// `a` left.
pub proof fn law_pair_in_order<M: Mutation>(a: M, b: M, before: Seq<u8>, after: Seq<u8>)
    ensures
        run(seq![a, b], before, after) <==> exists|mid: Seq<u8>|
            #[trigger] step(&a, before, mid) && step(&b, mid, after),
{
    let pair = seq![a, b];
    if run(pair, before, after) {
        let trace = choose|trace: Seq<Seq<u8>>|
            #[trigger] follows(pair, trace) && trace.first() == before && trace.last() == after;
        assert(step(&pair[0], before, trace[1]) && step(&pair[1], trace[1], after));
    }
    if exists|mid: Seq<u8>| #[trigger] step(&a, before, mid) && step(&b, mid, after) {
        let mid = choose|mid: Seq<u8>| #[trigger] step(&a, before, mid) && step(&b, mid, after);
        let trace = seq![before, mid, after];
        assert(follows(pair, trace) && trace.first() == before && trace.last() == after);
    }
}

/// The window of a local mutation lies inside the buffer: it starts at an
/// offset `s` with `0 <= s` and `s + chunk <= len`.
pub proof fn law_window_inside<M: Mutation>(mutation: M, before: Seq<u8>, after: Seq<u8>)
    requires
        mutation.area() == AreaType::Local,
        step(&mutation, before, after),
    ensures
        exists|start: int|
            0 <= start && start + mutation.chunk() <= before.len() && #[trigger] bent_at(
                &mutation,
                before,
                after,
                start,
            ),
{
    let start = choose|start: int|
        0 <= start < before.len() - mutation.chunk() && #[trigger] bent_at(
            &mutation,
            before,
            after,
            start,
        );
    assert(0 <= start && start + mutation.chunk() <= before.len() && bent_at(
        &mutation,
        before,
        after,
        start,
    ));
}

/// A local mutation whose chunk is empty or not shorter than the buffer is
/// never applied: nothing is a possible result of it.
pub proof fn law_unplaceable_is_rejected<M: Mutation>(mutation: M, before: Seq<u8>, after: Seq<u8>)
    requires
        mutation.area() == AreaType::Local,
        mutation.chunk() == 0 || mutation.chunk() >= before.len(),
    ensures
        !applicable(&mutation, before.len()),
        !step(&mutation, before, after),
{
}

/// A list of global mutations draws nothing from the driver's generator,
/// and neither does an empty list.
pub proof fn law_globals_draw_nothing<M: Mutation>(mutations: Seq<M>, len: nat)
    requires
        forall|i: int|
            0 <= i < mutations.len() ==> (#[trigger] mutations[i]).area() == AreaType::Global,
    ensures
        drawless(mutations, len),
{
}

} // verus!
