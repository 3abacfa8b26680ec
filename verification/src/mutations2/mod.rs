//! The catalog of byte-buffer mutations and what every mutation offers.

pub mod global;
pub mod local;

use crate::config::error::{failure, outcome, ConfigError, Failure, Fault};
use crate::text::same_text;
use global::{Shift, Swap};
use local::{Accelerate, Chaos, Compress, Expand, Increment, Loop, Reverse, Shuffle, Voidout};
use vstd::prelude::*;
use vstd::string::StringExecFns;

verus! {

/// Where a mutation acts: on a window the driver places, or on the whole
/// buffer.
#[derive(Debug, Clone, Copy, PartialEq, Eq, Structural)]
pub enum AreaType {
    Local,
    Global,
}

/// A byte-buffer transform built from resolved parameters.
///
/// `bend` works in place on exactly the bytes it is handed. What it may do to
/// them is the relation `effect`; which window lengths it can work on is
/// `fits`, and `accepts` decides that at run time so a caller can refuse a
/// window instead of handing it over.
pub trait Mutation: Sync + Send {
    /// The variant's name as it appears in a configuration.
    spec fn name(&self) -> Seq<char>;

    /// The bracketed summary of the variant's own parameters.
    spec fn details(&self) -> Seq<char>;

    /// Whether the driver places a window or hands over the whole buffer.
    spec fn area(&self) -> AreaType;

    /// The configured window length in bytes.
    spec fn chunk(&self) -> nat;

    /// Whether a window of `len` bytes meets the variant's structural
    /// requirement.
    spec fn fits(&self, len: nat) -> bool;

    /// Whether `after` is a possible outcome of bending `before`.
    spec fn effect(&self, before: Seq<u8>, after: Seq<u8>) -> bool;

    /// The variant's name.
    fn get_name(&self) -> (name: String)
        ensures
            name@ == self.name(),
    ;

    /// The variant's own parameters, in square brackets.
    fn get_details(&self) -> (details: String)
        ensures
            details@ == self.details(),
    ;

    /// Transforms `to_mutate` in place. Nothing outside it is read or
    /// written, and its length stays.
    fn bend(&self, to_mutate: &mut [u8])
        requires
            self.fits(old(to_mutate)@.len()),
        ensures
            final(to_mutate)@.len() == old(to_mutate)@.len(),
            self.effect(old(to_mutate)@, final(to_mutate)@),
    ;

    /// Whether the mutation is local or global.
    fn get_type(&self) -> (area: AreaType)
        ensures
            area == self.area(),
    ;

    /// The configured window length in bytes.
    fn get_chunksize(&self) -> (chunksize: usize)
        ensures
            chunksize == self.chunk(),
    ;

    /// Decides `fits` for a window of `len` bytes.
    fn accepts(&self, len: usize) -> (ok: bool)
        ensures
            ok == self.fits(len as nat),
    ;
}

/// The names a mutation can go by in a configuration.
#[derive(Debug, Clone, Copy, PartialEq, Eq, Structural)]
pub enum MutationKind {
    Chaos,
    Expand,
    Compress,
    Accelerate,
    Increment,
    Loop,
    Multiply,
    Reverse,
    Shuffle,
    Voidout,
    Swap,
    Shift,
}

impl MutationKind {
    /// The kind that `name` names, if any.
    pub open spec fn named(name: Seq<char>) -> Option<MutationKind> {
        if name == "chaos"@ {
            Some(MutationKind::Chaos)
        } else if name == "expand"@ {
            Some(MutationKind::Expand)
        } else if name == "compress"@ {
            Some(MutationKind::Compress)
        } else if name == "accelerate"@ {
            Some(MutationKind::Accelerate)
        } else if name == "increment"@ {
            Some(MutationKind::Increment)
        } else if name == "loop"@ {
            Some(MutationKind::Loop)
        } else if name == "multiply"@ {
            Some(MutationKind::Multiply)
        } else if name == "reverse"@ {
            Some(MutationKind::Reverse)
        } else if name == "shuffle"@ {
            Some(MutationKind::Shuffle)
        } else if name == "voidout"@ {
            Some(MutationKind::Voidout)
        } else if name == "swap"@ {
            Some(MutationKind::Swap)
        } else if name == "shift"@ {
            Some(MutationKind::Shift)
        } else {
            None
        }
    }

    /// The kind that `value` names; any other text is an unknown mutation,
    /// reported under that text.
    pub fn from(value: &str) -> (kind: Result<MutationKind, ConfigError>)
        ensures
            outcome(kind) == match MutationKind::named(value@) {
                Some(k) => Ok::<MutationKind, Failure>(k),
                None => Err(failure(Fault::UnknownMutation, value@)),
            },
    {
        let name = String::from_str(value);
        if same_text(&name, "chaos") {
            Ok(MutationKind::Chaos)
        } else if same_text(&name, "expand") {
            Ok(MutationKind::Expand)
        } else if same_text(&name, "compress") {
            Ok(MutationKind::Compress)
        } else if same_text(&name, "accelerate") {
            Ok(MutationKind::Accelerate)
        } else if same_text(&name, "increment") {
            Ok(MutationKind::Increment)
        } else if same_text(&name, "loop") {
            Ok(MutationKind::Loop)
        } else if same_text(&name, "multiply") {
            Ok(MutationKind::Multiply)
        } else if same_text(&name, "reverse") {
            Ok(MutationKind::Reverse)
        } else if same_text(&name, "shuffle") {
            Ok(MutationKind::Shuffle)
        } else if same_text(&name, "voidout") {
            Ok(MutationKind::Voidout)
        } else if same_text(&name, "swap") {
            Ok(MutationKind::Swap)
        } else if same_text(&name, "shift") {
            Ok(MutationKind::Shift)
        } else {
            Err(ConfigError::new(Fault::UnknownMutation, value))
        }
    }
}

/// A mutation of any variant the library applies itself, built from resolved
/// parameters. It behaves as the variant it holds.
#[derive(Debug, Clone, Copy)]
pub enum Instance {
    Chaos(Chaos),
    Expand(Expand),
    Compress(Compress),
    Accelerate(Accelerate),
    Increment(Increment),
    Loop(Loop),
    Reverse(Reverse),
    Shuffle(Shuffle),
    Voidout(Voidout),
    Swap(Swap),
    Shift(Shift),
}

impl Mutation for Instance {
    open spec fn name(&self) -> Seq<char> {
        match self {
            Instance::Chaos(m) => m.name(),
            Instance::Expand(m) => m.name(),
            Instance::Compress(m) => m.name(),
            Instance::Accelerate(m) => m.name(),
            Instance::Increment(m) => m.name(),
            Instance::Loop(m) => m.name(),
            Instance::Reverse(m) => m.name(),
            Instance::Shuffle(m) => m.name(),
            Instance::Voidout(m) => m.name(),
            Instance::Swap(m) => m.name(),
            Instance::Shift(m) => m.name(),
        }
    }

    open spec fn details(&self) -> Seq<char> {
        match self {
            Instance::Chaos(m) => m.details(),
            Instance::Expand(m) => m.details(),
            Instance::Compress(m) => m.details(),
            Instance::Accelerate(m) => m.details(),
            Instance::Increment(m) => m.details(),
            Instance::Loop(m) => m.details(),
            Instance::Reverse(m) => m.details(),
            Instance::Shuffle(m) => m.details(),
            Instance::Voidout(m) => m.details(),
            Instance::Swap(m) => m.details(),
            Instance::Shift(m) => m.details(),
        }
    }

    open spec fn area(&self) -> AreaType {
        match self {
            Instance::Chaos(m) => m.area(),
            Instance::Expand(m) => m.area(),
            Instance::Compress(m) => m.area(),
            Instance::Accelerate(m) => m.area(),
            Instance::Increment(m) => m.area(),
            Instance::Loop(m) => m.area(),
            Instance::Reverse(m) => m.area(),
            Instance::Shuffle(m) => m.area(),
            Instance::Voidout(m) => m.area(),
            Instance::Swap(m) => m.area(),
            Instance::Shift(m) => m.area(),
        }
    }

    open spec fn chunk(&self) -> nat {
        match self {
            Instance::Chaos(m) => m.chunk(),
            Instance::Expand(m) => m.chunk(),
            Instance::Compress(m) => m.chunk(),
            Instance::Accelerate(m) => m.chunk(),
            Instance::Increment(m) => m.chunk(),
            Instance::Loop(m) => m.chunk(),
            Instance::Reverse(m) => m.chunk(),
            Instance::Shuffle(m) => m.chunk(),
            Instance::Voidout(m) => m.chunk(),
            Instance::Swap(m) => m.chunk(),
            Instance::Shift(m) => m.chunk(),
        }
    }

    open spec fn fits(&self, len: nat) -> bool {
        match self {
            Instance::Chaos(m) => m.fits(len),
            Instance::Expand(m) => m.fits(len),
            Instance::Compress(m) => m.fits(len),
            Instance::Accelerate(m) => m.fits(len),
            Instance::Increment(m) => m.fits(len),
            Instance::Loop(m) => m.fits(len),
            Instance::Reverse(m) => m.fits(len),
            Instance::Shuffle(m) => m.fits(len),
            Instance::Voidout(m) => m.fits(len),
            Instance::Swap(m) => m.fits(len),
            Instance::Shift(m) => m.fits(len),
        }
    }

    open spec fn effect(&self, before: Seq<u8>, after: Seq<u8>) -> bool {
        match self {
            Instance::Chaos(m) => m.effect(before, after),
            Instance::Expand(m) => m.effect(before, after),
            Instance::Compress(m) => m.effect(before, after),
            Instance::Accelerate(m) => m.effect(before, after),
            Instance::Increment(m) => m.effect(before, after),
            Instance::Loop(m) => m.effect(before, after),
            Instance::Reverse(m) => m.effect(before, after),
            Instance::Shuffle(m) => m.effect(before, after),
            Instance::Voidout(m) => m.effect(before, after),
            Instance::Swap(m) => m.effect(before, after),
            Instance::Shift(m) => m.effect(before, after),
        }
    }

    fn get_name(&self) -> (name: String) {
        match self {
            Instance::Chaos(m) => m.get_name(),
            Instance::Expand(m) => m.get_name(),
            Instance::Compress(m) => m.get_name(),
            Instance::Accelerate(m) => m.get_name(),
            Instance::Increment(m) => m.get_name(),
            Instance::Loop(m) => m.get_name(),
            Instance::Reverse(m) => m.get_name(),
            Instance::Shuffle(m) => m.get_name(),
            Instance::Voidout(m) => m.get_name(),
            Instance::Swap(m) => m.get_name(),
            Instance::Shift(m) => m.get_name(),
        }
    }

    fn get_details(&self) -> (details: String) {
        match self {
            Instance::Chaos(m) => m.get_details(),
            Instance::Expand(m) => m.get_details(),
            Instance::Compress(m) => m.get_details(),
            Instance::Accelerate(m) => m.get_details(),
            Instance::Increment(m) => m.get_details(),
            Instance::Loop(m) => m.get_details(),
            Instance::Reverse(m) => m.get_details(),
            Instance::Shuffle(m) => m.get_details(),
            Instance::Voidout(m) => m.get_details(),
            Instance::Swap(m) => m.get_details(),
            Instance::Shift(m) => m.get_details(),
        }
    }

    fn bend(&self, to_mutate: &mut [u8]) {
        match self {
            Instance::Chaos(m) => m.bend(to_mutate),
            Instance::Expand(m) => m.bend(to_mutate),
            Instance::Compress(m) => m.bend(to_mutate),
            Instance::Accelerate(m) => m.bend(to_mutate),
            Instance::Increment(m) => m.bend(to_mutate),
            Instance::Loop(m) => m.bend(to_mutate),
            Instance::Reverse(m) => m.bend(to_mutate),
            Instance::Shuffle(m) => m.bend(to_mutate),
            Instance::Voidout(m) => m.bend(to_mutate),
            Instance::Swap(m) => m.bend(to_mutate),
            Instance::Shift(m) => m.bend(to_mutate),
        }
    }

    fn get_type(&self) -> (area: AreaType) {
        match self {
            Instance::Chaos(m) => m.get_type(),
            Instance::Expand(m) => m.get_type(),
            Instance::Compress(m) => m.get_type(),
            Instance::Accelerate(m) => m.get_type(),
            Instance::Increment(m) => m.get_type(),
            Instance::Loop(m) => m.get_type(),
            Instance::Reverse(m) => m.get_type(),
            Instance::Shuffle(m) => m.get_type(),
            Instance::Voidout(m) => m.get_type(),
            Instance::Swap(m) => m.get_type(),
            Instance::Shift(m) => m.get_type(),
        }
    }

    fn get_chunksize(&self) -> (chunksize: usize) {
        match self {
            Instance::Chaos(m) => m.get_chunksize(),
            Instance::Expand(m) => m.get_chunksize(),
            Instance::Compress(m) => m.get_chunksize(),
            Instance::Accelerate(m) => m.get_chunksize(),
            Instance::Increment(m) => m.get_chunksize(),
            Instance::Loop(m) => m.get_chunksize(),
            Instance::Reverse(m) => m.get_chunksize(),
            Instance::Shuffle(m) => m.get_chunksize(),
            Instance::Voidout(m) => m.get_chunksize(),
            Instance::Swap(m) => m.get_chunksize(),
            Instance::Shift(m) => m.get_chunksize(),
        }
    }

    fn accepts(&self, len: usize) -> (ok: bool) {
        match self {
            Instance::Chaos(m) => m.accepts(len),
            Instance::Expand(m) => m.accepts(len),
            Instance::Compress(m) => m.accepts(len),
            Instance::Accelerate(m) => m.accepts(len),
            Instance::Increment(m) => m.accepts(len),
            Instance::Loop(m) => m.accepts(len),
            Instance::Reverse(m) => m.accepts(len),
            Instance::Shuffle(m) => m.accepts(len),
            Instance::Voidout(m) => m.accepts(len),
            Instance::Swap(m) => m.accepts(len),
            Instance::Shift(m) => m.accepts(len),
        }
    }
}

} // verus!
