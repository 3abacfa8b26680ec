//! What the output loop decides for each run: how the buffer is handled,
//! which extension the outputs carry and what each output file is called.

use crate::config::parser::{AppCfg, Features};
use crate::text::{decimal, decimal_text};
use vstd::prelude::*;
use vstd::string::StringExecFns;

verus! {

/// How the buffer is handled from one output to the next.
#[derive(Debug, Clone, Copy, PartialEq, Eq, Structural)]
pub enum Strategy {
    /// Every output mutates a fresh copy of the source.
    Independent,
    /// Every output mutates the one buffer that the output before it left.
    Sequential,
    /// Every output is written out first and then mutated through a memory
    /// map of its file.
    MemoryMapped,
}

/// The strategy the flags select: the memory map where it is switched on,
/// else the sequential buffer where that is switched on, else fresh copies.
pub open spec fn strategy_of(memory_map: bool, sequential: bool) -> Strategy {
    if memory_map {
        Strategy::MemoryMapped
    } else if sequential {
        Strategy::Sequential
    } else {
        Strategy::Independent
    }
}

/// The name of output `index`: `<path>-<index>.<extension>`, or
/// `<path>-<index>` where the outputs carry no extension.
pub open spec fn output_name(path: Seq<char>, index: nat, extension: Option<Seq<char>>) -> Seq<
    char,
> {
    match extension {
        Some(extension) => path + "-"@ + decimal_text(index) + "."@ + extension,
        None => path + "-"@ + decimal_text(index),
    }
}

impl Features {
    /// The strategy these features select.
    pub fn strategy(&self) -> (strategy: Strategy)
        ensures
            strategy == strategy_of(self.memory_map, self.sequential),
    {
        if self.memory_map {
            Strategy::MemoryMapped
        } else if self.sequential {
            Strategy::Sequential
        } else {
            Strategy::Independent
        }
    }
}

/// The extension of the outputs: the format of the conversion where one is
/// asked for, else the extension the configuration gives, if any.
pub fn output_extension<'a>(features: &'a Features, app_cfg: &'a AppCfg) -> (extension: Option<
    &'a String,
>)
    ensures
        match extension {
            Some(text) => match features@.pre_convert {
                Some(format) => text@ == format,
                None => app_cfg@.output_extension == Some(text@),
            },
            None => features@.pre_convert is None && app_cfg@.output_extension is None,
        },
{
    match &features.pre_convert {
        Some(convert) => Some(&convert.format),
        None => match &app_cfg.output_extension {
            Some(extension) => Some(extension),
            None => None,
        },
    }
}

/// The name of the file that output `index` is written to.
pub fn output_file_name(path: &str, index: usize, extension: Option<&str>) -> (name: String)
    ensures
        name@ == output_name(
            path@,
            index as nat,
            match extension {
                Some(extension) => Some(extension@),
                None => None,
            },
        ),
{
    let numbered = String::from_str(path).concat("-").concat(decimal(index).as_str());
    match extension {
        Some(extension) => numbered.concat(".").concat(extension),
        None => numbered,
    }
}

} // verus!
