//! What can be wrong with a configuration, and how it is reported.

use crate::text::{contains_text, decimal, decimal_text, occurs_in};
use vstd::prelude::*;
use vstd::string::StringExecFns;

verus! {

/// The kind of a configuration fault.
#[derive(Debug, Clone, Copy, PartialEq, Eq, Structural)]
pub enum Fault {
    /// A required key is absent.
    Missing,
    /// The node must be a mapping.
    NotMap,
    /// The node must be a sequence.
    NotList,
    /// The node must be text.
    NotText,
    /// The node must be a whole number above zero.
    NotCount,
    /// The node must be `true` or `false`.
    NotFlag,
    /// Both `source.url` and `source.file` are given.
    BothSources,
    /// Neither `source.url` nor `source.file` is given.
    NoSource,
    /// `mode` is text, but none of the known modes.
    UnknownMode,
    /// A default was needed and the document has no `defaults`.
    NoDefaults,
    /// A property is neither set on the mutation nor among the defaults.
    NoDefault,
    /// A mutation entry must have exactly one key; it has `found`.
    KeyCount { found: usize },
    /// The key of a mutation entry is not text.
    NameNotText,
    /// The key of a mutation entry names no mutation.
    UnknownMutation,
    /// A range lacks `min` or `max`.
    BoundMissing,
    /// A bound of a range is not a whole number that is not negative.
    BoundKind,
    /// A list of choices holds an element that is not a whole number that is
    /// not negative.
    ElementKind,
    /// A bound of a range of real numbers is not a number.
    BoundNotNumber,
    /// A list of real-valued choices holds an element that is not a number.
    ElementNotNumber,
    /// A range whose `min` is not below its `max` holds no value.
    EmptyRange,
    /// A list without elements offers no choice.
    EmptyList,
    /// The node is neither a number, nor a range, nor a list.
    Unreadable,
}

/// A configuration fault and the path of the node it is about.
#[derive(Debug)]
pub struct ConfigError {
    pub fault: Fault,
    pub path: String,
}

/// A `ConfigError` as contracts speak of it.
pub struct Failure {
    pub fault: Fault,
    pub path: Seq<char>,
}

impl View for ConfigError {
    type V = Failure;

    open spec fn view(&self) -> Failure {
        Failure { fault: self.fault, path: self.path@ }
    }
}

/// A parser's result with the error, if any, taken by its view.
pub open spec fn outcome<T>(result: Result<T, ConfigError>) -> Result<T, Failure> {
    match result {
        Ok(value) => Ok(value),
        Err(error) => Err(error@),
    }
}

/// The failure of kind `fault` at `path`.
pub open spec fn failure(fault: Fault, path: Seq<char>) -> Failure {
    Failure { fault, path }
}

/// The text that reports `fault` at `path`. Every report names the path
/// between square brackets.
pub open spec fn report_text(fault: Fault, path: Seq<char>) -> Seq<char> {
    let named = "["@ + path + "]"@;
    match fault {
        Fault::Missing => named + " was not present. is required."@,
        Fault::NotMap => named + " must be a map. wasn't."@,
        Fault::NotList => named + " must be a list. wasn't."@,
        Fault::NotText => named + " must be a string. wasn't."@,
        Fault::NotCount => named + " must be a positive whole number. wasn't."@,
        Fault::NotFlag => named + " must be true or false. wasn't."@,
        Fault::BothSources => named
            + " holds both [source.url] and [source.file]. exactly one must be specified."@,
        Fault::NoSource => named
            + " holds neither [source.url] nor [source.file]. at least one is needed."@,
        Fault::UnknownMode => named
            + " must be one of the following:\n\t- image\n\t- bytes\n\t- memory_map"@,
        Fault::NoDefaults => "tried to extract "@ + named
            + " from defaults, but [defaults] couldn't be found."@,
        Fault::NoDefault => if occurs_in(path, "chunksize"@) {
            "tried to extract [chunksize] or "@ + named
                + " from defaults due to missing setting, but it couldn't be found."@
        } else {
            "tried to extract "@ + named
                + " from defaults due to missing setting, but it couldn't be found."@
        },
        Fault::KeyCount { found } => named
            + " only one key [the mutation name] is accepted by mutation - found "@
            + decimal_text(found as nat) + "."@,
        Fault::NameNotText => named + " an effect must start with its name as a string."@,
        Fault::UnknownMutation => named + " is not a valid mutation."@,
        Fault::BoundMissing => "expected "@ + named + " due to mapping - not present."@,
        Fault::BoundKind => named + " must be a positive integer - wasn't."@,
        Fault::ElementKind => named
            + " must have elements who are a positive integer. weren't."@,
        Fault::BoundNotNumber => named + " must be a number - wasn't."@,
        Fault::ElementNotNumber => named + " must have elements who are a number. weren't."@,
        Fault::EmptyRange => named + " must have its min below its max. hadn't."@,
        Fault::EmptyList => named + " must have at least one element. hadn't."@,
        Fault::Unreadable => named + " must be a number, a range or a list. wasn't."@,
    }
}

impl ConfigError {
    pub fn new(fault: Fault, path: &str) -> (error: ConfigError)
        ensures
            error@ == failure(fault, path@),
    {
        ConfigError { fault, path: String::from_str(path) }
    }

    /// The report of this error, naming its path.
    pub fn message(&self) -> (text: String)
        ensures
            text@ == report_text(self.fault, self.path@),
    {
        let named = String::from_str("[").concat(self.path.as_str()).concat("]");
        match self.fault {
            Fault::Missing => named.concat(" was not present. is required."),
            Fault::NotMap => named.concat(" must be a map. wasn't."),
            Fault::NotList => named.concat(" must be a list. wasn't."),
            Fault::NotText => named.concat(" must be a string. wasn't."),
            Fault::NotCount => named.concat(" must be a positive whole number. wasn't."),
            Fault::NotFlag => named.concat(" must be true or false. wasn't."),
            Fault::BothSources => named.concat(
                " holds both [source.url] and [source.file]. exactly one must be specified.",
            ),
            Fault::NoSource => named.concat(
                " holds neither [source.url] nor [source.file]. at least one is needed.",
            ),
            Fault::UnknownMode => named.concat(
                " must be one of the following:\n\t- image\n\t- bytes\n\t- memory_map",
            ),
            Fault::NoDefaults => String::from_str("tried to extract ").concat(
                named.as_str(),
            ).concat(" from defaults, but [defaults] couldn't be found."),
            Fault::NoDefault => {
                let lead = if contains_text(self.path.as_str(), "chunksize") {
                    String::from_str("tried to extract [chunksize] or ")
                } else {
                    String::from_str("tried to extract ")
                };
                lead.concat(named.as_str()).concat(
                    " from defaults due to missing setting, but it couldn't be found.",
                )
            },
            Fault::KeyCount { found } => named.concat(
                " only one key [the mutation name] is accepted by mutation - found ",
            ).concat(decimal(found).as_str()).concat("."),
            Fault::NameNotText => named.concat(
                " an effect must start with its name as a string.",
            ),
            Fault::UnknownMutation => named.concat(" is not a valid mutation."),
            Fault::BoundMissing => String::from_str("expected ").concat(named.as_str()).concat(
                " due to mapping - not present.",
            ),
            Fault::BoundKind => named.concat(" must be a positive integer - wasn't."),
            Fault::ElementKind => named.concat(
                " must have elements who are a positive integer. weren't.",
            ),
            Fault::BoundNotNumber => named.concat(" must be a number - wasn't."),
            Fault::ElementNotNumber => named.concat(
                " must have elements who are a number. weren't.",
            ),
            Fault::EmptyRange => named.concat(" must have its min below its max. hadn't."),
            Fault::EmptyList => named.concat(" must have at least one element. hadn't."),
            Fault::Unreadable => named.concat(" must be a number, a range or a list. wasn't."),
        }
    }
}

} // verus!
