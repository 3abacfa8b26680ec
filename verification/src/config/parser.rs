//! Turning a configuration tree into application settings and mutations.
//!
//! Every parser either returns what the tree says or the first fault it meets,
//! with the path of the offending node. Nothing is defaulted silently.

use crate::config::error::{failure, outcome, ConfigError, Failure, Fault};
use crate::config::tree::{Mapping, Node};
use crate::mutations2::global::{Shift, Swap};
use crate::mutations2::local::{
    Accelerate, Chaos, Compress, Expand, Increment, Loop, Reverse, Shuffle, Voidout,
};
use crate::mutations2::{Instance, MutationKind};
use crate::random::{draw_u64, pick};
use crate::text::{contains_text, decimal, decimal_text, occurs_in, same_text};
use vstd::prelude::*;
use vstd::string::StringExecFns;

verus! {

/// The child of `node` under `key`, which must be present. `path` is the
/// child's full path.
pub open spec fn child_of(node: Node, key: Seq<char>, path: Seq<char>) -> Result<Node, Failure> {
    match node.lookup(key) {
        Some(child) => Ok(child),
        None => Err(failure(Fault::Missing, path)),
    }
}

/// The child of `node` under `key`, which must be present and a mapping.
pub open spec fn section_of(node: Node, key: Seq<char>, path: Seq<char>) -> Result<
    Mapping,
    Failure,
> {
    match node.lookup(key) {
        Some(Node::Mapping(section)) => Ok(section),
        Some(_) => Err(failure(Fault::NotMap, path)),
        None => Err(failure(Fault::Missing, path)),
    }
}

fn child<'a>(node: &'a Node, key: &str, path: &str) -> (found: Result<&'a Node, ConfigError>)
    ensures
        match found {
            Ok(value) => child_of(*node, key@, path@) == Ok::<Node, Failure>(*value),
            Err(error) => child_of(*node, key@, path@) == Err::<Node, Failure>(error@),
        },
{
    match node.get(key) {
        Some(value) => Ok(value),
        None => Err(ConfigError::new(Fault::Missing, path)),
    }
}

fn section<'a>(node: &'a Node, key: &str, path: &str) -> (found: Result<&'a Mapping, ConfigError>)
    ensures
        match found {
            Ok(mapping) => section_of(*node, key@, path@) == Ok::<Mapping, Failure>(*mapping),
            Err(error) => section_of(*node, key@, path@) == Err::<Mapping, Failure>(error@),
        },
{
    match node.get(key) {
        Some(value) => match value.as_mapping() {
            Some(mapping) => Ok(mapping),
            None => Err(ConfigError::new(Fault::NotMap, path)),
        },
        None => Err(ConfigError::new(Fault::Missing, path)),
    }
}

/// Where the outputs go and how many there are.
pub struct AppCfg {
    pub output_path: String,
    pub output_n: usize,
    /// The file extension of the outputs, where the configuration names one.
    pub output_extension: Option<String>,
}

/// An `AppCfg` as contracts speak of it.
pub struct AppCfgView {
    pub output_path: Seq<char>,
    pub output_n: usize,
    pub output_extension: Option<Seq<char>>,
}

impl View for AppCfg {
    type V = AppCfgView;

    open spec fn view(&self) -> AppCfgView {
        AppCfgView {
            output_path: self.output_path@,
            output_n: self.output_n,
            output_extension: match self.output_extension {
                Some(extension) => Some(extension@),
                None => None,
            },
        }
    }
}

/// What `config.output` of `root` says: `path` must be text and `num` a
/// whole number above zero; `extension` may be absent and must be text where
/// it is present. The first fault in that order is the result.
pub open spec fn app_cfg_of(root: Node) -> Result<AppCfgView, Failure> {
    match section_of(root, "config"@, "config"@) {
        Err(f) => Err(f),
        Ok(config) => match section_of(Node::Mapping(config), "output"@, "config.output"@) {
            Err(f) => Err(f),
            Ok(output) => match output.lookup("path"@) {
                None => Err(failure(Fault::Missing, "config.output.path"@)),
                Some(Node::Text(path)) => match output.lookup("num"@) {
                    None => Err(failure(Fault::Missing, "config.output.num"@)),
                    Some(Node::Unsigned(num)) => if num == 0 {
                        Err(failure(Fault::NotCount, "config.output.num"@))
                    } else {
                        match output.lookup("extension"@) {
                            None => Ok(
                                AppCfgView {
                                    output_path: path@,
                                    output_n: num as usize,
                                    output_extension: None,
                                },
                            ),
                            Some(Node::Text(extension)) => Ok(
                                AppCfgView {
                                    output_path: path@,
                                    output_n: num as usize,
                                    output_extension: Some(extension@),
                                },
                            ),
                            Some(_) => Err(failure(Fault::NotText, "config.output.extension"@)),
                        }
                    },
                    Some(_) => Err(failure(Fault::NotCount, "config.output.num"@)),
                },
                Some(_) => Err(failure(Fault::NotText, "config.output.path"@)),
            },
        },
    }
}

/// Reads where the outputs go and how many there are from `config.output`.
pub fn parse_app_cfg(root_value: &Node) -> (parsed: Result<AppCfg, ConfigError>)
    ensures
        match parsed {
            Ok(cfg) => app_cfg_of(*root_value) == Ok::<AppCfgView, Failure>(cfg@),
            Err(error) => app_cfg_of(*root_value) == Err::<AppCfgView, Failure>(error@),
        },
{
    let config = section(root_value, "config", "config")?;
    let output = match config.get("output") {
        Some(value) => match value.as_mapping() {
            Some(mapping) => mapping,
            None => { return Err(ConfigError::new(Fault::NotMap, "config.output")); },
        },
        None => { return Err(ConfigError::new(Fault::Missing, "config.output")); },
    };
    let path = match output.get("path") {
        Some(value) => match value.as_str() {
            Some(text) => String::from_str(text),
            None => { return Err(ConfigError::new(Fault::NotText, "config.output.path")); },
        },
        None => { return Err(ConfigError::new(Fault::Missing, "config.output.path")); },
    };
    let num = match output.get("num") {
        Some(value) => match value.as_u64() {
            Some(n) if n > 0 => n,
            _ => { return Err(ConfigError::new(Fault::NotCount, "config.output.num")); },
        },
        None => { return Err(ConfigError::new(Fault::Missing, "config.output.num")); },
    };
    let extension = match output.get("extension") {
        Some(value) => match value.as_str() {
            Some(text) => Some(String::from_str(text)),
            None => {
                return Err(ConfigError::new(Fault::NotText, "config.output.extension"));
            },
        },
        None => None,
    };
    Ok(
        AppCfg {
            output_path: path,
            output_n: #[verifier::truncate]
            (num as usize),
            output_extension: extension,
        },
    )
}

/// Where the bytes to mutate come from.
pub enum SourceKind {
    URL(String),
    Path(String),
}

/// A `SourceKind` as contracts speak of it.
pub enum Origin {
    URL(Seq<char>),
    Path(Seq<char>),
}

impl View for SourceKind {
    type V = Origin;

    open spec fn view(&self) -> Origin {
        match self {
            SourceKind::URL(url) => Origin::URL(url@),
            SourceKind::Path(path) => Origin::Path(path@),
        }
    }
}

/// Why a source gave no bytes: the place that could not be loaded.
#[derive(Debug)]
pub struct LoadError {
    pub location: String,
}

impl LoadError {
    /// The report of this error, naming the place between square brackets.
    pub fn message(&self) -> (text: String)
        ensures
            text@ == "Failed to load file from ["@ + self.location@ + "]"@,
    {
        String::from_str("Failed to load file from [").concat(self.location.as_str()).concat("]")
    }
}

impl SourceKind {
    /// The address or the file path to load from.
    pub open spec fn place(self) -> Seq<char> {
        match self {
            SourceKind::URL(url) => url@,
            SourceKind::Path(path) => path@,
        }
    }

    /// The address or the file path to load from.
    pub fn location(&self) -> (place: &String)
        ensures
            place@ == self.place(),
    {
        match self {
            SourceKind::URL(url) => url,
            SourceKind::Path(path) => path,
        }
    }

    /// Settles what loading this source gave. `loaded` is what the attempt
    /// to fetch the address or read the file returned: the bytes, or nothing
    /// where it failed. The bytes are passed on as they are; a failed attempt
    /// becomes the error that names the place.
    pub fn perform(&self, loaded: Option<Vec<u8>>) -> (bytes: Result<Vec<u8>, LoadError>)
        ensures
            match loaded {
                Some(content) => bytes == Ok::<Vec<u8>, LoadError>(content),
                None => bytes matches Err(error) && error.location@ == self.place(),
            },
    {
        match loaded {
            Some(content) => Ok(content),
            None => Err(LoadError { location: self.location().clone() }),
        }
    }
}

/// What `source` of `root` says: exactly one of `url` and `file`, as text.
pub open spec fn source_of(root: Node) -> Result<Origin, Failure> {
    match section_of(root, "source"@, "source"@) {
        Err(f) => Err(f),
        Ok(source) => match (source.lookup("url"@), source.lookup("file"@)) {
            (Some(Node::Text(url)), None) => Ok(Origin::URL(url@)),
            (Some(Node::Text(_)), Some(Node::Text(_))) => Err(
                failure(Fault::BothSources, "source"@),
            ),
            (Some(Node::Text(_)), Some(_)) => Err(failure(Fault::NotText, "source.file"@)),
            (Some(_), _) => Err(failure(Fault::NotText, "source.url"@)),
            (None, Some(Node::Text(path))) => Ok(Origin::Path(path@)),
            (None, Some(_)) => Err(failure(Fault::NotText, "source.file"@)),
            (None, None) => Err(failure(Fault::NoSource, "source"@)),
        },
    }
}

/// Reads where the bytes to mutate come from: `source.url` or `source.file`,
/// exactly one of them.
pub fn parse_source(root_value: &Node) -> (parsed: Result<SourceKind, ConfigError>)
    ensures
        match parsed {
            Ok(source) => source_of(*root_value) == Ok::<Origin, Failure>(source@),
            Err(error) => source_of(*root_value) == Err::<Origin, Failure>(error@),
        },
{
    let source = section(root_value, "source", "source")?;
    let url = match source.get("url") {
        Some(value) => match value.as_str() {
            Some(text) => Some(text),
            None => { return Err(ConfigError::new(Fault::NotText, "source.url")); },
        },
        None => None,
    };
    let file = match source.get("file") {
        Some(value) => match value.as_str() {
            Some(text) => Some(text),
            None => { return Err(ConfigError::new(Fault::NotText, "source.file")); },
        },
        None => None,
    };
    match (url, file) {
        (Some(url), None) => Ok(SourceKind::URL(String::from_str(url))),
        (None, Some(path)) => Ok(SourceKind::Path(String::from_str(path))),
        (Some(_), Some(_)) => Err(ConfigError::new(Fault::BothSources, "source")),
        (None, None) => Err(ConfigError::new(Fault::NoSource, "source")),
    }
}

/// How the source is to be treated.
#[derive(Debug, Clone, Copy, PartialEq, Eq, Structural)]
pub enum ModeKind {
    AsImage,
    AsBytes,
    AsMemoryMap,
}

/// What `mode` of `root` says: one of `image`, `bytes` and `memory_map`.
pub open spec fn mode_of(root: Node) -> Result<ModeKind, Failure> {
    match root.lookup("mode"@) {
        None => Err(failure(Fault::Missing, "mode"@)),
        Some(Node::Text(mode)) => if mode@ == "image"@ {
            Ok(ModeKind::AsImage)
        } else if mode@ == "bytes"@ {
            Ok(ModeKind::AsBytes)
        } else if mode@ == "memory_map"@ {
            Ok(ModeKind::AsMemoryMap)
        } else {
            Err(failure(Fault::UnknownMode, "mode"@))
        },
        Some(_) => Err(failure(Fault::NotText, "mode"@)),
    }
}

/// Reads how the source is to be treated from `mode`.
pub fn parse_mode(root_value: &Node) -> (parsed: Result<ModeKind, ConfigError>)
    ensures
        outcome(parsed) == mode_of(*root_value),
{
    let mode = match child(root_value, "mode", "mode")?.as_str() {
        Some(text) => String::from_str(text),
        None => { return Err(ConfigError::new(Fault::NotText, "mode")); },
    };
    if same_text(&mode, "image") {
        Ok(ModeKind::AsImage)
    } else if same_text(&mode, "bytes") {
        Ok(ModeKind::AsBytes)
    } else if same_text(&mode, "memory_map") {
        Ok(ModeKind::AsMemoryMap)
    } else {
        Err(ConfigError::new(Fault::UnknownMode, "mode"))
    }
}

/// The image format the source is converted to before it is mutated.
pub struct PreConvert {
    pub format: String,
}

/// The optional switches of a run.
pub struct Features {
    pub pre_convert: Option<PreConvert>,
    pub memory_map: bool,
    pub sequential: bool,
}

/// `Features` as contracts speak of them.
pub struct FeaturesView {
    pub pre_convert: Option<Seq<char>>,
    pub memory_map: bool,
    pub sequential: bool,
}

impl View for Features {
    type V = FeaturesView;

    open spec fn view(&self) -> FeaturesView {
        FeaturesView {
            pre_convert: match self.pre_convert {
                Some(convert) => Some(convert.format@),
                None => None,
            },
            memory_map: self.memory_map,
            sequential: self.sequential,
        }
    }
}

/// The flag under `key` of `features`: absent means off.
pub open spec fn flag_of(features: Mapping, key: Seq<char>, path: Seq<char>) -> Result<
    bool,
    Failure,
> {
    match features.lookup(key) {
        None => Ok(false),
        Some(Node::Bool(flag)) => Ok(flag),
        Some(_) => Err(failure(Fault::NotFlag, path)),
    }
}

/// The format under `features.pre_convert.format`, where `pre_convert` is
/// given.
pub open spec fn pre_convert_of(features: Mapping) -> Result<Option<Seq<char>>, Failure> {
    match features.lookup("pre_convert"@) {
        None => Ok(None),
        Some(Node::Mapping(convert)) => match convert.lookup("format"@) {
            None => Err(failure(Fault::Missing, "features.pre_convert.format"@)),
            Some(Node::Text(format)) => Ok(Some(format@)),
            Some(_) => Err(failure(Fault::NotText, "features.pre_convert.format"@)),
        },
        Some(_) => Err(failure(Fault::NotMap, "features.pre_convert"@)),
    }
}

/// What `features` of `root` says. Without `features` nothing is switched on.
pub open spec fn features_of(root: Node) -> Result<FeaturesView, Failure> {
    match root.lookup("features"@) {
        None => Ok(FeaturesView { pre_convert: None, memory_map: false, sequential: false }),
        Some(Node::Mapping(features)) => match pre_convert_of(features) {
            Err(f) => Err(f),
            Ok(pre_convert) => match flag_of(
                features,
                "memory_map"@,
                "features.memory_map"@,
            ) {
                Err(f) => Err(f),
                Ok(memory_map) => match flag_of(
                    features,
                    "sequential"@,
                    "features.sequential"@,
                ) {
                    Err(f) => Err(f),
                    Ok(sequential) => Ok(FeaturesView { pre_convert, memory_map, sequential }),
                },
            },
        },
        Some(_) => Err(failure(Fault::NotMap, "features"@)),
    }
}

fn flag(features: &Mapping, key: &str, path: &str) -> (found: Result<bool, ConfigError>)
    ensures
        outcome(found) == flag_of(*features, key@, path@),
{
    match features.get(key) {
        None => Ok(false),
        Some(value) => match value.as_bool() {
            Some(flag) => Ok(flag),
            None => Err(ConfigError::new(Fault::NotFlag, path)),
        },
    }
}

/// Reads the optional switches of a run from `features`.
pub fn parse_features(root_value: &Node) -> (parsed: Result<Features, ConfigError>)
    ensures
        match parsed {
            Ok(features) => features_of(*root_value) == Ok::<FeaturesView, Failure>(features@),
            Err(error) => features_of(*root_value) == Err::<FeaturesView, Failure>(error@),
        },
{
    let features = match root_value.get("features") {
        None => {
            return Ok(Features { pre_convert: None, memory_map: false, sequential: false });
        },
        Some(value) => match value.as_mapping() {
            Some(mapping) => mapping,
            None => { return Err(ConfigError::new(Fault::NotMap, "features")); },
        },
    };
    let pre_convert = match features.get("pre_convert") {
        None => None,
        Some(value) => match value.as_mapping() {
            None => { return Err(ConfigError::new(Fault::NotMap, "features.pre_convert")); },
            Some(convert) => match convert.get("format") {
                None => {
                    return Err(ConfigError::new(Fault::Missing, "features.pre_convert.format"));
                },
                Some(format) => match format.as_str() {
                    Some(text) => Some(PreConvert { format: String::from_str(text) }),
                    None => {
                        return Err(
                            ConfigError::new(Fault::NotText, "features.pre_convert.format"),
                        );
                    },
                },
            },
        },
    };
    let memory_map = flag(features, "memory_map", "features.memory_map")?;
    let sequential = flag(features, "sequential", "features.sequential")?;
    Ok(Features { pre_convert, memory_map, sequential })
}

/// The default for `key` among `defaults`: the entry under `key` itself or,
/// where there is none and `key` contains `chunksize`, the entry under the
/// bare key `chunksize`.
pub open spec fn default_in(defaults: Node, key: Seq<char>) -> Option<Node> {
    match defaults.lookup(key) {
        Some(value) => Some(value),
        None => if occurs_in(key, "chunksize"@) {
            defaults.lookup("chunksize"@)
        } else {
            None
        },
    }
}

/// The default for `key` in the document `root`, where it has one. A
/// document without `defaults` is a fault.
pub open spec fn optional_default_of(root: Node, key: Seq<char>) -> Result<
    Option<Node>,
    Failure,
> {
    match root.lookup("defaults"@) {
        None => Err(failure(Fault::NoDefaults, key)),
        Some(defaults) => Ok(default_in(defaults, key)),
    }
}

/// The default for `key` in the document `root`. A document without
/// `defaults`, or without a default for `key`, is a fault.
pub open spec fn default_of(root: Node, key: Seq<char>) -> Result<Node, Failure> {
    match optional_default_of(root, key) {
        Err(f) => Err(f),
        Ok(None) => Err(failure(Fault::NoDefault, key)),
        Ok(Some(value)) => Ok(value),
    }
}

/// Looks a default up by its key, falling back to the bare key `chunksize`
/// where the key contains it. Says whether there is one.
pub fn get_optional_default<'a>(root_value: &'a Node, key: &str) -> (found: Result<
    Option<&'a Node>,
    ConfigError,
>)
    ensures
        match found {
            Ok(Some(value)) => optional_default_of(*root_value, key@) == Ok::<
                Option<Node>,
                Failure,
            >(Some(*value)),
            Ok(None) => optional_default_of(*root_value, key@) == Ok::<Option<Node>, Failure>(
                None,
            ),
            Err(error) => optional_default_of(*root_value, key@) == Err::<
                Option<Node>,
                Failure,
            >(error@),
        },
{
    let default = match root_value.get("defaults") {
        Some(value) => value,
        None => { return Err(ConfigError::new(Fault::NoDefaults, key)); },
    };
    match default.get(key) {
        Some(value) => Ok(Some(value)),
        None => if contains_text(key, "chunksize") {
            Ok(default.get("chunksize"))
        } else {
            Ok(None)
        },
    }
}

/// Looks a default up by its key, falling back to the bare key `chunksize`
/// where the key contains it. A missing default is a fault.
pub fn get_default<'a>(root_value: &'a Node, key: &str) -> (found: Result<
    &'a Node,
    ConfigError,
>)
    ensures
        match found {
            Ok(value) => default_of(*root_value, key@) == Ok::<Node, Failure>(*value),
            Err(error) => default_of(*root_value, key@) == Err::<Node, Failure>(error@),
        },
{
    match get_optional_default(root_value, key)? {
        Some(value) => Ok(value),
        None => Err(ConfigError::new(Fault::NoDefault, key)),
    }
}

/// The key under which the defaults hold a property of a mutation:
/// `<mutation>.<property>`.
pub open spec fn default_key(mutation_name: Seq<char>, property_name: Seq<char>) -> Seq<char> {
    mutation_name + "."@ + property_name
}

/// Whether a property is set, on the mutation itself or among the defaults.
pub open spec fn param_exists(
    root: Node,
    mutation: Mapping,
    mutation_name: Seq<char>,
    property_name: Seq<char>,
) -> Result<bool, Failure> {
    match mutation.lookup(property_name) {
        Some(_) => Ok(true),
        None => match optional_default_of(root, default_key(mutation_name, property_name)) {
            Err(f) => Err(f),
            Ok(found) => Ok(found is Some),
        },
    }
}

/// Says whether a property is set, on the mutation itself or among the
/// defaults.
pub fn check_param_exists(
    root_value: &Node,
    mutation: &Mapping,
    mutation_name: &str,
    property_name: &str,
) -> (exists: Result<bool, ConfigError>)
    ensures
        outcome(exists) == param_exists(
            *root_value,
            *mutation,
            mutation_name@,
            property_name@,
        ),
{
    let key = String::from_str(mutation_name).concat(".").concat(property_name);
    match mutation.get(property_name) {
        Some(_) => Ok(true),
        None => Ok(get_optional_default(root_value, key.as_str())?.is_some()),
    }
}

/// The node that settles a property of a mutation, with the path it is read
/// under: the mutation's own entry under `<mutation>.<property>`, else the
/// default under `defaults.<mutation>.<property>`.
pub open spec fn setting_of(
    mutation: Mapping,
    root: Node,
    mutation_name: Seq<char>,
    property_name: Seq<char>,
) -> Result<(Node, Seq<char>), Failure> {
    let key = default_key(mutation_name, property_name);
    match mutation.lookup(property_name) {
        Some(value) => Ok((value, key)),
        None => match default_of(root, key) {
            Ok(value) => Ok((value, "defaults."@ + key)),
            Err(f) => Err(f),
        },
    }
}

/// Finds the node that settles a property of a mutation, and its path.
pub fn find_param<'a>(
    mutation: &'a Mapping,
    root_value: &'a Node,
    mutation_name: &str,
    property_name: &str,
) -> (found: Result<(&'a Node, String), ConfigError>)
    ensures
        match found {
            Ok((value, path)) => setting_of(
                *mutation,
                *root_value,
                mutation_name@,
                property_name@,
            ) == Ok::<(Node, Seq<char>), Failure>((*value, path@)),
            Err(error) => setting_of(*mutation, *root_value, mutation_name@, property_name@)
                == Err::<(Node, Seq<char>), Failure>(error@),
        },
{
    let key = String::from_str(mutation_name).concat(".").concat(property_name);
    match mutation.get(property_name) {
        Some(value) => Ok((value, key)),
        None => {
            let default = get_default(root_value, key.as_str())?;
            Ok((default, String::from_str("defaults.").concat(key.as_str())))
        },
    }
}

/// The bounds of the range `{min, max}` at `path`. Both keys are required,
/// then both must be whole numbers that are not negative; the first fault in
/// that order is the result, under the path of the bound.
pub open spec fn bounds_of(range: Mapping, path: Seq<char>) -> Result<(u64, u64), Failure> {
    match (range.lookup("min"@), range.lookup("max"@)) {
        (None, _) => Err(failure(Fault::BoundMissing, path + ".min"@)),
        (Some(_), None) => Err(failure(Fault::BoundMissing, path + ".max"@)),
        (Some(Node::Unsigned(min)), Some(Node::Unsigned(max))) => Ok((min, max)),
        (Some(Node::Unsigned(_)), Some(_)) => Err(failure(Fault::BoundKind, path + ".max"@)),
        (Some(_), Some(_)) => Err(failure(Fault::BoundKind, path + ".min"@)),
    }
}

/// Reads the bounds of a range `{min, max}`, without comparing them.
pub fn range_bounds(range: &Mapping, property_path: &str) -> (bounds: Result<
    (u64, u64),
    ConfigError,
>)
    ensures
        outcome(bounds) == bounds_of(*range, property_path@),
{
    let min = match range.get("min") {
        Some(value) => value,
        None => {
            let path = String::from_str(property_path).concat(".min");
            return Err(ConfigError { fault: Fault::BoundMissing, path });
        },
    };
    let max = match range.get("max") {
        Some(value) => value,
        None => {
            let path = String::from_str(property_path).concat(".max");
            return Err(ConfigError { fault: Fault::BoundMissing, path });
        },
    };
    let min = match min.as_u64() {
        Some(number) => number,
        None => {
            let path = String::from_str(property_path).concat(".min");
            return Err(ConfigError { fault: Fault::BoundKind, path });
        },
    };
    let max = match max.as_u64() {
        Some(number) => number,
        None => {
            let path = String::from_str(property_path).concat(".max");
            return Err(ConfigError { fault: Fault::BoundKind, path });
        },
    };
    Ok((min, max))
}

/// Whether every element of a list of choices is a whole number that is
/// not negative.
pub open spec fn all_numbers(options: Seq<Node>) -> bool {
    forall|i: int| 0 <= i < options.len() ==> #[trigger] options[i] is Unsigned
}

/// Decides whether every element of a list of choices is a whole number that
/// is not negative.
pub fn check_elements(options: &Vec<Node>) -> (valid: bool)
    ensures
        valid == all_numbers(options@),
{
    let count: usize = options.len();
    let mut i: usize = 0;
    while i < count
        invariant
            i <= count,
            count == options@.len(),
            forall|j: int| 0 <= j < i ==> #[trigger] options@[j] is Unsigned,
        decreases count - i,
    {
        if options[i].as_u64().is_none() {
            return false;
        }
        i += 1;
    }
    true
}

/// What is wrong with the node `param`, read under `path`, as the setting of
/// a whole number; nothing where it resolves.
///
/// - A whole number that is not negative is an exact value.
/// - A mapping is a range: its bounds must be well formed and `min` below
///   `max`.
/// - A sequence is a list of choices: it must not be empty, and every
///   element must be a whole number that is not negative.
/// - Any other node is a fault.
pub open spec fn fault_in(param: Node, path: Seq<char>) -> Option<Failure> {
    match param {
        Node::Unsigned(_) => None,
        Node::Mapping(range) => match bounds_of(range, path) {
            Err(f) => Some(f),
            Ok((min, max)) => if min < max {
                None
            } else {
                Some(failure(Fault::EmptyRange, path))
            },
        },
        Node::Sequence(options) => if options@.len() == 0 {
            Some(failure(Fault::EmptyList, path))
        } else if !all_numbers(options@) {
            Some(failure(Fault::ElementKind, path))
        } else {
            None
        },
        _ => Some(failure(Fault::Unreadable, path)),
    }
}

/// Whether the node `param` can resolve to `v`: an exact value to itself, a
/// range to any `v` with `min <= v < max`, a list of choices to any of its
/// elements.
pub open spec fn may_be(param: Node, v: u64) -> bool {
    match param {
        Node::Unsigned(exact) => v == exact,
        Node::Mapping(range) => range.lookup("min"@) matches Some(Node::Unsigned(min))
            && range.lookup("max"@) matches Some(Node::Unsigned(max)) && min <= v < max,
        Node::Sequence(options) => options@.contains(Node::Unsigned(v)),
        _ => false,
    }
}

/// Whether `out` is a possible result of resolving the node `param`, read
/// under `path`, to a whole number: its fault where it has one, else a
/// number it can resolve to.
pub open spec fn resolves_to(param: Node, path: Seq<char>, out: Result<u64, Failure>) -> bool {
    match fault_in(param, path) {
        Some(f) => out == Err::<u64, Failure>(f),
        None => out matches Ok(v) && may_be(param, v),
    }
}

/// Resolves one configuration node to a whole number: an exact number as it
/// stands, a range by a uniform draw from `[min, max)`, a list by a uniform
/// choice among its elements. Nothing is drawn for an exact number or for a
/// node with a fault.
pub fn parse_u64_param(rng: &mut rand::rngs::StdRng, param: &Node, property_path: &str) -> (number:
    Result<u64, ConfigError>)
    ensures
        resolves_to(*param, property_path@, outcome(number)),
        *param is Unsigned || number is Err ==> *final(rng) == *old(rng),
{
    if let Some(exact) = param.as_u64() {
        Ok(exact)
    } else if let Some(range) = param.as_mapping() {
        let (min, max) = range_bounds(range, property_path)?;
        if min < max {
            Ok(draw_u64(rng, min, max))
        } else {
            Err(ConfigError::new(Fault::EmptyRange, property_path))
        }
    } else if let Some(options) = param.as_sequence() {
        if options.len() == 0 {
            return Err(ConfigError::new(Fault::EmptyList, property_path));
        }
        if !check_elements(options) {
            return Err(ConfigError::new(Fault::ElementKind, property_path));
        }
        match pick(rng, options.as_slice()) {
            Some(Node::Unsigned(picked)) => Ok(*picked),
            _ => Err(ConfigError::new(Fault::ElementKind, property_path)),
        }
    } else {
        Err(ConfigError::new(Fault::Unreadable, property_path))
    }
}

/// What is wrong with a property of a mutation: the fault of finding its
/// node, else the fault in that node; nothing where the property resolves.
pub open spec fn property_fault(
    mutation: Mapping,
    root: Node,
    mutation_name: Seq<char>,
    property_name: Seq<char>,
) -> Option<Failure> {
    match setting_of(mutation, root, mutation_name, property_name) {
        Err(f) => Some(f),
        Ok((param, path)) => fault_in(param, path),
    }
}

/// Whether a property of a mutation can resolve to `v`.
pub open spec fn admits(
    mutation: Mapping,
    root: Node,
    mutation_name: Seq<char>,
    property_name: Seq<char>,
    v: u64,
) -> bool {
    setting_of(mutation, root, mutation_name, property_name) matches Ok((param, _)) && may_be(
        param,
        v,
    )
}

/// Whether `out` is a possible result of resolving a property of a mutation:
/// its fault where it has one, else a number it can resolve to.
pub open spec fn yields(
    mutation: Mapping,
    root: Node,
    mutation_name: Seq<char>,
    property_name: Seq<char>,
    out: Result<u64, Failure>,
) -> bool {
    match property_fault(mutation, root, mutation_name, property_name) {
        Some(f) => out == Err::<u64, Failure>(f),
        None => out matches Ok(v) && admits(mutation, root, mutation_name, property_name, v),
    }
}

/// Whether resolving a property of a mutation draws nothing: the property
/// has a fault, or the node that settles it is an exact number.
pub open spec fn quiet(
    mutation: Mapping,
    root: Node,
    mutation_name: Seq<char>,
    property_name: Seq<char>,
) -> bool {
    match setting_of(mutation, root, mutation_name, property_name) {
        Err(_) => true,
        Ok((param, path)) => param is Unsigned || fault_in(param, path) is Some,
    }
}

/// Whether resolving a property and then, where it has no fault, what comes
/// after it draws nothing; `rest` says so of what comes after it.
pub open spec fn quiet_then(
    mutation: Mapping,
    root: Node,
    mutation_name: Seq<char>,
    property_name: Seq<char>,
    rest: bool,
) -> bool {
    &&& quiet(mutation, root, mutation_name, property_name)
    &&& property_fault(mutation, root, mutation_name, property_name) is Some || rest
}

/// Resolves a property of a mutation: from the mutation's own entry where it
/// sets the property, else from the defaults. Nothing is drawn for a
/// property with a fault or one that is settled by an exact number.
pub fn extract_u64_param(
    rng: &mut rand::rngs::StdRng,
    mutation: &Mapping,
    root_value: &Node,
    mutation_name: &str,
    property_name: &str,
) -> (number: Result<u64, ConfigError>)
    ensures
        yields(*mutation, *root_value, mutation_name@, property_name@, outcome(number)),
        quiet(*mutation, *root_value, mutation_name@, property_name@) ==> *final(rng) == *old(
            rng,
        ),
{
    let (param, path) = find_param(mutation, root_value, mutation_name, property_name)?;
    parse_u64_param(rng, param, path.as_str())
}

/// The first of two faults.
pub open spec fn or_else(first: Option<Failure>, second: Option<Failure>) -> Option<Failure> {
    match first {
        Some(f) => Some(f),
        None => second,
    }
}

/// The parameters of the mutation called `name` in the entry `mutation`:
/// what `name` maps to, which must be a mapping.
pub open spec fn body_of(mutation: Mapping, name: Seq<char>) -> Result<Mapping, Failure> {
    match mutation.lookup(name) {
        Some(Node::Mapping(body)) => Ok(body),
        Some(_) => Err(failure(Fault::NotMap, name)),
        None => Err(failure(Fault::Missing, name)),
    }
}

fn body<'a>(mutation: &'a Mapping, name: &str) -> (found: Result<&'a Mapping, ConfigError>)
    ensures
        match found {
            Ok(mapping) => body_of(*mutation, name@) == Ok::<Mapping, Failure>(*mapping),
            Err(error) => body_of(*mutation, name@) == Err::<Mapping, Failure>(error@),
        },
{
    match mutation.get(name) {
        Some(value) => match value.as_mapping() {
            Some(mapping) => Ok(mapping),
            None => Err(ConfigError::new(Fault::NotMap, name)),
        },
        None => Err(ConfigError::new(Fault::Missing, name)),
    }
}

/// What is wrong with the entry `mutation` as the mutation `chaos`: the
/// fault of its body, else the fault of its property `chunksize`; nothing
/// where it can be read.
pub open spec fn fault_of_chaos(mutation: Mapping, root: Node) -> Option<Failure> {
    let name = "chaos"@;
    match body_of(mutation, name) {
        Err(f) => Some(f),
        Ok(body) => property_fault(body, root, name, "chunksize"@),
    }
}

/// Whether reading the mutation `chaos` from the entry `mutation` draws
/// nothing: every property that is resolved has a fault or is settled by an
/// exact number.
pub open spec fn still_chaos(mutation: Mapping, root: Node) -> bool {
    let name = "chaos"@;
    match body_of(mutation, name) {
        Err(_) => true,
        Ok(body) => quiet(body, root, name, "chunksize"@),
    }
}

/// Whether `out` is a possible result of reading the mutation `chaos` from
/// the entry `mutation`: its fault where it has one, else the mutation with
/// every property at a value it can resolve to.
pub open spec fn parses_chaos(
    mutation: Mapping,
    root: Node,
    out: Result<Chaos, Failure>,
) -> bool {
    let name = "chaos"@;
    match fault_of_chaos(mutation, root) {
        Some(f) => out == Err::<Chaos, Failure>(f),
        None => {
            &&& out matches Ok(made)
            &&& body_of(mutation, name) matches Ok(body)
            &&& exists|v: u64| #[trigger]
                admits(body, root, name, "chunksize"@, v) && made.chunksize == v as usize
        },
    }
}

/// Reads the mutation `chaos` from its entry, resolving its parameters afresh.
/// Nothing is drawn where every property that is resolved has a fault or is
/// settled by an exact number.
pub fn parse_chaos(
    rng: &mut rand::rngs::StdRng,
    mutation: &Mapping,
    root_value: &Node,
) -> (parsed: Result<Chaos, ConfigError>)
    ensures
        parses_chaos(*mutation, *root_value, outcome(parsed)),
        still_chaos(*mutation, *root_value) ==> *final(rng) == *old(rng),
{
    let mutation = body(mutation, "chaos")?;
    let chunksize = extract_u64_param(rng, mutation, root_value, "chaos", "chunksize")?;
    Ok(
        Chaos {
            chunksize: #[verifier::truncate]
            (chunksize as usize),
        },
    )
}

/// What is wrong with the entry `mutation` as the mutation `expand`: the
/// fault of its body, else the first fault among its properties
/// `by`, `chunksize`, in that order; nothing where it can be
/// read.
pub open spec fn fault_of_expand(mutation: Mapping, root: Node) -> Option<Failure> {
    let name = "expand"@;
    match body_of(mutation, name) {
        Err(f) => Some(f),
        Ok(body) => or_else(
            property_fault(body, root, name, "by"@),
            property_fault(body, root, name, "chunksize"@),
        ),
    }
}

/// Whether reading the mutation `expand` from the entry `mutation` draws
/// nothing: every property that is resolved has a fault or is settled by an
/// exact number.
pub open spec fn still_expand(mutation: Mapping, root: Node) -> bool {
    let name = "expand"@;
    match body_of(mutation, name) {
        Err(_) => true,
        Ok(body) => quiet_then(
            body,
            root,
            name,
            "by"@,
            quiet(body, root, name, "chunksize"@),
        ),
    }
}

/// Whether `out` is a possible result of reading the mutation `expand` from
/// the entry `mutation`: its fault where it has one, else the mutation with
/// every property at a value it can resolve to.
pub open spec fn parses_expand(
    mutation: Mapping,
    root: Node,
    out: Result<Expand, Failure>,
) -> bool {
    let name = "expand"@;
    match fault_of_expand(mutation, root) {
        Some(f) => out == Err::<Expand, Failure>(f),
        None => {
            &&& out matches Ok(made)
            &&& body_of(mutation, name) matches Ok(body)
            &&& exists|v: u64| #[trigger]
                admits(body, root, name, "by"@, v) && made.by == v as usize
            &&& exists|v: u64| #[trigger]
                admits(body, root, name, "chunksize"@, v) && made.chunksize == v as usize
        },
    }
}

/// Reads the mutation `expand` from its entry, resolving its parameters afresh.
/// Nothing is drawn where every property that is resolved has a fault or is
/// settled by an exact number.
pub fn parse_expand(
    rng: &mut rand::rngs::StdRng,
    mutation: &Mapping,
    root_value: &Node,
) -> (parsed: Result<Expand, ConfigError>)
    ensures
        parses_expand(*mutation, *root_value, outcome(parsed)),
        still_expand(*mutation, *root_value) ==> *final(rng) == *old(rng),
{
    let mutation = body(mutation, "expand")?;
    let by = extract_u64_param(rng, mutation, root_value, "expand", "by")?;
    let chunksize = extract_u64_param(rng, mutation, root_value, "expand", "chunksize")?;
    Ok(
        Expand {
            by: #[verifier::truncate]
            (by as usize),
            chunksize: #[verifier::truncate]
            (chunksize as usize),
        },
    )
}

/// What is wrong with the entry `mutation` as the mutation `compress`: the
/// fault of its body, else the first fault among its properties
/// `by`, `chunksize`, in that order; nothing where it can be
/// read.
pub open spec fn fault_of_compress(mutation: Mapping, root: Node) -> Option<Failure> {
    let name = "compress"@;
    match body_of(mutation, name) {
        Err(f) => Some(f),
        Ok(body) => or_else(
            property_fault(body, root, name, "by"@),
            property_fault(body, root, name, "chunksize"@),
        ),
    }
}

/// Whether reading the mutation `compress` from the entry `mutation` draws
/// nothing: every property that is resolved has a fault or is settled by an
/// exact number.
pub open spec fn still_compress(mutation: Mapping, root: Node) -> bool {
    let name = "compress"@;
    match body_of(mutation, name) {
        Err(_) => true,
        Ok(body) => quiet_then(
            body,
            root,
            name,
            "by"@,
            quiet(body, root, name, "chunksize"@),
        ),
    }
}

/// Whether `out` is a possible result of reading the mutation `compress` from
/// the entry `mutation`: its fault where it has one, else the mutation with
/// every property at a value it can resolve to.
pub open spec fn parses_compress(
    mutation: Mapping,
    root: Node,
    out: Result<Compress, Failure>,
) -> bool {
    let name = "compress"@;
    match fault_of_compress(mutation, root) {
        Some(f) => out == Err::<Compress, Failure>(f),
        None => {
            &&& out matches Ok(made)
            &&& body_of(mutation, name) matches Ok(body)
            &&& exists|v: u64| #[trigger]
                admits(body, root, name, "by"@, v) && made.by == v as usize
            &&& exists|v: u64| #[trigger]
                admits(body, root, name, "chunksize"@, v) && made.chunksize == v as usize
        },
    }
}

/// Reads the mutation `compress` from its entry, resolving its parameters afresh.
/// Nothing is drawn where every property that is resolved has a fault or is
/// settled by an exact number.
pub fn parse_compress(
    rng: &mut rand::rngs::StdRng,
    mutation: &Mapping,
    root_value: &Node,
) -> (parsed: Result<Compress, ConfigError>)
    ensures
        parses_compress(*mutation, *root_value, outcome(parsed)),
        still_compress(*mutation, *root_value) ==> *final(rng) == *old(rng),
{
    let mutation = body(mutation, "compress")?;
    let by = extract_u64_param(rng, mutation, root_value, "compress", "by")?;
    let chunksize = extract_u64_param(rng, mutation, root_value, "compress", "chunksize")?;
    Ok(
        Compress {
            by: #[verifier::truncate]
            (by as usize),
            chunksize: #[verifier::truncate]
            (chunksize as usize),
        },
    )
}

/// What is wrong with the entry `mutation` as the mutation `accelerate`: the
/// fault of its body, else the first fault among its properties
/// `from`, `by`, `after`, `chunksize`, in that order; nothing where it can be
/// read.
pub open spec fn fault_of_accelerate(mutation: Mapping, root: Node) -> Option<Failure> {
    let name = "accelerate"@;
    match body_of(mutation, name) {
        Err(f) => Some(f),
        Ok(body) => or_else(
            property_fault(body, root, name, "from"@),
            or_else(
                property_fault(body, root, name, "by"@),
                or_else(
                    property_fault(body, root, name, "after"@),
                    property_fault(body, root, name, "chunksize"@),
                ),
            ),
        ),
    }
}

/// Whether reading the mutation `accelerate` from the entry `mutation` draws
/// nothing: every property that is resolved has a fault or is settled by an
/// exact number.
pub open spec fn still_accelerate(mutation: Mapping, root: Node) -> bool {
    let name = "accelerate"@;
    match body_of(mutation, name) {
        Err(_) => true,
        Ok(body) => quiet_then(
            body,
            root,
            name,
            "from"@,
            quiet_then(
                body,
                root,
                name,
                "by"@,
                quiet_then(
                    body,
                    root,
                    name,
                    "after"@,
                    quiet(body, root, name, "chunksize"@),
                ),
            ),
        ),
    }
}

/// Whether `out` is a possible result of reading the mutation `accelerate` from
/// the entry `mutation`: its fault where it has one, else the mutation with
/// every property at a value it can resolve to.
pub open spec fn parses_accelerate(
    mutation: Mapping,
    root: Node,
    out: Result<Accelerate, Failure>,
) -> bool {
    let name = "accelerate"@;
    match fault_of_accelerate(mutation, root) {
        Some(f) => out == Err::<Accelerate, Failure>(f),
        None => {
            &&& out matches Ok(made)
            &&& body_of(mutation, name) matches Ok(body)
            &&& exists|v: u64| #[trigger]
                admits(body, root, name, "from"@, v) && made.from == v as usize
            &&& exists|v: u64| #[trigger]
                admits(body, root, name, "by"@, v) && made.by == v as usize
            &&& exists|v: u64| #[trigger]
                admits(body, root, name, "after"@, v) && made.after == v as usize
            &&& exists|v: u64| #[trigger]
                admits(body, root, name, "chunksize"@, v) && made.chunksize == v as usize
        },
    }
}

/// Reads the mutation `accelerate` from its entry, resolving its parameters afresh.
/// Nothing is drawn where every property that is resolved has a fault or is
/// settled by an exact number.
pub fn parse_accelerate(
    rng: &mut rand::rngs::StdRng,
    mutation: &Mapping,
    root_value: &Node,
) -> (parsed: Result<Accelerate, ConfigError>)
    ensures
        parses_accelerate(*mutation, *root_value, outcome(parsed)),
        still_accelerate(*mutation, *root_value) ==> *final(rng) == *old(rng),
{
    let mutation = body(mutation, "accelerate")?;
    let from = extract_u64_param(rng, mutation, root_value, "accelerate", "from")?;
    let by = extract_u64_param(rng, mutation, root_value, "accelerate", "by")?;
    let after = extract_u64_param(rng, mutation, root_value, "accelerate", "after")?;
    let chunksize = extract_u64_param(rng, mutation, root_value, "accelerate", "chunksize")?;
    Ok(
        Accelerate {
            from: #[verifier::truncate]
            (from as usize),
            by: #[verifier::truncate]
            (by as usize),
            after: #[verifier::truncate]
            (after as usize),
            chunksize: #[verifier::truncate]
            (chunksize as usize),
        },
    )
}

/// What is wrong with the entry `mutation` as the mutation `increment`: the
/// fault of its body, else the first fault among its properties
/// `by`, `chunksize`, in that order; nothing where it can be
/// read.
pub open spec fn fault_of_increment(mutation: Mapping, root: Node) -> Option<Failure> {
    let name = "increment"@;
    match body_of(mutation, name) {
        Err(f) => Some(f),
        Ok(body) => or_else(
            property_fault(body, root, name, "by"@),
            property_fault(body, root, name, "chunksize"@),
        ),
    }
}

/// Whether reading the mutation `increment` from the entry `mutation` draws
/// nothing: every property that is resolved has a fault or is settled by an
/// exact number.
pub open spec fn still_increment(mutation: Mapping, root: Node) -> bool {
    let name = "increment"@;
    match body_of(mutation, name) {
        Err(_) => true,
        Ok(body) => quiet_then(
            body,
            root,
            name,
            "by"@,
            quiet(body, root, name, "chunksize"@),
        ),
    }
}

/// Whether `out` is a possible result of reading the mutation `increment` from
/// the entry `mutation`: its fault where it has one, else the mutation with
/// every property at a value it can resolve to.
pub open spec fn parses_increment(
    mutation: Mapping,
    root: Node,
    out: Result<Increment, Failure>,
) -> bool {
    let name = "increment"@;
    match fault_of_increment(mutation, root) {
        Some(f) => out == Err::<Increment, Failure>(f),
        None => {
            &&& out matches Ok(made)
            &&& body_of(mutation, name) matches Ok(body)
            &&& exists|v: u64| #[trigger]
                admits(body, root, name, "by"@, v) && made.by == v as usize
            &&& exists|v: u64| #[trigger]
                admits(body, root, name, "chunksize"@, v) && made.chunksize == v as usize
        },
    }
}

/// Reads the mutation `increment` from its entry, resolving its parameters afresh.
/// Nothing is drawn where every property that is resolved has a fault or is
/// settled by an exact number.
pub fn parse_increment(
    rng: &mut rand::rngs::StdRng,
    mutation: &Mapping,
    root_value: &Node,
) -> (parsed: Result<Increment, ConfigError>)
    ensures
        parses_increment(*mutation, *root_value, outcome(parsed)),
        still_increment(*mutation, *root_value) ==> *final(rng) == *old(rng),
{
    let mutation = body(mutation, "increment")?;
    let by = extract_u64_param(rng, mutation, root_value, "increment", "by")?;
    let chunksize = extract_u64_param(rng, mutation, root_value, "increment", "chunksize")?;
    Ok(
        Increment {
            by: #[verifier::truncate]
            (by as usize),
            chunksize: #[verifier::truncate]
            (chunksize as usize),
        },
    )
}

/// What is wrong with the entry `mutation` as the mutation `loop`: the
/// fault of its body, else the first fault among its properties
/// `chunksize`, `loopsize`, in that order; nothing where it can be
/// read.
pub open spec fn fault_of_loop(mutation: Mapping, root: Node) -> Option<Failure> {
    let name = "loop"@;
    match body_of(mutation, name) {
        Err(f) => Some(f),
        Ok(body) => or_else(
            property_fault(body, root, name, "chunksize"@),
            property_fault(body, root, name, "loopsize"@),
        ),
    }
}

/// Whether reading the mutation `loop` from the entry `mutation` draws
/// nothing: every property that is resolved has a fault or is settled by an
/// exact number.
pub open spec fn still_loop(mutation: Mapping, root: Node) -> bool {
    let name = "loop"@;
    match body_of(mutation, name) {
        Err(_) => true,
        Ok(body) => quiet_then(
            body,
            root,
            name,
            "chunksize"@,
            quiet(body, root, name, "loopsize"@),
        ),
    }
}

/// Whether `out` is a possible result of reading the mutation `loop` from
/// the entry `mutation`: its fault where it has one, else the mutation with
/// every property at a value it can resolve to.
pub open spec fn parses_loop(
    mutation: Mapping,
    root: Node,
    out: Result<Loop, Failure>,
) -> bool {
    let name = "loop"@;
    match fault_of_loop(mutation, root) {
        Some(f) => out == Err::<Loop, Failure>(f),
        None => {
            &&& out matches Ok(made)
            &&& body_of(mutation, name) matches Ok(body)
            &&& exists|v: u64| #[trigger]
                admits(body, root, name, "chunksize"@, v) && made.chunksize == v as usize
            &&& exists|v: u64| #[trigger]
                admits(body, root, name, "loopsize"@, v) && made.loopsize == v as usize
        },
    }
}

/// Reads the mutation `loop` from its entry, resolving its parameters afresh.
/// Nothing is drawn where every property that is resolved has a fault or is
/// settled by an exact number.
pub fn parse_loop(
    rng: &mut rand::rngs::StdRng,
    mutation: &Mapping,
    root_value: &Node,
) -> (parsed: Result<Loop, ConfigError>)
    ensures
        parses_loop(*mutation, *root_value, outcome(parsed)),
        still_loop(*mutation, *root_value) ==> *final(rng) == *old(rng),
{
    let mutation = body(mutation, "loop")?;
    let chunksize = extract_u64_param(rng, mutation, root_value, "loop", "chunksize")?;
    let loopsize = extract_u64_param(rng, mutation, root_value, "loop", "loopsize")?;
    Ok(
        Loop {
            loopsize: #[verifier::truncate]
            (loopsize as usize),
            chunksize: #[verifier::truncate]
            (chunksize as usize),
        },
    )
}

/// What is wrong with the entry `mutation` as the mutation `reverse`: the
/// fault of its body, else the fault of its property `chunksize`; nothing
/// where it can be read.
pub open spec fn fault_of_reverse(mutation: Mapping, root: Node) -> Option<Failure> {
    let name = "reverse"@;
    match body_of(mutation, name) {
        Err(f) => Some(f),
        Ok(body) => property_fault(body, root, name, "chunksize"@),
    }
}

/// Whether reading the mutation `reverse` from the entry `mutation` draws
/// nothing: every property that is resolved has a fault or is settled by an
/// exact number.
pub open spec fn still_reverse(mutation: Mapping, root: Node) -> bool {
    let name = "reverse"@;
    match body_of(mutation, name) {
        Err(_) => true,
        Ok(body) => quiet(body, root, name, "chunksize"@),
    }
}

/// Whether `out` is a possible result of reading the mutation `reverse` from
/// the entry `mutation`: its fault where it has one, else the mutation with
/// every property at a value it can resolve to.
pub open spec fn parses_reverse(
    mutation: Mapping,
    root: Node,
    out: Result<Reverse, Failure>,
) -> bool {
    let name = "reverse"@;
    match fault_of_reverse(mutation, root) {
        Some(f) => out == Err::<Reverse, Failure>(f),
        None => {
            &&& out matches Ok(made)
            &&& body_of(mutation, name) matches Ok(body)
            &&& exists|v: u64| #[trigger]
                admits(body, root, name, "chunksize"@, v) && made.chunksize == v as usize
        },
    }
}

/// Reads the mutation `reverse` from its entry, resolving its parameters afresh.
/// Nothing is drawn where every property that is resolved has a fault or is
/// settled by an exact number.
pub fn parse_reverse(
    rng: &mut rand::rngs::StdRng,
    mutation: &Mapping,
    root_value: &Node,
) -> (parsed: Result<Reverse, ConfigError>)
    ensures
        parses_reverse(*mutation, *root_value, outcome(parsed)),
        still_reverse(*mutation, *root_value) ==> *final(rng) == *old(rng),
{
    let mutation = body(mutation, "reverse")?;
    let chunksize = extract_u64_param(rng, mutation, root_value, "reverse", "chunksize")?;
    Ok(
        Reverse {
            chunksize: #[verifier::truncate]
            (chunksize as usize),
        },
    )
}

/// What is wrong with the entry `mutation` as the mutation `shuffle`: the
/// fault of its body, else the fault of its property `chunksize`; nothing
/// where it can be read.
pub open spec fn fault_of_shuffle(mutation: Mapping, root: Node) -> Option<Failure> {
    let name = "shuffle"@;
    match body_of(mutation, name) {
        Err(f) => Some(f),
        Ok(body) => property_fault(body, root, name, "chunksize"@),
    }
}

/// Whether reading the mutation `shuffle` from the entry `mutation` draws
/// nothing: every property that is resolved has a fault or is settled by an
/// exact number.
pub open spec fn still_shuffle(mutation: Mapping, root: Node) -> bool {
    let name = "shuffle"@;
    match body_of(mutation, name) {
        Err(_) => true,
        Ok(body) => quiet(body, root, name, "chunksize"@),
    }
}

/// Whether `out` is a possible result of reading the mutation `shuffle` from
/// the entry `mutation`: its fault where it has one, else the mutation with
/// every property at a value it can resolve to.
pub open spec fn parses_shuffle(
    mutation: Mapping,
    root: Node,
    out: Result<Shuffle, Failure>,
) -> bool {
    let name = "shuffle"@;
    match fault_of_shuffle(mutation, root) {
        Some(f) => out == Err::<Shuffle, Failure>(f),
        None => {
            &&& out matches Ok(made)
            &&& body_of(mutation, name) matches Ok(body)
            &&& exists|v: u64| #[trigger]
                admits(body, root, name, "chunksize"@, v) && made.chunksize == v as usize
        },
    }
}

/// Reads the mutation `shuffle` from its entry, resolving its parameters afresh.
/// Nothing is drawn where every property that is resolved has a fault or is
/// settled by an exact number.
pub fn parse_shuffle(
    rng: &mut rand::rngs::StdRng,
    mutation: &Mapping,
    root_value: &Node,
) -> (parsed: Result<Shuffle, ConfigError>)
    ensures
        parses_shuffle(*mutation, *root_value, outcome(parsed)),
        still_shuffle(*mutation, *root_value) ==> *final(rng) == *old(rng),
{
    let mutation = body(mutation, "shuffle")?;
    let chunksize = extract_u64_param(rng, mutation, root_value, "shuffle", "chunksize")?;
    Ok(
        Shuffle {
            chunksize: #[verifier::truncate]
            (chunksize as usize),
        },
    )
}

/// What is wrong with the entry `mutation` as the mutation `shift`: the
/// fault of its body, else the first fault among its properties
/// `by`, `chunksize`, in that order; nothing where it can be
/// read.
pub open spec fn fault_of_shift(mutation: Mapping, root: Node) -> Option<Failure> {
    let name = "shift"@;
    match body_of(mutation, name) {
        Err(f) => Some(f),
        Ok(body) => or_else(
            property_fault(body, root, name, "by"@),
            property_fault(body, root, name, "chunksize"@),
        ),
    }
}

/// Whether reading the mutation `shift` from the entry `mutation` draws
/// nothing: every property that is resolved has a fault or is settled by an
/// exact number.
pub open spec fn still_shift(mutation: Mapping, root: Node) -> bool {
    let name = "shift"@;
    match body_of(mutation, name) {
        Err(_) => true,
        Ok(body) => quiet_then(
            body,
            root,
            name,
            "by"@,
            quiet(body, root, name, "chunksize"@),
        ),
    }
}

/// Whether `out` is a possible result of reading the mutation `shift` from
/// the entry `mutation`: its fault where it has one, else the mutation with
/// every property at a value it can resolve to.
/// No offset is read: `from` is zero.
pub open spec fn parses_shift(
    mutation: Mapping,
    root: Node,
    out: Result<Shift, Failure>,
) -> bool {
    let name = "shift"@;
    match fault_of_shift(mutation, root) {
        Some(f) => out == Err::<Shift, Failure>(f),
        None => {
            &&& out matches Ok(made)
            &&& body_of(mutation, name) matches Ok(body)
            &&& exists|v: u64| #[trigger]
                admits(body, root, name, "by"@, v) && made.by == v as usize
            &&& exists|v: u64| #[trigger]
                admits(body, root, name, "chunksize"@, v) && made.chunksize == v as usize
            &&& made.from == 0
        },
    }
}

/// Reads the mutation `shift` from its entry, resolving its parameters afresh.
/// Nothing is drawn where every property that is resolved has a fault or is
/// settled by an exact number.
pub fn parse_shift(
    rng: &mut rand::rngs::StdRng,
    mutation: &Mapping,
    root_value: &Node,
) -> (parsed: Result<Shift, ConfigError>)
    ensures
        parses_shift(*mutation, *root_value, outcome(parsed)),
        still_shift(*mutation, *root_value) ==> *final(rng) == *old(rng),
{
    let mutation = body(mutation, "shift")?;
    let by = extract_u64_param(rng, mutation, root_value, "shift", "by")?;
    let chunksize = extract_u64_param(rng, mutation, root_value, "shift", "chunksize")?;
    Ok(
        Shift {
            from: 0,
            by: #[verifier::truncate]
            (by as usize),
            chunksize: #[verifier::truncate]
            (chunksize as usize),
        },
    )
}

/// What is wrong with the entry `mutation` as the mutation `swap`: the
/// fault of its body, else the fault of its property `chunksize`; nothing
/// where it can be read.
pub open spec fn fault_of_swap(mutation: Mapping, root: Node) -> Option<Failure> {
    let name = "swap"@;
    match body_of(mutation, name) {
        Err(f) => Some(f),
        Ok(body) => property_fault(body, root, name, "chunksize"@),
    }
}

/// Whether reading the mutation `swap` from the entry `mutation` draws
/// nothing: every property that is resolved has a fault or is settled by an
/// exact number.
pub open spec fn still_swap(mutation: Mapping, root: Node) -> bool {
    let name = "swap"@;
    match body_of(mutation, name) {
        Err(_) => true,
        Ok(body) => quiet(body, root, name, "chunksize"@),
    }
}

/// Whether `out` is a possible result of reading the mutation `swap` from
/// the entry `mutation`: its fault where it has one, else the mutation with
/// every property at a value it can resolve to.
pub open spec fn parses_swap(
    mutation: Mapping,
    root: Node,
    out: Result<Swap, Failure>,
) -> bool {
    let name = "swap"@;
    match fault_of_swap(mutation, root) {
        Some(f) => out == Err::<Swap, Failure>(f),
        None => {
            &&& out matches Ok(made)
            &&& body_of(mutation, name) matches Ok(body)
            &&& exists|v: u64| #[trigger]
                admits(body, root, name, "chunksize"@, v) && made.chunksize == v as usize
        },
    }
}

/// Reads the mutation `swap` from its entry, resolving its parameters afresh.
/// Nothing is drawn where every property that is resolved has a fault or is
/// settled by an exact number.
pub fn parse_swap(
    rng: &mut rand::rngs::StdRng,
    mutation: &Mapping,
    root_value: &Node,
) -> (parsed: Result<Swap, ConfigError>)
    ensures
        parses_swap(*mutation, *root_value, outcome(parsed)),
        still_swap(*mutation, *root_value) ==> *final(rng) == *old(rng),
{
    let mutation = body(mutation, "swap")?;
    let chunksize = extract_u64_param(rng, mutation, root_value, "swap", "chunksize")?;
    Ok(
        Swap {
            chunksize: #[verifier::truncate]
            (chunksize as usize),
        },
    )
}

/// What is wrong with the entry `mutation` as the mutation `voidout`: the
/// fault of its body, else the fault of its property `chunksize`; nothing
/// where it can be read.
pub open spec fn fault_of_voidout(mutation: Mapping, root: Node) -> Option<Failure> {
    let name = "voidout"@;
    match body_of(mutation, name) {
        Err(f) => Some(f),
        Ok(body) => property_fault(body, root, name, "chunksize"@),
    }
}

/// Whether reading the mutation `voidout` from the entry `mutation` draws
/// nothing: every property that is resolved has a fault or is settled by an
/// exact number.
pub open spec fn still_voidout(mutation: Mapping, root: Node) -> bool {
    let name = "voidout"@;
    match body_of(mutation, name) {
        Err(_) => true,
        Ok(body) => quiet(body, root, name, "chunksize"@),
    }
}

/// Whether `out` is a possible result of reading the mutation `voidout` from
/// the entry `mutation`: its fault where it has one, else the mutation with
/// every property at a value it can resolve to.
pub open spec fn parses_voidout(
    mutation: Mapping,
    root: Node,
    out: Result<Voidout, Failure>,
) -> bool {
    let name = "voidout"@;
    match fault_of_voidout(mutation, root) {
        Some(f) => out == Err::<Voidout, Failure>(f),
        None => {
            &&& out matches Ok(made)
            &&& body_of(mutation, name) matches Ok(body)
            &&& exists|v: u64| #[trigger]
                admits(body, root, name, "chunksize"@, v) && made.chunksize == v as usize
        },
    }
}

/// Reads the mutation `voidout` from its entry, resolving its parameters afresh.
/// Nothing is drawn where every property that is resolved has a fault or is
/// settled by an exact number.
pub fn parse_voidout(
    rng: &mut rand::rngs::StdRng,
    mutation: &Mapping,
    root_value: &Node,
) -> (parsed: Result<Voidout, ConfigError>)
    ensures
        parses_voidout(*mutation, *root_value, outcome(parsed)),
        still_voidout(*mutation, *root_value) ==> *final(rng) == *old(rng),
{
    let mutation = body(mutation, "voidout")?;
    let chunksize = extract_u64_param(rng, mutation, root_value, "voidout", "chunksize")?;
    Ok(
        Voidout {
            chunksize: #[verifier::truncate]
            (chunksize as usize),
        },
    )
}

/// Whether `node` is a number of any kind.
pub open spec fn is_number(node: Node) -> bool {
    node is Unsigned || node is Negative || node is Real
}

/// Whether every element of a list of choices is a number.
pub open spec fn all_real(options: Seq<Node>) -> bool {
    forall|i: int| 0 <= i < options.len() ==> is_number(#[trigger] options[i])
}

/// Decides whether `node` is a number of any kind.
fn holds_number(node: &Node) -> (number: bool)
    ensures
        number == is_number(*node),
{
    match node {
        Node::Unsigned(_) => true,
        Node::Negative(_) => true,
        Node::Real(_) => true,
        _ => false,
    }
}

/// Decides whether every element of a list of choices is a number.
pub fn check_real_elements(options: &Vec<Node>) -> (valid: bool)
    ensures
        valid == all_real(options@),
{
    let count: usize = options.len();
    let mut i: usize = 0;
    while i < count
        invariant
            i <= count,
            count == options@.len(),
            forall|j: int| 0 <= j < i ==> is_number(#[trigger] options@[j]),
        decreases count - i,
    {
        if !holds_number(&options[i]) {
            return false;
        }
        i += 1;
    }
    true
}

/// A real-valued setting with its shape settled: what is left is to read
/// the numbers and to draw.
pub enum RealSetting<'a> {
    /// An exact number.
    Exact(&'a Node),
    /// A range; both bounds are numbers. The range is `[min, max)`.
    Range { min: &'a Node, max: &'a Node },
    /// A list of choices that is not empty and holds nothing but numbers.
    Choice(&'a Vec<Node>),
}

/// A `RealSetting` as contracts speak of it.
pub enum RealSettingView {
    Exact(Node),
    Range { min: Node, max: Node },
    Choice(Seq<Node>),
}

impl<'a> View for RealSetting<'a> {
    type V = RealSettingView;

    open spec fn view(&self) -> RealSettingView {
        match self {
            RealSetting::Exact(number) => RealSettingView::Exact(**number),
            RealSetting::Range { min, max } => RealSettingView::Range { min: **min, max: **max },
            RealSetting::Choice(options) => RealSettingView::Choice(options@),
        }
    }
}

/// What the node `param`, read under `path`, says as the setting of a real
/// number.
///
/// - A number of any kind is an exact value.
/// - A mapping is a range: `min` and `max` are both required, then both must
///   be numbers; the first fault in that order is the result, under the path
///   of the bound.
/// - A sequence is a list of choices: it must not be empty, and every
///   element must be a number.
/// - Any other node is a fault.
pub open spec fn real_setting_of(param: Node, path: Seq<char>) -> Result<
    RealSettingView,
    Failure,
> {
    match param {
        Node::Mapping(range) => match (range.lookup("min"@), range.lookup("max"@)) {
            (None, _) => Err(failure(Fault::BoundMissing, path + ".min"@)),
            (Some(_), None) => Err(failure(Fault::BoundMissing, path + ".max"@)),
            (Some(min), Some(max)) => if !is_number(min) {
                Err(failure(Fault::BoundNotNumber, path + ".min"@))
            } else if !is_number(max) {
                Err(failure(Fault::BoundNotNumber, path + ".max"@))
            } else {
                Ok(RealSettingView::Range { min, max })
            },
        },
        Node::Sequence(options) => if options@.len() == 0 {
            Err(failure(Fault::EmptyList, path))
        } else if !all_real(options@) {
            Err(failure(Fault::ElementNotNumber, path))
        } else {
            Ok(RealSettingView::Choice(options@))
        },
        _ => if is_number(param) {
            Ok(RealSettingView::Exact(param))
        } else {
            Err(failure(Fault::Unreadable, path))
        },
    }
}

/// What is wrong with the node `param`, read under `path`, as the setting of
/// a real number; nothing where its shape is settled.
pub open spec fn real_fault_in(param: Node, path: Seq<char>) -> Option<Failure> {
    match real_setting_of(param, path) {
        Err(f) => Some(f),
        Ok(_) => None,
    }
}

/// Settles the shape of a real-valued setting: an exact number, a range with
/// both bounds, or a list of choices. Nothing is read as a real number and
/// nothing is drawn.
pub fn real_setting<'a>(param: &'a Node, property_path: &str) -> (setting: Result<
    RealSetting<'a>,
    ConfigError,
>)
    ensures
        match setting {
            Ok(settled) => real_setting_of(*param, property_path@) == Ok::<
                RealSettingView,
                Failure,
            >(settled@),
            Err(error) => real_setting_of(*param, property_path@) == Err::<
                RealSettingView,
                Failure,
            >(error@),
        },
{
    if holds_number(param) {
        Ok(RealSetting::Exact(param))
    } else if let Some(range) = param.as_mapping() {
        let min = match range.get("min") {
            Some(value) => value,
            None => {
                let path = String::from_str(property_path).concat(".min");
                return Err(ConfigError { fault: Fault::BoundMissing, path });
            },
        };
        let max = match range.get("max") {
            Some(value) => value,
            None => {
                let path = String::from_str(property_path).concat(".max");
                return Err(ConfigError { fault: Fault::BoundMissing, path });
            },
        };
        if !holds_number(min) {
            let path = String::from_str(property_path).concat(".min");
            return Err(ConfigError { fault: Fault::BoundNotNumber, path });
        }
        if !holds_number(max) {
            let path = String::from_str(property_path).concat(".max");
            return Err(ConfigError { fault: Fault::BoundNotNumber, path });
        }
        Ok(RealSetting::Range { min, max })
    } else if let Some(options) = param.as_sequence() {
        if options.len() == 0 {
            return Err(ConfigError::new(Fault::EmptyList, property_path));
        }
        if !check_real_elements(options) {
            return Err(ConfigError::new(Fault::ElementNotNumber, property_path));
        }
        Ok(RealSetting::Choice(options))
    } else {
        Err(ConfigError::new(Fault::Unreadable, property_path))
    }
}

/// What a `multiply` entry settles without real arithmetic: the shape of the
/// factor, the path it is read under, and the chunk size. The factor is a
/// real number, which the caller reads and draws.
pub struct MultiplySetting<'a> {
    pub by: RealSetting<'a>,
    pub by_path: String,
    pub chunksize: usize,
}

/// A `MultiplySetting` as contracts speak of it.
pub struct MultiplyView {
    pub by: RealSettingView,
    pub by_path: Seq<char>,
    pub chunksize: usize,
}

impl<'a> View for MultiplySetting<'a> {
    type V = MultiplyView;

    open spec fn view(&self) -> MultiplyView {
        MultiplyView { by: self.by@, by_path: self.by_path@, chunksize: self.chunksize }
    }
}

/// What is wrong with the property `by` of a `multiply` body: the fault of
/// finding its node, else the fault in that node as a real-valued setting.
pub open spec fn factor_fault(body: Mapping, root: Node) -> Option<Failure> {
    match setting_of(body, root, "multiply"@, "by"@) {
        Err(f) => Some(f),
        Ok((param, path)) => real_fault_in(param, path),
    }
}

/// What is wrong with the entry `mutation` as the mutation `multiply`: the
/// fault of its body, else the fault of its property `by`, else the fault of
/// its property `chunksize`; nothing where it can be read.
pub open spec fn fault_of_multiply(mutation: Mapping, root: Node) -> Option<Failure> {
    let name = "multiply"@;
    match body_of(mutation, name) {
        Err(f) => Some(f),
        Ok(body) => or_else(
            factor_fault(body, root),
            property_fault(body, root, name, "chunksize"@),
        ),
    }
}

/// Whether reading the mutation `multiply` from the entry `mutation` draws
/// nothing: `by` is never drawn here, so `chunksize` decides where it is
/// resolved.
pub open spec fn still_multiply(mutation: Mapping, root: Node) -> bool {
    let name = "multiply"@;
    match body_of(mutation, name) {
        Err(_) => true,
        Ok(body) => factor_fault(body, root) is Some || quiet(body, root, name, "chunksize"@),
    }
}

/// Whether `out` is a possible result of reading the mutation `multiply`
/// from the entry `mutation`: its fault where it has one, else the settled
/// shape of `by` with its path, and `chunksize` at a value it can resolve
/// to.
pub open spec fn parses_multiply(mutation: Mapping, root: Node, out: Result<
    MultiplyView,
    Failure,
>) -> bool {
    let name = "multiply"@;
    match fault_of_multiply(mutation, root) {
        Some(f) => out == Err::<MultiplyView, Failure>(f),
        None => {
            &&& out matches Ok(made)
            &&& body_of(mutation, name) matches Ok(body)
            &&& setting_of(body, root, name, "by"@) matches Ok((param, path))
            &&& made.by_path == path
            &&& real_setting_of(param, path) == Ok::<RealSettingView, Failure>(made.by)
            &&& exists|v: u64| #[trigger]
                admits(body, root, name, "chunksize"@, v) && made.chunksize == v as usize
        },
    }
}

/// Reads a `multiply` mutation as far as whole numbers go: it settles the
/// shape of the factor and resolves the chunk size.
pub fn parse_multiply<'a>(
    rng: &mut rand::rngs::StdRng,
    mutation: &'a Mapping,
    root_value: &'a Node,
) -> (parsed: Result<MultiplySetting<'a>, ConfigError>)
    ensures
        match parsed {
            Ok(made) => parses_multiply(*mutation, *root_value, Ok(made@)),
            Err(error) => parses_multiply(*mutation, *root_value, Err(error@)),
        },
        still_multiply(*mutation, *root_value) ==> *final(rng) == *old(rng),
{
    let mutation = body(mutation, "multiply")?;
    let (param, by_path) = find_param(mutation, root_value, "multiply", "by")?;
    let by = real_setting(param, by_path.as_str())?;
    let chunksize = extract_u64_param(rng, mutation, root_value, "multiply", "chunksize")?;
    Ok(MultiplySetting { by, by_path, chunksize: #[verifier::truncate]
    (chunksize as usize) })
}

/// A mutation read from a configuration entry.
pub enum Parsed<'a> {
    /// A mutation that is ready to be applied.
    Ready(Instance),
    /// A `multiply` mutation, whose factor is still to be read and drawn.
    Multiply(MultiplySetting<'a>),
}

/// A `Parsed` as contracts speak of it.
pub enum ParsedView {
    Ready(Instance),
    Multiply(MultiplyView),
}

impl<'a> View for Parsed<'a> {
    type V = ParsedView;

    open spec fn view(&self) -> ParsedView {
        match self {
            Parsed::Ready(instance) => ParsedView::Ready(*instance),
            Parsed::Multiply(setting) => ParsedView::Multiply(setting@),
        }
    }
}

/// The kind of mutation an entry is for: its first key, which must be text
/// and name a mutation. `path` is the path of the entry, under which an
/// entry without a key or with a key that is not text is reported.
pub open spec fn kind_of(mutation: Mapping, path: Seq<char>) -> Result<MutationKind, Failure> {
    if mutation.entries@.len() == 0 {
        Err(failure(Fault::KeyCount { found: 0 }, path))
    } else {
        match mutation.entries@[0].0 {
            Node::Text(name) => match MutationKind::named(name@) {
                Some(kind) => Ok(kind),
                None => Err(failure(Fault::UnknownMutation, name@)),
            },
            _ => Err(failure(Fault::NameNotText, path)),
        }
    }
}

/// What is wrong with the entry `mutation` at `path`: the fault of its kind,
/// else its fault as the mutation of that kind; nothing where it can be
/// read.
pub open spec fn mutation_fault(mutation: Mapping, root: Node, path: Seq<char>) -> Option<
    Failure,
> {
    match kind_of(mutation, path) {
        Err(f) => Some(f),
        Ok(kind) => match kind {
            MutationKind::Chaos => fault_of_chaos(mutation, root),
            MutationKind::Expand => fault_of_expand(mutation, root),
            MutationKind::Compress => fault_of_compress(mutation, root),
            MutationKind::Accelerate => fault_of_accelerate(mutation, root),
            MutationKind::Increment => fault_of_increment(mutation, root),
            MutationKind::Loop => fault_of_loop(mutation, root),
            MutationKind::Reverse => fault_of_reverse(mutation, root),
            MutationKind::Shuffle => fault_of_shuffle(mutation, root),
            MutationKind::Voidout => fault_of_voidout(mutation, root),
            MutationKind::Swap => fault_of_swap(mutation, root),
            MutationKind::Shift => fault_of_shift(mutation, root),
            MutationKind::Multiply => fault_of_multiply(mutation, root),
        },
    }
}

/// Whether reading the entry `mutation` draws nothing.
pub open spec fn still_mutation(mutation: Mapping, root: Node, path: Seq<char>) -> bool {
    match kind_of(mutation, path) {
        Err(_) => true,
        Ok(kind) => match kind {
            MutationKind::Chaos => still_chaos(mutation, root),
            MutationKind::Expand => still_expand(mutation, root),
            MutationKind::Compress => still_compress(mutation, root),
            MutationKind::Accelerate => still_accelerate(mutation, root),
            MutationKind::Increment => still_increment(mutation, root),
            MutationKind::Loop => still_loop(mutation, root),
            MutationKind::Reverse => still_reverse(mutation, root),
            MutationKind::Shuffle => still_shuffle(mutation, root),
            MutationKind::Voidout => still_voidout(mutation, root),
            MutationKind::Swap => still_swap(mutation, root),
            MutationKind::Shift => still_shift(mutation, root),
            MutationKind::Multiply => still_multiply(mutation, root),
        },
    }
}

/// Whether `out` is a possible result of reading the entry `mutation` at
/// `path`: its fault where it has one, else a possible result of reading the
/// mutation of its kind.
pub open spec fn parses_mutation(
    mutation: Mapping,
    root: Node,
    path: Seq<char>,
    out: Result<ParsedView, Failure>,
) -> bool {
    match mutation_fault(mutation, root, path) {
        Some(f) => out == Err::<ParsedView, Failure>(f),
        None => {
            &&& out matches Ok(parsed)
            &&& kind_of(mutation, path) matches Ok(kind)
            &&& match parsed {
                ParsedView::Ready(Instance::Chaos(made)) => kind == MutationKind::Chaos
                    && parses_chaos(mutation, root, Ok(made)),
                ParsedView::Ready(Instance::Expand(made)) => kind == MutationKind::Expand
                    && parses_expand(mutation, root, Ok(made)),
                ParsedView::Ready(Instance::Compress(made)) => kind == MutationKind::Compress
                    && parses_compress(mutation, root, Ok(made)),
                ParsedView::Ready(Instance::Accelerate(made)) => kind == MutationKind::Accelerate
                    && parses_accelerate(mutation, root, Ok(made)),
                ParsedView::Ready(Instance::Increment(made)) => kind == MutationKind::Increment
                    && parses_increment(mutation, root, Ok(made)),
                ParsedView::Ready(Instance::Loop(made)) => kind == MutationKind::Loop
                    && parses_loop(mutation, root, Ok(made)),
                ParsedView::Ready(Instance::Reverse(made)) => kind == MutationKind::Reverse
                    && parses_reverse(mutation, root, Ok(made)),
                ParsedView::Ready(Instance::Shuffle(made)) => kind == MutationKind::Shuffle
                    && parses_shuffle(mutation, root, Ok(made)),
                ParsedView::Ready(Instance::Voidout(made)) => kind == MutationKind::Voidout
                    && parses_voidout(mutation, root, Ok(made)),
                ParsedView::Ready(Instance::Swap(made)) => kind == MutationKind::Swap
                    && parses_swap(mutation, root, Ok(made)),
                ParsedView::Ready(Instance::Shift(made)) => kind == MutationKind::Shift
                    && parses_shift(mutation, root, Ok(made)),
                ParsedView::Multiply(made) => kind == MutationKind::Multiply
                    && parses_multiply(mutation, root, Ok(made)),
            }
        },
    }
}

/// Reads one mutation from the entry at `path`.
fn read_mutation<'a>(
    rng: &mut rand::rngs::StdRng,
    mutation: &'a Mapping,
    root_value: &'a Node,
    path: &str,
) -> (parsed: Result<Parsed<'a>, ConfigError>)
    ensures
        match parsed {
            Ok(made) => parses_mutation(*mutation, *root_value, path@, Ok(made@)),
            Err(error) => parses_mutation(*mutation, *root_value, path@, Err(error@)),
        },
        still_mutation(*mutation, *root_value, path@) ==> *final(rng) == *old(rng),
{
    if mutation.len() == 0 {
        return Err(ConfigError::new(Fault::KeyCount { found: 0 }, path));
    }
    let name = match mutation.entries[0].0.as_str() {
        Some(text) => text,
        None => { return Err(ConfigError::new(Fault::NameNotText, path)); },
    };
    let kind = MutationKind::from(name)?;
    match kind {
        MutationKind::Chaos => {
            let made = parse_chaos(rng, mutation, root_value)?;
            Ok(Parsed::Ready(Instance::Chaos(made)))
        },
        MutationKind::Expand => {
            let made = parse_expand(rng, mutation, root_value)?;
            Ok(Parsed::Ready(Instance::Expand(made)))
        },
        MutationKind::Compress => {
            let made = parse_compress(rng, mutation, root_value)?;
            Ok(Parsed::Ready(Instance::Compress(made)))
        },
        MutationKind::Accelerate => {
            let made = parse_accelerate(rng, mutation, root_value)?;
            Ok(Parsed::Ready(Instance::Accelerate(made)))
        },
        MutationKind::Increment => {
            let made = parse_increment(rng, mutation, root_value)?;
            Ok(Parsed::Ready(Instance::Increment(made)))
        },
        MutationKind::Loop => {
            let made = parse_loop(rng, mutation, root_value)?;
            Ok(Parsed::Ready(Instance::Loop(made)))
        },
        MutationKind::Reverse => {
            let made = parse_reverse(rng, mutation, root_value)?;
            Ok(Parsed::Ready(Instance::Reverse(made)))
        },
        MutationKind::Shuffle => {
            let made = parse_shuffle(rng, mutation, root_value)?;
            Ok(Parsed::Ready(Instance::Shuffle(made)))
        },
        MutationKind::Voidout => {
            let made = parse_voidout(rng, mutation, root_value)?;
            Ok(Parsed::Ready(Instance::Voidout(made)))
        },
        MutationKind::Swap => {
            let made = parse_swap(rng, mutation, root_value)?;
            Ok(Parsed::Ready(Instance::Swap(made)))
        },
        MutationKind::Shift => {
            let made = parse_shift(rng, mutation, root_value)?;
            Ok(Parsed::Ready(Instance::Shift(made)))
        },
        MutationKind::Multiply => {
            let made = parse_multiply(rng, mutation, root_value)?;
            Ok(Parsed::Multiply(made))
        },
    }
}

/// Reads one mutation from its configuration entry, resolving its
/// parameters afresh. The entry is taken to stand in the list `mutations`,
/// at no known place: a fault of the entry itself is reported under
/// `mutations`.
pub fn parse_mutation<'a>(
    rng: &mut rand::rngs::StdRng,
    mutation: &'a Mapping,
    root_value: &'a Node,
) -> (parsed: Result<Parsed<'a>, ConfigError>)
    ensures
        match parsed {
            Ok(made) => parses_mutation(*mutation, *root_value, "mutations"@, Ok(made@)),
            Err(error) => parses_mutation(*mutation, *root_value, "mutations"@, Err(error@)),
        },
        still_mutation(*mutation, *root_value, "mutations"@) ==> *final(rng) == *old(rng),
{
    read_mutation(rng, mutation, root_value, "mutations")
}

/// The path of entry `index` of the list of mutations: `mutations.<index>`.
pub open spec fn entry_path(index: nat) -> Seq<char> {
    "mutations."@ + decimal_text(index)
}

/// What is wrong with entry `index` of the list of mutations: it must be a
/// mapping with exactly one key, and is then read as a mutation. A fault of
/// the entry itself is reported under `mutations.<index>`.
pub open spec fn entry_fault(entry: Node, index: nat, root: Node) -> Option<Failure> {
    match entry {
        Node::Mapping(mutation) => if mutation.entries@.len() != 1 {
            Some(
                failure(
                    Fault::KeyCount { found: mutation.entries@.len() as usize },
                    entry_path(index),
                ),
            )
        } else {
            mutation_fault(mutation, root, entry_path(index))
        },
        _ => Some(failure(Fault::NotMap, entry_path(index))),
    }
}

/// Whether reading entry `index` of the list of mutations draws nothing.
pub open spec fn still_entry(entry: Node, index: nat, root: Node) -> bool {
    match entry {
        Node::Mapping(mutation) => mutation.entries@.len() != 1 || still_mutation(
            mutation,
            root,
            entry_path(index),
        ),
        _ => true,
    }
}

/// Whether `made` is a possible result of reading entry `index`, which has
/// no fault.
pub open spec fn reads_as(entry: Node, index: nat, root: Node, made: ParsedView) -> bool {
    entry matches Node::Mapping(mutation) && parses_mutation(
        mutation,
        root,
        entry_path(index),
        Ok(made),
    )
}

/// The entries of `mutations` in the document `root`, which must be a list.
pub open spec fn entries_of(root: Node) -> Result<Seq<Node>, Failure> {
    match root.lookup("mutations"@) {
        None => Err(failure(Fault::Missing, "mutations"@)),
        Some(Node::Sequence(entries)) => Ok(entries@),
        Some(_) => Err(failure(Fault::NotList, "mutations"@)),
    }
}

/// The first fault among the first `count` entries of the list of mutations;
/// nothing where they can all be read.
pub open spec fn fault_before(entries: Seq<Node>, root: Node, count: nat) -> Option<Failure>
    decreases count,
{
    if count == 0 {
        None
    } else {
        or_else(
            fault_before(entries, root, (count - 1) as nat),
            entry_fault(entries[count - 1], (count - 1) as nat, root),
        )
    }
}

/// Whether reading the first `count` entries of the list of mutations draws
/// nothing: every entry that is read, up to the first with a fault, draws
/// nothing.
pub open spec fn still_before(entries: Seq<Node>, root: Node, count: nat) -> bool
    decreases count,
{
    if count == 0 {
        true
    } else {
        &&& still_before(entries, root, (count - 1) as nat)
        &&& fault_before(entries, root, (count - 1) as nat) is Some || still_entry(
            entries[count - 1],
            (count - 1) as nat,
            root,
        )
    }
}

/// A fault among the first entries is the first fault of the whole list.
proof fn lemma_fault_stays(entries: Seq<Node>, root: Node, count: nat, upto: nat)
    requires
        count <= upto,
        fault_before(entries, root, count) is Some,
    ensures
        fault_before(entries, root, upto) == fault_before(entries, root, count),
    decreases upto,
{
    if count < upto {
        lemma_fault_stays(entries, root, count, (upto - 1) as nat);
    }
}

/// Where reading the whole list draws nothing, reading its first entries
/// draws nothing.
proof fn lemma_still_from_start(entries: Seq<Node>, root: Node, count: nat, upto: nat)
    requires
        count <= upto,
        still_before(entries, root, upto),
    ensures
        still_before(entries, root, count),
    decreases upto,
{
    if count < upto {
        lemma_still_from_start(entries, root, count, (upto - 1) as nat);
    }
}

/// Reads the whole list of mutations, in order, resolving every parameter
/// afresh. The first entry with a fault ends the read with that fault.
/// Nothing is drawn where no entry that is read draws.
pub fn parse_mutations<'a>(rng: &mut rand::rngs::StdRng, root_value: &'a Node) -> (parsed: Result<
    Vec<Parsed<'a>>,
    ConfigError,
>)
    ensures
        match entries_of(*root_value) {
            Err(f) => parsed matches Err(error) && error@ == f && *final(rng) == *old(rng),
            Ok(entries) => {
                &&& match fault_before(entries, *root_value, entries.len()) {
                    Some(f) => parsed matches Err(error) && error@ == f,
                    None => {
                        &&& parsed matches Ok(made)
                        &&& made@.len() == entries.len()
                        &&& forall|i: int|
                            0 <= i < made@.len() ==> reads_as(
                                entries[i],
                                i as nat,
                                *root_value,
                                (#[trigger] made@[i])@,
                            )
                    },
                }
                &&& still_before(entries, *root_value, entries.len()) ==> *final(rng) == *old(
                    rng,
                )
            },
        },
{
    let mutations = match child(root_value, "mutations", "mutations")?.as_sequence() {
        Some(list) => list,
        None => { return Err(ConfigError::new(Fault::NotList, "mutations")); },
    };
    let count: usize = mutations.len();
    let mut made: Vec<Parsed<'a>> = Vec::new();
    let mut i: usize = 0;
    while i < count
        invariant
            i <= count,
            count == mutations@.len(),
            entries_of(*root_value) == Ok::<Seq<Node>, Failure>(mutations@),
            made@.len() == i,
            fault_before(mutations@, *root_value, i as nat) is None,
            still_before(mutations@, *root_value, i as nat) ==> *rng == *old(rng),
            forall|k: int|
                0 <= k < i ==> reads_as(
                    mutations@[k],
                    k as nat,
                    *root_value,
                    (#[trigger] made@[k])@,
                ),
        decreases count - i,
    {
        proof {
            if still_before(mutations@, *root_value, count as nat) {
                lemma_still_from_start(mutations@, *root_value, (i + 1) as nat, count as nat);
            }
        }
        match read_entry(rng, &mutations[i], i, root_value) {
            Ok(next) => {
                made.push(next);
            },
            Err(error) => {
                proof {
                    lemma_fault_stays(mutations@, *root_value, (i + 1) as nat, count as nat);
                }
                return Err(error);
            },
        }
        i += 1;
    }
    Ok(made)
}

/// Reads entry `index` of the list of mutations.
fn read_entry<'a>(
    rng: &mut rand::rngs::StdRng,
    entry: &'a Node,
    index: usize,
    root_value: &'a Node,
) -> (parsed: Result<Parsed<'a>, ConfigError>)
    ensures
        match parsed {
            Ok(made) => entry_fault(*entry, index as nat, *root_value) is None && reads_as(
                *entry,
                index as nat,
                *root_value,
                made@,
            ),
            Err(error) => entry_fault(*entry, index as nat, *root_value) == Some(error@),
        },
        still_entry(*entry, index as nat, *root_value) ==> *final(rng) == *old(rng),
{
    let path = String::from_str("mutations.").concat(decimal(index).as_str());
    let mutation = match entry.as_mapping() {
        Some(mapping) => mapping,
        None => { return Err(ConfigError { fault: Fault::NotMap, path }); },
    };
    let keys: usize = mutation.len();
    if keys != 1 {
        return Err(ConfigError { fault: Fault::KeyCount { found: keys }, path });
    }
    read_mutation(rng, mutation, root_value, path.as_str())
}

/// An exact number resolves to itself, whatever is drawn.
pub proof fn law_exact_is_literal(exact: u64, path: Seq<char>, out: Result<u64, Failure>)
    requires
        resolves_to(Node::Unsigned(exact), path, out),
    ensures
        out == Ok::<u64, Failure>(exact),
{
}

/// A property that is settled by an exact number resolves to that number and
/// draws nothing, on every call.
pub proof fn law_exact_property_is_quiet(
    mutation: Mapping,
    root: Node,
    mutation_name: Seq<char>,
    property_name: Seq<char>,
    exact: u64,
    path: Seq<char>,
    out: Result<u64, Failure>,
)
    requires
        setting_of(mutation, root, mutation_name, property_name) == Ok::<
            (Node, Seq<char>),
            Failure,
        >((Node::Unsigned(exact), path)),
        yields(mutation, root, mutation_name, property_name, out),
    ensures
        out == Ok::<u64, Failure>(exact),
        quiet(mutation, root, mutation_name, property_name),
{
}

/// A range resolves to a number `v` with `min <= v < max`; where `max` is
/// `min + 1`, that number is `min`.
pub proof fn law_range_is_half_open(
    range: Mapping,
    path: Seq<char>,
    min: u64,
    max: u64,
    out: Result<u64, Failure>,
)
    requires
        bounds_of(range, path) == Ok::<(u64, u64), Failure>((min, max)),
        min < max,
        resolves_to(Node::Mapping(range), path, out),
    ensures
        out matches Ok(v) && min <= v < max,
        max == min + 1 ==> out == Ok::<u64, Failure>(min),
{
}

/// A list of choices resolves to one of its elements.
pub proof fn law_choice_is_element(options: Vec<Node>, path: Seq<char>, v: u64)
    requires
        resolves_to(Node::Sequence(options), path, Ok(v)),
    ensures
        options@.contains(Node::Unsigned(v)),
{
}

/// Every element of a list of choices is a possible choice.
pub proof fn law_every_element_possible(options: Vec<Node>, path: Seq<char>, i: int)
    requires
        0 <= i < options@.len(),
        all_numbers(options@),
    ensures
        options@[i] matches Node::Unsigned(v) && resolves_to(
            Node::Sequence(options),
            path,
            Ok(v),
        ),
{
}

/// The fault of a node is all that can go wrong with it: a node resolves to
/// an error exactly where it has a fault, and that fault is the error.
pub proof fn law_faults_are_settled(param: Node, path: Seq<char>, out: Result<u64, Failure>)
    requires
        resolves_to(param, path, out),
    ensures
        out is Err <==> fault_in(param, path) is Some,
        out matches Err(f) ==> fault_in(param, path) == Some(f),
{
}

/// A key built from a property name that contains `chunksize` contains
/// `chunksize` itself.
pub proof fn lemma_key_keeps_chunksize(mutation_name: Seq<char>, property_name: Seq<char>)
    requires
        occurs_in(property_name, "chunksize"@),
    ensures
        occurs_in(default_key(mutation_name, property_name), "chunksize"@),
{
    let needle = "chunksize"@;
    let key = default_key(mutation_name, property_name);
    let i = choose|i: int|
        0 <= i && i + needle.len() <= property_name.len() && #[trigger] property_name.subrange(
            i,
            i + needle.len(),
        ) == needle;
    let shift = mutation_name.len() + 1;
    assert(("."@).len() == 1) by {
        reveal_strlit(".");
    }
    assert(key.subrange(shift + i, shift + i + needle.len()) =~= property_name.subrange(
        i,
        i + needle.len(),
    ));
}

/// A property that the mutation's entry leaves out is settled by the
/// default under `<mutation>.<property>` and read under
/// `defaults.<mutation>.<property>`; what it resolves to goes by that
/// default's shape.
pub proof fn law_default_fallback(
    mutation: Mapping,
    root: Node,
    mutation_name: Seq<char>,
    property_name: Seq<char>,
    defaults: Node,
    default: Node,
    out: Result<u64, Failure>,
)
    requires
        mutation.lookup(property_name) is None,
        root.lookup("defaults"@) == Some(defaults),
        defaults.lookup(default_key(mutation_name, property_name)) == Some(default),
    ensures
        setting_of(mutation, root, mutation_name, property_name) == Ok::<
            (Node, Seq<char>),
            Failure,
        >((default, "defaults."@ + default_key(mutation_name, property_name))),
        yields(mutation, root, mutation_name, property_name, out) <==> resolves_to(
            default,
            "defaults."@ + default_key(mutation_name, property_name),
            out,
        ),
{
}

/// A property whose name contains `chunksize`, left out by the mutation's
/// entry and without a default under `<mutation>.<property>`, is settled by
/// the default under the bare key `chunksize`.
pub proof fn law_chunksize_fallback(
    mutation: Mapping,
    root: Node,
    mutation_name: Seq<char>,
    property_name: Seq<char>,
    defaults: Node,
    default: Node,
)
    requires
        occurs_in(property_name, "chunksize"@),
        mutation.lookup(property_name) is None,
        root.lookup("defaults"@) == Some(defaults),
        defaults.lookup(default_key(mutation_name, property_name)) is None,
        defaults.lookup("chunksize"@) == Some(default),
    ensures
        setting_of(mutation, root, mutation_name, property_name) == Ok::<
            (Node, Seq<char>),
            Failure,
        >((default, "defaults."@ + default_key(mutation_name, property_name))),
{
    lemma_key_keeps_chunksize(mutation_name, property_name);
}

} // verus!
