//! The ways in which bringing up the context can fail.
use vstd::prelude::*;

verus! {

/// Which kind of requested instance capability was not offered.
#[derive(Clone, Copy, Debug, PartialEq, Eq, Structural)]
pub enum ConfigItem {
    Extension,
    Layer,
}

#[derive(Clone, Debug, PartialEq, Eq)]
pub enum SetupError {
    /// A requested instance extension or layer is not supported; carries its name.
    Configuration(ConfigItem, String),
    /// No enumerated physical device meets the requirements.
    NoSuitableDevice,
    /// Device creation was attempted without both queue families known.
    IncompleteQueueFamilies,
    /// An object-creation call returned this status code.
    ResourceCreation(i32),
    /// A shader blob is missing or its length is not a multiple of four.
    ShaderLoad,
    /// Pipeline creation did not produce exactly one pipeline.
    PipelineCreation,
    /// Reserved for bounded waits; the waits are unbounded today.
    SynchronizationTimeout,
}

impl SetupError {
    /// This is the configuration error that names `name` as a missing `item`.
    pub open spec fn reports_missing(&self, item: ConfigItem, name: Seq<char>) -> bool {
        match self {
            SetupError::Configuration(i, n) => *i == item && n@ == name,
            _ => false,
        }
    }
}

} // verus!
