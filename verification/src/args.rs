//! The commands and options one invocation carries.
//!
//! Parsing the command line, resolving the platform's directories and
//! executing the external command all happen at the boundary; what
//! arrives here are plain values. A store command carries everything
//! its one step needs — for a cached command, the already-performed
//! execution's outcome.

use vstd::prelude::*;

use crate::cached::CmdOutcome;
use crate::json::Json;

verus! {

/// How JSON values are rendered at the output boundary.
#[derive(Debug, Clone, Copy, PartialEq, Eq, PartialOrd, Ord, Hash, Structural)]
pub enum JsonFormat {
    /// Accurate JSON text: top-level strings stay quoted and escaped.
    Accurate,
    /// Convenient text: top-level strings are emitted raw.
    Convenient,
}

impl Default for JsonFormat {
    fn default() -> (r: Self)
        ensures
            r == JsonFormat::Convenient,
    {
        JsonFormat::Convenient
    }
}

/// Options that hold for one whole invocation.
#[derive(Debug, PartialEq)]
pub struct Options {
    /// The configuration directory; the boundary resolves the
    /// platform's one and hands it in, the default is empty.
    pub config_dir: String,
    pub json_format: JsonFormat,
}

impl Default for Options {
    fn default() -> (r: Self)
        ensures
            r.config_dir@ == Seq::<char>::empty(),
            r.json_format == JsonFormat::Convenient,
    {
        Options { config_dir: String::new(), json_format: JsonFormat::Convenient }
    }
}

/// One operation against the key-value store.
#[derive(Debug, PartialEq, Eq)]
pub enum StoreCmd {
    /// Get a value from the store.
    Get { key: String },
    /// Set a value in the store.
    Put { key: String, value: Json },
    /// Remove the value associated with a key; reports whether one
    /// was there, which differs from setting a value to `null`.
    Unset { key: String },
    /// List all key-value pairs in the database.
    List,
    /// Cycle between a list of values in order, selecting the first
    /// when the key is unset or holds none of them.
    Cycle { key: String, values: Vec<Json>, reverse: bool },
    /// A command that was run once, its captured outcome, and the
    /// cache-fallback policy around it.
    Cached { cmd: String, outcome: CmdOutcome },
}

/// One system-information command.
#[derive(Debug, PartialEq, Eq)]
pub enum SystemCmd {
    /// Report the battery charge as an icon and a percentage.
    Battery {
        /// Spaces between the icon and the percentage.
        num_spaces: u32,
        /// Overrides the measured charge level; must be at most 100.
        override_percentage: Option<u8>,
        /// Overrides whether the battery is charging.
        override_charging: Option<bool>,
    },
}

} // verus!
