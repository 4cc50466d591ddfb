//! The descriptor model: what a parsed descriptor file declares.

use vstd::prelude::*;

verus! {

/// A parsed descriptor: the declaration of one synchronization target.
pub struct Config {
    pub target: Target,
}

/// The target table of a descriptor.
pub struct Target {
    pub style: RunnerConfig,
}

/// The backend selection: exactly one resource kind with its configuration.
pub enum RunnerConfig {
    /// The resource is the literal byte content at a path.
    Bytes(BytesConfig),
    /// The resource is a binary key-value settings store at a path.
    Dconf(DconfConfig),
}

/// Configuration of the raw-bytes backend.
pub struct BytesConfig {
    /// Resource path, relative to the descriptor's own directory.
    pub path: Vec<u8>,
}

/// Configuration of the settings-store backend.
pub struct DconfConfig {
    /// Resource path, relative to the descriptor's own directory.
    pub path: Vec<u8>,
    /// Key prefixes to leave out of the pulled serialization.
    pub exclude: Vec<Vec<u8>>,
}

impl Config {
    /// The resource path the selected backend is configured with.
    pub open spec fn path_spec(self) -> Seq<u8> {
        match self.target.style {
            RunnerConfig::Bytes(b) => b.path@,
            RunnerConfig::Dconf(d) => d.path@,
        }
    }

    /// Whether the raw-bytes backend is selected.
    pub open spec fn is_bytes(self) -> bool {
        self.target.style is Bytes
    }

    /// The configured exclusion prefixes (empty for the raw-bytes backend).
    pub open spec fn exclude_spec(self) -> Seq<Seq<u8>> {
        match self.target.style {
            RunnerConfig::Bytes(_) => Seq::empty(),
            RunnerConfig::Dconf(d) => d.exclude@.map_values(|e: Vec<u8>| e@),
        }
    }

    /// The resource path, as an executable borrow.
    pub fn path(&self) -> (r: &Vec<u8>)
        ensures
            r@ == self.path_spec(),
    {
        match &self.target.style {
            RunnerConfig::Bytes(b) => &b.path,
            RunnerConfig::Dconf(d) => &d.path,
        }
    }
}

} // verus!
