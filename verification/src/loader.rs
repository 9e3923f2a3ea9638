//! Module discovery: what to do with each file that the discovery directory
//! holds.
//!
//! Listing the directory and loading a module are the caller's work. This
//! file decides, for a file name given as the raw bytes of the platform,
//! whether the file is a module at all, whether it is the master module,
//! and at which path it is to be loaded.

use crate::text::same_bytes;
use crate::text::text_of;
use vstd::prelude::*;
use vstd::string::StringExecFns;
use vstd::string::StringSliceAdditionalSpecFns;
use vstd::utf8::decode_utf8;
use vstd::utf8::encode_utf8_valid_utf8;
use vstd::utf8::valid_utf8;

verus! {

/// The file name, without its extension, of the module that the framework
/// calls.
pub const MASTER_SERVICE_LIBRARY_NAME: &'static str = "master";

/// Error of a file whose name has no stem.
pub const MISSING_STEM: &'static str = "Missing stem from file name";

/// Error of a file whose name, or whose path, is not text.
pub const UNSUPPORTED_PATH: &'static str = "Unsupported path name";

/// Error of a module that could not be loaded.
pub const UNABLE_TO_REGISTER: &'static str = "Unable to register the service";

/// A file found in the discovery directory.
pub struct ModuleFile {
    /// The file name without its extension, if the path has one.
    pub stem: Option<Vec<u8>>,
    /// The whole path.
    pub path: Vec<u8>,
}

/// What a file in the discovery directory turns out to be.
#[derive(Copy, Clone, Debug, PartialEq, Eq, Structural)]
pub enum Finding {
    /// The path has no file name to take a stem from.
    MissingStem,
    /// The stem or the path is not text.
    UnsupportedPath,
    /// A well-named module other than the master: it is loaded, to see that
    /// it loads, and not retained.
    NotRetained,
    /// The master module: it is loaded and registered.
    Master,
}

/// What the caller is to do with a file.
pub enum LoadStep {
    /// Skip the file and report this error.
    Reject(&'static str),
    /// Load the module at this path, and hand what comes of it to the
    /// registry.
    Open(String),
}

/// The bytes of the master module's stem.
pub open spec fn master_stem() -> Seq<u8> {
    MASTER_SERVICE_LIBRARY_NAME.spec_bytes()
}

/// The pattern that matches the modules of a directory: every file of the
/// directory with the given extension.
pub open spec fn pattern_of(libraries_path: Seq<char>, extension: Seq<char>) -> Seq<char> {
    libraries_path + "/*."@ + extension
}

impl ModuleFile {
    /// Whether the file is named as the master module.
    pub open spec fn is_master(self) -> bool {
        self.stem matches Some(stem) && stem@ == master_stem()
    }

    /// What the file turns out to be. A file without a stem is no module.
    /// A module has a stem that is text, since the stem is its name, and
    /// lies at a path that is text, since the loader takes the path as
    /// text. The module named as the master is the master; every other is
    /// loaded and let go.
    pub open spec fn finding(self) -> Finding {
        match self.stem {
            None => Finding::MissingStem,
            Some(stem) => if !valid_utf8(stem@) || !valid_utf8(self.path@) {
                Finding::UnsupportedPath
            } else if stem@ == master_stem() {
                Finding::Master
            } else {
                Finding::NotRetained
            },
        }
    }

    /// Whether the file is named as the master module.
    pub fn names_master(&self) -> (master: bool)
        ensures
            master == self.is_master(),
    {
        match &self.stem {
            Some(stem) => same_bytes(stem.as_slice(), MASTER_SERVICE_LIBRARY_NAME.as_bytes()),
            None => false,
        }
    }

    /// Decides what to do with the file: every well-named module is to be
    /// loaded, the master and the others alike.
    pub fn examine(&self) -> (step: LoadStep)
        ensures
            match step {
                LoadStep::Reject(e) => {
                    ||| self.finding() == Finding::MissingStem && e@ == MISSING_STEM@
                    ||| self.finding() == Finding::UnsupportedPath && e@ == UNSUPPORTED_PATH@
                },
                LoadStep::Open(path) => {
                    &&& self.finding() == Finding::Master || self.finding()
                        == Finding::NotRetained
                    &&& path@ == decode_utf8(self.path@)
                },
            },
    {
        let stem = match &self.stem {
            None => return LoadStep::Reject(MISSING_STEM),
            Some(stem) => stem,
        };
        if same_bytes(stem.as_slice(), MASTER_SERVICE_LIBRARY_NAME.as_bytes()) {
            proof {
                encode_utf8_valid_utf8(MASTER_SERVICE_LIBRARY_NAME@);
            }
        } else if text_of(stem).is_none() {
            return LoadStep::Reject(UNSUPPORTED_PATH);
        }
        match text_of(&self.path) {
            None => LoadStep::Reject(UNSUPPORTED_PATH),
            Some(path) => LoadStep::Open(path),
        }
    }
}

/// Builds the pattern that matches the modules of a directory.
pub fn discovery_pattern(libraries_path: &str, extension: &str) -> (pattern: String)
    ensures
        pattern@ == pattern_of(libraries_path@, extension@),
{
    let mut pattern = String::from_str(libraries_path);
    pattern.append("/*.");
    pattern.append(extension);
    pattern
}

} // verus!
