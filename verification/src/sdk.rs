//! SDK path resolution: validates what the environment and the filesystem
//! report about the externally-cloned SDK directory.

use vstd::prelude::*;
use crate::config::Config;

verus! {

/// Why the SDK path could not be resolved.
#[derive(Clone, Copy, PartialEq, Eq, Structural, Debug)]
pub enum SdkError {
    /// The environment variable naming the SDK path is not set.
    NotSet,
    /// The named path is not an existing directory.
    NotADirectory,
    /// The `VERSION` marker file is missing inside the named directory.
    MissingVersionFile,
}

impl SdkError {
    /// The user-facing text of the failure.
    pub fn message(&self) -> (r: &'static str)
        ensures
            *self is NotSet ==> r@ == "Unable to find Geode SDK (GEODE_SDK isn't set). Please install it using `geode sdk install` or use `geode sdk set-path` to set it to an existing clone. If you just installed the SDK using `geode sdk install`, please restart your terminal / computer to apply changes."@,
            *self is NotADirectory ==> r@ == "Internal Error: GEODE_SDK doesn't point to a directory. Fix it manually or reinstall using `geode sdk install --reinstall`"@,
            *self is MissingVersionFile ==> r@ == "Internal Error: GEODE_SDK/VERSION not found. Please reinstall the Geode SDK using `geode sdk install --reinstall`"@,
    {
        match self {
            SdkError::NotSet => "Unable to find Geode SDK (GEODE_SDK isn't set). Please install it using `geode sdk install` or use `geode sdk set-path` to set it to an existing clone. If you just installed the SDK using `geode sdk install`, please restart your terminal / computer to apply changes.",
            SdkError::NotADirectory => "Internal Error: GEODE_SDK doesn't point to a directory. Fix it manually or reinstall using `geode sdk install --reinstall`",
            SdkError::MissingVersionFile => "Internal Error: GEODE_SDK/VERSION not found. Please reinstall the Geode SDK using `geode sdk install --reinstall`",
        }
    }
}

impl Config {
    /// The SDK path resolution decision. The surrounding application reads
    /// the environment variable naming the SDK path and, when it is set,
    /// checks whether that path is an existing directory and whether it
    /// holds the `VERSION` marker file; this function turns those findings
    /// into the resolved path or the failure to report. Never fails when the
    /// variable is set, the path is a directory, and the marker is present.
    pub fn try_sdk_path(sdk_var: &Option<String>, path_is_dir: bool, version_file_exists: bool) -> (r:
        Result<String, SdkError>)
        ensures
            match sdk_var {
                None => r == Err::<String, SdkError>(SdkError::NotSet),
                Some(v) => {
                    if !path_is_dir {
                        r == Err::<String, SdkError>(SdkError::NotADirectory)
                    } else if !version_file_exists {
                        r == Err::<String, SdkError>(SdkError::MissingVersionFile)
                    } else {
                        r == Ok::<String, SdkError>(*v)
                    }
                },
            },
    {
        match sdk_var {
            None => Err(SdkError::NotSet),
            Some(v) => {
                if !path_is_dir {
                    Err(SdkError::NotADirectory)
                } else if !version_file_exists {
                    Err(SdkError::MissingVersionFile)
                } else {
                    Ok(v.clone())
                }
            },
        }
    }
}

} // verus!
