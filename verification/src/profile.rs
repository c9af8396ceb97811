//! The profile entity: a named pointer to one external installation, plus
//! the derived directories for the tool's own managed data.

use vstd::prelude::*;
use vstd::string::StringExecFns;

verus! {

/// One named installation the tool manages.
///
/// `extra` is an open bag of unrecognized key/value fields, preserved
/// verbatim across load and save for forward compatibility; the library
/// never inspects the values.
pub struct Profile {
    pub name: String,
    pub gd_path: String,
    pub extra: Vec<(String, serde_json::Value)>,
}

impl Profile {
    /// Builds a profile from a name and an installation path. No uniqueness
    /// check is performed here; callers are responsible for that.
    pub fn new(name: String, location: String) -> (p: Profile)
        ensures
            p.name == name,
            p.gd_path == location,
            p.extra@.len() == 0,
    {
        Profile { name, gd_path: location, extra: Vec::new() }
    }

    /// The subdirectory for the tool's own managed data under the
    /// installation path.
    pub fn geode_dir(&self) -> (r: String)
        ensures
            r@ == self.gd_path@ + "/geode"@,
    {
        self.gd_path.clone().concat("/geode")
    }

    /// The index store directory under the managed-data directory.
    pub fn index_dir(&self) -> (r: String)
        ensures
            r@ == self.gd_path@ + "/geode"@ + "/index"@,
    {
        self.geode_dir().concat("/index")
    }

    /// The mods store directory under the managed-data directory.
    pub fn mods_dir(&self) -> (r: String)
        ensures
            r@ == self.gd_path@ + "/geode"@ + "/mods"@,
    {
        self.geode_dir().concat("/mods")
    }
}

} // verus!
