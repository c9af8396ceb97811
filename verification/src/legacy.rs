//! The older, index-based configuration schema and its one-way migration
//! into the current name-based schema.

use vstd::prelude::*;
use vstd::string::StrSliceExecFns;
use vstd::string::StringExecFns;
use crate::config::Config;
use crate::profile::Profile;

verus! {

/// One installation record of the older schema: a path and an executable
/// file name, possibly carrying a trailing platform executable suffix.
pub struct OldConfigInstallation {
    pub path: String,
    pub executable: String,
}

/// The older configuration schema, read only for migration and never
/// persisted again.
pub struct OldConfig {
    pub default_installation: usize,
    pub working_installation: Option<usize>,
    pub installations: Option<Vec<OldConfigInstallation>>,
    pub default_developer: Option<String>,
}

/// A name with a trailing `.exe` suffix stripped if present, unchanged
/// otherwise.
pub open spec fn strip_exe(s: Seq<char>) -> Seq<char> {
    if s.len() >= 4 && s.subrange(s.len() - 4, s.len() as int) == ".exe"@ {
        s.subrange(0, s.len() - 4)
    } else {
        s
    }
}

/// Strips a trailing `.exe` from an executable name.
pub fn strip_exe_suffix(s: &String) -> (r: String)
    ensures
        r@ == strip_exe(s@),
{
    proof {
        reveal_strlit(".exe");
    }
    let n = s.as_str().unicode_len();
    if n >= 4 {
        let tail = s.as_str().substring_char(n - 4, n).to_owned();
        if tail == String::from_str(".exe") {
            return s.as_str().substring_char(0, n - 4).to_owned();
        }
    }
    s.clone()
}

impl OldConfig {
    /// The legacy installation list, empty when the field is absent.
    pub open spec fn installs(&self) -> Seq<OldConfigInstallation> {
        match self.installations {
            Some(v) => v@,
            None => Seq::empty(),
        }
    }

    /// The legacy index that selects the active installation: the working
    /// index when present, the default index otherwise.
    pub open spec fn selected_index(&self) -> int {
        match self.working_installation {
            Some(i) => i as int,
            None => self.default_installation as int,
        }
    }
}

/// What migration produces: one profile per legacy installation, in order,
/// named after the installation's executable with a trailing `.exe`
/// stripped; the active profile selected by the legacy index when it is in
/// range, none otherwise; the default developer copied; the nightly flag
/// and the open bags starting empty.
pub open spec fn is_migration_of(c: Config, o: OldConfig) -> bool {
    &&& c.profiles@.len() == o.installs().len()
    &&& forall|i: int|
        0 <= i < o.installs().len() ==> {
            &&& (#[trigger] c.profiles@[i]).name@ == strip_exe(o.installs()[i].executable@)
            &&& c.profiles@[i].gd_path == o.installs()[i].path
            &&& c.profiles@[i].extra@.len() == 0
        }
    &&& if 0 <= o.selected_index() < o.installs().len() {
        c.current_profile == Some(c.profiles@[o.selected_index()].name)
    } else {
        c.current_profile is None
    }
    &&& c.default_developer == o.default_developer
    &&& c.sdk_nightly == false
    &&& c.extra@.len() == 0
}

impl OldConfig {
    /// Converts a legacy document into the current schema. Total: absent
    /// optional fields degrade to empty defaults, and an out-of-range legacy
    /// index leaves the active profile unselected rather than failing.
    pub fn migrate(&self) -> (c: Config)
        ensures
            is_migration_of(c, *self),
    {
        let mut profiles: Vec<Profile> = Vec::new();
        match &self.installations {
            Some(insts) => {
                let mut k: usize = 0;
                while k < insts.len()
                    invariant
                        k <= insts.len(),
                        insts@ == self.installs(),
                        profiles@.len() == k,
                        forall|i: int|
                            0 <= i < k ==> {
                                &&& (#[trigger] profiles@[i]).name@ == strip_exe(
                                    self.installs()[i].executable@,
                                )
                                &&& profiles@[i].gd_path == self.installs()[i].path
                                &&& profiles@[i].extra@.len() == 0
                            },
                    decreases insts.len() - k,
                {
                    let inst = &insts[k];
                    let name = strip_exe_suffix(&inst.executable);
                    profiles.push(Profile { name, gd_path: inst.path.clone(), extra: Vec::new() });
                    k += 1;
                }
            },
            None => {},
        }
        let idx = match self.working_installation {
            Some(i) => i,
            None => self.default_installation,
        };
        let current = if idx < profiles.len() {
            Some(profiles[idx].name.clone())
        } else {
            None
        };
        let dev = match &self.default_developer {
            Some(d) => Some(d.clone()),
            None => None,
        };
        Config {
            current_profile: current,
            profiles,
            default_developer: dev,
            sdk_nightly: false,
            extra: Vec::new(),
        }
    }
}

} // verus!
