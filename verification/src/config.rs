//! The configuration aggregate: the profile collection, the active-profile
//! selector, global passthrough flags, and the load/repair/rename logic.

use vstd::prelude::*;
use crate::legacy::{is_migration_of, OldConfig};
use crate::profile::Profile;

verus! {

/// The root persisted settings document.
///
/// `extra` is an open bag of unrecognized top-level fields, preserved
/// verbatim across load and save; the library never inspects the values.
pub struct Config {
    pub current_profile: Option<String>,
    pub profiles: Vec<Profile>,
    pub default_developer: Option<String>,
    pub sdk_nightly: bool,
    pub extra: Vec<(String, serde_json::Value)>,
}

/// A diagnostic the loader asks the surrounding application to emit. The
/// library decides when and what to emit; formatting and transport are the
/// application's.
#[derive(Clone, Copy, PartialEq, Eq, Structural, Debug)]
pub enum Diagnostic {
    NotInstalledWarning,
    SetupHintWarning,
    SetupInfo,
    MigratingOldConfig,
    NoProfilesFound,
}

impl Diagnostic {
    /// True of the diagnostics emitted as warnings; the rest are
    /// informational.
    pub fn is_warning(&self) -> (r: bool)
        ensures
            r == (*self is NotInstalledWarning || *self is SetupHintWarning
                || *self is NoProfilesFound),
    {
        match self {
            Diagnostic::NotInstalledWarning => true,
            Diagnostic::SetupHintWarning => true,
            Diagnostic::SetupInfo => false,
            Diagnostic::MigratingOldConfig => false,
            Diagnostic::NoProfilesFound => true,
        }
    }

    /// The user-facing text of the diagnostic.
    pub fn message(&self) -> (r: &'static str)
        ensures
            *self is NotInstalledWarning ==> r@ == "It seems you don't have Geode installed. Some operations will not work"@,
            *self is SetupHintWarning ==> r@ == "You can setup Geode using `geode config setup`"@,
            *self is SetupInfo ==> r@ == "Setup Geode using `geode config setup`"@,
            *self is MigratingOldConfig ==> r@ == "Migrating old config.json"@,
            *self is NoProfilesFound ==> r@ == "No Geode profiles found! Some operations will be unavailable."@,
    {
        match self {
            Diagnostic::NotInstalledWarning => "It seems you don't have Geode installed. Some operations will not work",
            Diagnostic::SetupHintWarning => "You can setup Geode using `geode config setup`",
            Diagnostic::SetupInfo => "Setup Geode using `geode config setup`",
            Diagnostic::MigratingOldConfig => "Migrating old config.json",
            Diagnostic::NoProfilesFound => "No Geode profiles found! Some operations will be unavailable.",
        }
    }
}

/// What the surrounding application found on disk, handed to `Config::load`:
/// no platform root directory at all, a root without a configuration
/// document, a document parsed under the current schema, or one parsed under
/// the legacy schema after the current schema was rejected.
pub enum LoadSource {
    MissingRoot,
    MissingDocument,
    Current(Config),
    Legacy(OldConfig),
}

/// What `Config::load` decided: the in-memory configuration before the
/// post-load repair step, the diagnostics to emit, and whether the
/// configuration must be written back to disk (false only when the platform
/// root is missing, in which case the repair step is skipped as well).
pub struct LoadOutcome {
    pub config: Config,
    pub diagnostics: Vec<Diagnostic>,
    pub persist: bool,
}

impl Config {
    /// True when some profile carries this name.
    pub open spec fn has_profile_named(&self, name: Seq<char>) -> bool {
        exists|i: int|
            0 <= i < self.profiles@.len() && (#[trigger] self.profiles@[i]).name@ == name
    }

    /// True when the active-profile selector names an existing profile.
    pub open spec fn current_resolves(&self) -> bool {
        &&& self.current_profile matches Some(n)
        &&& self.has_profile_named(self.current_profile.unwrap()@)
    }

    /// True of a freshly created configuration: no profiles, no selection,
    /// no passthrough values.
    pub open spec fn is_empty_config(&self) -> bool {
        &&& self.current_profile is None
        &&& self.profiles@.len() == 0
        &&& self.default_developer is None
        &&& self.sdk_nightly == false
        &&& self.extra@.len() == 0
    }

    /// A fresh configuration with no profiles and nothing selected.
    pub fn empty() -> (c: Config)
        ensures
            c.is_empty_config(),
    {
        Config {
            current_profile: None,
            profiles: Vec::new(),
            default_developer: None,
            sdk_nightly: false,
            extra: Vec::new(),
        }
    }

    /// The position of the first profile carrying this name, if any.
    pub fn get_profile_index(&self, name: &String) -> (r: Option<usize>)
        ensures
            match r {
                Some(i) => i < self.profiles@.len() && self.profiles@[i as int].name@ == name@
                    && forall|j: int|
                    0 <= j < i ==> (#[trigger] self.profiles@[j]).name@ != name@,
                None => !self.has_profile_named(name@),
            },
    {
        let mut k: usize = 0;
        while k < self.profiles.len()
            invariant
                k <= self.profiles@.len(),
                forall|j: int| 0 <= j < k ==> (#[trigger] self.profiles@[j]).name@ != name@,
            decreases self.profiles@.len() - k,
        {
            if self.profiles[k].name == *name {
                return Some(k);
            }
            k += 1;
        }
        None
    }

    /// Looks a profile up by name: none when no name is given, otherwise the
    /// first profile whose name matches, or none when no name matches.
    pub fn get_profile(&self, name: &Option<String>) -> (r: Option<&Profile>)
        ensures
            match name {
                None => r is None,
                Some(n) => match r {
                    Some(p) => exists|i: int|
                        0 <= i < self.profiles@.len() && *p == (#[trigger] self.profiles@[i])
                            && self.profiles@[i].name@ == n@ && (forall|j: int|
                            0 <= j < i ==> (#[trigger] self.profiles@[j]).name@ != n@),
                    None => !self.has_profile_named(n@),
                },
            },
    {
        match name {
            Some(n) => match self.get_profile_index(n) {
                Some(i) => Some(&self.profiles[i]),
                None => None,
            },
            None => None,
        }
    }

    /// The profile the active-profile selector names: the first profile with
    /// that name. Callers must have ruled out an unresolved selector.
    pub fn get_current_profile(&self) -> (p: &Profile)
        requires
            self.current_resolves(),
        ensures
            self.current_profile matches Some(n) && p.name@ == n@,
            exists|i: int|
                0 <= i < self.profiles@.len() && *p == (#[trigger] self.profiles@[i])
                    && (forall|j: int|
                    0 <= j < i ==> (#[trigger] self.profiles@[j]).name@ != p.name@),
    {
        match self.get_profile(&self.current_profile) {
            Some(p) => p,
            None => vstd::pervasive::unreached(),
        }
    }

    /// Renames the first profile carrying `old_name`, in place, leaving
    /// every other field and every other profile untouched — including the
    /// active-profile selector, even when it named the renamed profile. When
    /// `new_name` is already taken the collection is left unchanged and the
    /// call reports failure.
    pub fn rename_profile(&mut self, old_name: &String, new_name: String) -> (renamed: bool)
        requires
            old(self).has_profile_named(old_name@),
        ensures
            old(self).has_profile_named(new_name@) ==> !renamed && *final(self) == *old(self),
            !old(self).has_profile_named(new_name@) ==> renamed && exists|i: int|
                0 <= i < old(self).profiles@.len()
                    && (#[trigger] old(self).profiles@[i]).name@ == old_name@ && (forall|j: int|
                    0 <= j < i ==> (#[trigger] old(self).profiles@[j]).name@ != old_name@)
                    && final(self).profiles@ == old(self).profiles@.update(
                    i,
                    Profile {
                        name: new_name,
                        gd_path: old(self).profiles@[i].gd_path,
                        extra: old(self).profiles@[i].extra,
                    },
                ),
            final(self).current_profile == old(self).current_profile,
            final(self).default_developer == old(self).default_developer,
            final(self).sdk_nightly == old(self).sdk_nightly,
            final(self).extra == old(self).extra,
            final(self).profiles@.len() == old(self).profiles@.len(),
    {
        if self.get_profile_index(&new_name).is_some() {
            return false;
        }
        let idx = match self.get_profile_index(old_name) {
            Some(i) => i,
            None => vstd::pervasive::unreached(),
        };
        let mut p = self.profiles.remove(idx);
        p.name = new_name;
        self.profiles.insert(idx, p);
        proof {
            assert(self.profiles@ =~= old(self).profiles@.update(
                idx as int,
                Profile {
                    name: new_name,
                    gd_path: old(self).profiles@[idx as int].gd_path,
                    extra: old(self).profiles@[idx as int].extra,
                },
            ));
        }
        true
    }

    /// The post-load repair step: an empty profile collection only warrants
    /// warnings; otherwise an active-profile selector that does not resolve
    /// — including an unset one — is reset to the first profile's name.
    pub fn repair(&mut self) -> (warnings: Vec<Diagnostic>)
        ensures
            old(self).profiles@.len() == 0 ==> *final(self) == *old(self) && warnings@ =~= seq![
                Diagnostic::NoProfilesFound,
                Diagnostic::SetupHintWarning,
            ],
            old(self).profiles@.len() > 0 && old(self).current_resolves() ==> (*final(self)
                == *old(self) && warnings@.len() == 0),
            old(self).profiles@.len() > 0 && !old(self).current_resolves() ==> (
            final(self).current_profile == Some(old(self).profiles@[0].name)
                && final(self).profiles == old(self).profiles
                && final(self).default_developer == old(self).default_developer
                && final(self).sdk_nightly == old(self).sdk_nightly
                && final(self).extra == old(self).extra
                && warnings@.len() == 0),
            old(self).profiles@.len() > 0 ==> final(self).current_resolves(),
    {
        if self.profiles.len() == 0 {
            let mut warnings: Vec<Diagnostic> = Vec::new();
            warnings.push(Diagnostic::NoProfilesFound);
            warnings.push(Diagnostic::SetupHintWarning);
            warnings
        } else {
            let resolves = match &self.current_profile {
                Some(n) => self.get_profile_index(n).is_some(),
                None => false,
            };
            if !resolves {
                self.current_profile = Some(self.profiles[0].name.clone());
            }
            Vec::new()
        }
    }

    /// The load decision: turns what the application found on disk into the
    /// in-memory configuration, the diagnostics to emit, and whether to
    /// persist. A missing root yields a fresh configuration without touching
    /// disk; a missing document yields a fresh configuration to be written
    /// out; a document under the current schema is taken as is; a legacy
    /// document is migrated. The post-load repair step (`repair`) follows
    /// separately whenever `persist` is set, after the application has
    /// written the configuration back.
    pub fn load(source: LoadSource) -> (out: LoadOutcome)
        ensures
            match source {
                LoadSource::MissingRoot => out.config.is_empty_config() && !out.persist
                    && out.diagnostics@ =~= seq![
                    Diagnostic::NotInstalledWarning,
                    Diagnostic::SetupHintWarning,
                ],
                LoadSource::MissingDocument => out.config.is_empty_config() && out.persist
                    && out.diagnostics@ =~= seq![Diagnostic::SetupInfo],
                LoadSource::Current(c) => out.config == c && out.persist && out.diagnostics@.len()
                    == 0,
                LoadSource::Legacy(o) => is_migration_of(out.config, o) && out.persist
                    && out.diagnostics@ =~= seq![Diagnostic::MigratingOldConfig],
            },
    {
        match source {
            LoadSource::MissingRoot => {
                let mut diagnostics: Vec<Diagnostic> = Vec::new();
                diagnostics.push(Diagnostic::NotInstalledWarning);
                diagnostics.push(Diagnostic::SetupHintWarning);
                LoadOutcome { config: Config::empty(), diagnostics, persist: false }
            },
            LoadSource::MissingDocument => {
                let mut diagnostics: Vec<Diagnostic> = Vec::new();
                diagnostics.push(Diagnostic::SetupInfo);
                LoadOutcome { config: Config::empty(), diagnostics, persist: true }
            },
            LoadSource::Current(c) => LoadOutcome {
                config: c,
                diagnostics: Vec::new(),
                persist: true,
            },
            LoadSource::Legacy(o) => {
                let mut diagnostics: Vec<Diagnostic> = Vec::new();
                diagnostics.push(Diagnostic::MigratingOldConfig);
                LoadOutcome { config: o.migrate(), diagnostics, persist: true }
            },
        }
    }
}

} // verus!
