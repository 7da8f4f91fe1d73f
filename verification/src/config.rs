//! The stored configuration: a named collection of presets plus global
//! settings.  Names act as the primary key; lookups and deletion work on the
//! first preset carrying the requested name.

use vstd::prelude::*;
use crate::model::Preset;
use crate::text::str_eq;

verus! {

/// Global settings persisted beside the presets.
#[derive(Debug, Clone, PartialEq)]
pub struct Settings {
    pub debug_mode: bool,
}

impl Settings {
    pub fn default() -> (r: Settings)
        ensures
            r.debug_mode == false,
    {
        Settings { debug_mode: false }
    }

    pub fn new() -> (r: Settings)
        ensures
            r.debug_mode == false,
    {
        Settings { debug_mode: false }
    }

    /// Applies an edited settings row: row zero is the debug-mode flag and
    /// accepts exactly `true` or `false`; any other row is out of bounds.
    pub fn change_name(&mut self, index: usize, new_name: &str) -> (r: Result<(), String>)
        ensures
            index == 0 && new_name@ == "true"@ ==> r is Ok && final(self).debug_mode == true,
            index == 0 && new_name@ == "false"@ ==> r is Ok && final(self).debug_mode == false,
            index == 0 && new_name@ != "true"@ && new_name@ != "false"@ ==> {
                &&& r matches Err(m) && m@
                    == "Cannot change the setting name: EXPECTED 'true' or 'false'."@
                &&& *final(self) == *old(self)
            },
            index != 0 ==> {
                &&& r matches Err(m) && m@
                    == "Cannot change the setting name: INDEX OUT OF BOUNDS."@
                &&& *final(self) == *old(self)
            },
    {
        proof {
            reveal_strlit("true");
            reveal_strlit("false");
            assert("true"@.len() == 4);
            assert("false"@.len() == 5);
        }
        if index == 0 {
            if str_eq(new_name, "true") {
                self.debug_mode = true;
                Ok(())
            } else if str_eq(new_name, "false") {
                self.debug_mode = false;
                Ok(())
            } else {
                Err("Cannot change the setting name: EXPECTED 'true' or 'false'.".to_owned())
            }
        } else {
            Err("Cannot change the setting name: INDEX OUT OF BOUNDS.".to_owned())
        }
    }
}

/// The whole persisted record: every preset plus the settings.
#[derive(Debug, PartialEq)]
pub struct AppConfig {
    pub presets: Vec<Preset>,
    pub settings: Settings,
}

impl AppConfig {
    pub fn default() -> (r: AppConfig)
        ensures
            r.presets@.len() == 0,
            r.settings.debug_mode == false,
    {
        AppConfig { presets: Vec::new(), settings: Settings::default() }
    }

    pub fn new(presets: Vec<Preset>, settings: Settings) -> (r: AppConfig)
        ensures
            r.presets == presets,
            r.settings == settings,
    {
        AppConfig { presets, settings }
    }

    /// Appends the given presets, in order, after the stored ones.
    pub fn add_presets(&mut self, presets: Vec<Preset>)
        ensures
            final(self).presets@ == old(self).presets@ + presets@,
            final(self).settings == old(self).settings,
    {
        let mut rest = presets;
        let ghost given = rest@;
        proof {
            assert(rest.len() == given.len());
        }
        let mut taken: usize = 0;
        while rest.len() > 0
            invariant
                given.len() <= usize::MAX,
                taken + rest@.len() == given.len(),
                rest@ == given.skip(taken as int),
                self.presets@ == old(self).presets@ + given.take(taken as int),
                self.settings == old(self).settings,
            decreases rest@.len(),
        {
            let p = rest.remove(0);
            proof {
                assert(given.skip(taken as int).remove(0) =~= given.skip(taken + 1));
                assert((old(self).presets@ + given.take(taken as int)).push(given[taken as int])
                    =~= old(self).presets@ + given.take(taken + 1));
            }
            self.presets.push(p);
            taken += 1;
        }
        proof {
            assert(given.take(taken as int) =~= given);
        }
    }

    /// Stores one new preset.  Names are the collection's primary key, so
    /// an empty name, or one some stored preset already carries, is refused
    /// and the collection is left untouched.
    pub fn add_preset_checked(&mut self, preset: Preset) -> (r: Result<(), String>)
        ensures
            r is Ok <==> preset.name@.len() > 0 && (forall|i: int|
                0 <= i < old(self).presets@.len() ==> (#[trigger] old(
                    self,
                ).presets@[i]).name@ != preset.name@),
            r is Ok ==> final(self).presets@ == old(self).presets@.push(preset)
                && final(self).settings == old(self).settings,
            r matches Err(m) ==> m@
                == "Cannot add preset: PRESET NAME IS EMPTY OR ALREADY TAKEN."@ && *final(self)
                == *old(self),
    {
        if preset.name.as_str().unicode_len() == 0 {
            return Err("Cannot add preset: PRESET NAME IS EMPTY OR ALREADY TAKEN.".to_owned());
        }
        let taken = self.get_preset_by_name(preset.name.as_str()).is_some();
        if taken {
            return Err("Cannot add preset: PRESET NAME IS EMPTY OR ALREADY TAKEN.".to_owned());
        }
        self.presets.push(preset);
        Ok(())
    }

    /// The first stored preset with the given name, if any.
    pub fn get_preset_by_name(&self, name: &str) -> (r: Option<&Preset>)
        ensures
            r is None ==> forall|i: int|
                0 <= i < self.presets@.len() ==> (#[trigger] self.presets@[i]).name@ != name@,
            r matches Some(p) ==> exists|i: int|
                {
                    &&& 0 <= i < self.presets@.len()
                    &&& (#[trigger] self.presets@[i]).name@ == name@
                    &&& *p == self.presets@[i]
                    &&& forall|j: int|
                        0 <= j < i ==> (#[trigger] self.presets@[j]).name@ != name@
                },
    {
        let mut i: usize = 0;
        while i < self.presets.len()
            invariant
                i <= self.presets@.len(),
                forall|j: int|
                    0 <= j < i ==> (#[trigger] self.presets@[j]).name@ != name@,
            decreases self.presets@.len() - i,
        {
            if str_eq(self.presets[i].name.as_str(), name) {
                return Some(&self.presets[i]);
            }
            i += 1;
        }
        None
    }

    /// A mutable borrow of the first stored preset with the given name.  The
    /// collection afterwards holds whatever the caller left behind the
    /// borrow, at that preset's position.
    pub fn get_mut_preset_by_name(&mut self, name: &str) -> (r: Option<&mut Preset>)
        ensures
            r is None ==> *final(self) == *old(self) && forall|i: int|
                0 <= i < old(self).presets@.len() ==> (#[trigger] old(
                    self,
                ).presets@[i]).name@ != name@,
            r matches Some(p) ==> exists|i: int|
                {
                    &&& 0 <= i < old(self).presets@.len()
                    &&& (#[trigger] old(self).presets@[i]).name@ == name@
                    &&& forall|j: int|
                        0 <= j < i ==> (#[trigger] old(self).presets@[j]).name@ != name@
                    &&& *p == old(self).presets@[i]
                    &&& final(self).presets@ == old(self).presets@.update(i, *final(p))
                    &&& final(self).settings == old(self).settings
                },
    {
        let n = self.presets.len();
        let mut i: usize = 0;
        while i < n
            invariant
                n == self.presets@.len(),
                i <= n,
                *self == *old(self),
                forall|j: int|
                    0 <= j < i ==> (#[trigger] self.presets@[j]).name@ != name@,
            decreases n - i,
        {
            if str_eq(self.presets[i].name.as_str(), name) {
                return Some(&mut self.presets[i]);
            }
            i += 1;
        }
        None
    }

    /// Removes the first stored preset with the given name; reports an error
    /// when no preset carries it.
    pub fn delete_preset_by_name(&mut self, name: &str) -> (r: Result<(), String>)
        ensures
            r is Ok ==> exists|i: int|
                {
                    &&& 0 <= i < old(self).presets@.len()
                    &&& (#[trigger] old(self).presets@[i]).name@ == name@
                    &&& forall|j: int|
                        0 <= j < i ==> (#[trigger] old(self).presets@[j]).name@ != name@
                    &&& final(self).presets@ == old(self).presets@.remove(i)
                },
            r is Ok ==> final(self).settings == old(self).settings,
            r matches Err(m) ==> {
                &&& m@ == "Cannot delete preset: PRESET WITH GIVEN NAME WAS NOT FOUND."@
                &&& *final(self) == *old(self)
                &&& forall|i: int|
                    0 <= i < old(self).presets@.len() ==> (#[trigger] old(
                        self,
                    ).presets@[i]).name@ != name@
            },
    {
        let n = self.presets.len();
        let mut i: usize = 0;
        while i < n
            invariant
                n == self.presets@.len(),
                i <= n,
                *self == *old(self),
                forall|j: int|
                    0 <= j < i ==> (#[trigger] self.presets@[j]).name@ != name@,
            decreases n - i,
        {
            if str_eq(self.presets[i].name.as_str(), name) {
                self.presets.remove(i);
                return Ok(());
            }
            i += 1;
        }
        Err("Cannot delete preset: PRESET WITH GIVEN NAME WAS NOT FOUND.".to_owned())
    }
}

} // verus!
