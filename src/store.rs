use vstd::prelude::*;
use std::path::PathBuf;
use crate::error::DictationError;
use crate::settings::AppSettings;

verus! {

/// `std::path::PathBuf`, carried through unchanged as the settings file's location.
#[verifier::external_type_specification]
#[verifier::external_body]
pub struct ExPathBuf(PathBuf);

/// Where the settings live; reading and writing the file is left to the caller.
pub struct SettingsStore {
    path: PathBuf,
}

impl SettingsStore {
    pub closed spec fn location(&self) -> PathBuf {
        self.path
    }

    pub fn new(path: PathBuf) -> (r: Self)
        ensures
            r.location() == path,
    {
        SettingsStore { path }
    }

    /// The settings file's location.
    pub fn path(&self) -> (r: &PathBuf)
        ensures
            *r == self.location(),
    {
        &self.path
    }

    /// The outcome of a load, given what was found at the location: no file
    /// gives the defaults, a file that could not be read or parsed (with its
    /// message) gives `SettingsLoadError`, and parsed settings are returned as
    /// they are.
    pub fn resolve_load(found: Option<Result<AppSettings, String>>) -> (r: Result<AppSettings, DictationError>)
        ensures
            match found {
                None => r is Ok && r->Ok_0.is_default(),
                Some(Ok(s)) => r == Ok::<AppSettings, DictationError>(s),
                Some(Err(m)) => r == Err::<AppSettings, DictationError>(DictationError::SettingsLoadError(m)),
            },
    {
        match found {
            None => Ok(AppSettings::default()),
            Some(Ok(s)) => Ok(s),
            Some(Err(m)) => Err(DictationError::SettingsLoadError(m)),
        }
    }
}

} // verus!
