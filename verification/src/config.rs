use vstd::prelude::*;

verus! {

/// Process configuration: backend host and token, the base directory that
/// request paths are joined under, the API key that gates the mutating
/// endpoints, and a version tag. Loaded at the edge of the process and
/// handed to the core by value; the core never mutates it in place.
pub struct Config {
    pub version: String,
    pub api_key: String,
    pub alist_host: String,
    pub alist_token: String,
    pub alist_dir: String,
}

impl Clone for Config {
    /// A configuration is copied field for field when handed out.
    fn clone(&self) -> (r: Self)
        ensures
            r == *self,
    {
        Config {
            version: self.version.clone(),
            api_key: self.api_key.clone(),
            alist_host: self.alist_host.clone(),
            alist_token: self.alist_token.clone(),
            alist_dir: self.alist_dir.clone(),
        }
    }
}

/// The single per-process owner of the current configuration. Readers take
/// a copy; a reload replaces the whole value, never a part of it.
pub struct ConfigStore {
    current: Config,
}

impl ConfigStore {
    /// The configuration the store holds now.
    pub closed spec fn spec_current(&self) -> Config {
        self.current
    }

    pub fn new(initial: Config) -> (s: Self)
        ensures
            s.spec_current() == initial,
    {
        ConfigStore { current: initial }
    }

    /// Read the current configuration by value.
    pub fn get_config(&self) -> (c: Config)
        ensures
            c == self.spec_current(),
    {
        self.current.clone()
    }

    /// Replace the whole configuration with a freshly loaded value.
    pub fn reload_config(&mut self, fresh: Config)
        ensures
            final(self).spec_current() == fresh,
    {
        self.current = fresh;
    }
}

/// A provided API key authorizes exactly when it is present and equal,
/// character for character, to the configured key.
pub fn key_authorized(provided: Option<&String>, expected: &String) -> (r: bool)
    ensures
        r == (provided matches Some(k) && k@ == expected@),
{
    match provided {
        None => false,
        Some(k) => k.eq(expected),
    }
}

} // verus!
