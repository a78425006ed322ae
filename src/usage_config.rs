//! The small persisted settings of the usage panel: the session key and the
//! organisation id cached for it. Loading, saving and the HTTP requests
//! happen outside the library.
use vstd::prelude::*;

verus! {

/// The persisted settings.
#[derive(Debug)]
pub struct ApiConfig {
    pub session_key: Option<String>,
    pub org_id: Option<String>,
}

/// A setting that is present and not empty.
pub open spec fn usable(v: Option<String>) -> Option<Seq<char>> {
    match v {
        Some(s) => if s@.len() > 0 {
            Some(s@)
        } else {
            None
        },
        None => None,
    }
}

fn usable_value(v: &Option<String>) -> (r: Option<String>)
    ensures
        match usable(*v) {
            Some(s) => r matches Some(x) && x@ == s,
            None => r is None,
        },
{
    match v {
        Some(s) => if s.as_str().is_empty() {
            None
        } else {
            Some(s.clone())
        },
        None => None,
    }
}

impl ApiConfig {
    /// Settings with nothing stored.
    pub fn empty() -> (r: Self)
        ensures
            r.session_key is None,
            r.org_id is None,
    {
        ApiConfig { session_key: None, org_id: None }
    }

    /// The session key, when one is stored and not empty.
    pub fn usable_session_key(&self) -> (r: Option<String>)
        ensures
            match usable(self.session_key) {
                Some(s) => r matches Some(x) && x@ == s,
                None => r is None,
            },
    {
        usable_value(&self.session_key)
    }

    /// The cached organisation id, when one is stored and not empty.
    pub fn usable_org_id(&self) -> (r: Option<String>)
        ensures
            match usable(self.org_id) {
                Some(s) => r matches Some(x) && x@ == s,
                None => r is None,
            },
    {
        usable_value(&self.org_id)
    }

    /// Whether a non-empty session key is stored.
    pub fn has_session_key(&self) -> (r: bool)
        ensures
            r == usable(self.session_key) is Some,
    {
        match &self.session_key {
            Some(k) => !k.as_str().is_empty(),
            None => false,
        }
    }

    /// Stores a new session key; the organisation cached for the old one
    /// is forgotten.
    pub fn set_session_key(&mut self, key: String)
        ensures
            final(self).session_key == Some(key),
            final(self).org_id is None,
    {
        self.session_key = Some(key);
        self.org_id = None;
    }

    /// Forgets the session key and the organisation.
    pub fn clear_session_key(&mut self)
        ensures
            final(self).session_key is None,
            final(self).org_id is None,
    {
        self.session_key = None;
        self.org_id = None;
    }

    /// Caches the organisation id resolved for the stored key.
    pub fn cache_org_id(&mut self, id: String)
        ensures
            final(self).session_key == old(self).session_key,
            final(self).org_id == Some(id),
    {
        self.org_id = Some(id);
    }
}

} // verus!
