//! The query string of the requests that read users.

use vstd::prelude::*;

verus! {

/// The query parameters of a user read.
#[derive(Copy, Clone, Debug)]
pub struct GetParams {
    /// Whether to join the user's emergency contact.
    pub prefetch: Option<bool>,
    /// Whether the user list includes the emergency contacts.
    pub include_contacts: Option<bool>,
}

impl GetParams {
    /// Whether to join the emergency contact; not by default.
    pub fn prefetch(&self) -> (r: bool)
        ensures
            r == match self.prefetch {
                Some(b) => b,
                None => false,
            },
    {
        match self.prefetch {
            Some(b) => b,
            None => false,
        }
    }

    /// Whether to list the emergency contacts; they are listed by default.
    pub fn include_contacts(&self) -> (r: bool)
        ensures
            r == match self.include_contacts {
                Some(b) => b,
                None => true,
            },
    {
        match self.include_contacts {
            Some(b) => b,
            None => true,
        }
    }
}

} // verus!
