use vstd::prelude::*;

use vstd::string::StrSliceExecFns;

use crate::session::Session;

verus! {

/// The one stored session, modelled as an owned object so callers can hold
/// isolated instances; the surrounding application mirrors it to the
/// session file and serializes access to it.
pub struct SessionStore {
    current: Option<Session>,
}

impl SessionStore {
    /// What the store holds.
    pub closed spec fn session(&self) -> Option<Session> {
        self.current
    }

    /// Whatever is held is a well-formed session.
    pub closed spec fn wf(&self) -> bool {
        match self.current {
            None => true,
            Some(s) => s.wf(),
        }
    }

    /// The store after a sign-out: empty, whatever it held.
    pub closed spec fn after_sign_out(self) -> Self {
        SessionStore { current: None }
    }

    /// A store with nothing in it.
    pub fn new() -> (st: Self)
        ensures
            st.session() is None,
            st.wf(),
    {
        SessionStore { current: None }
    }

    /// Adopts what was read back from disk. A record without a bearer
    /// token — as a corrupt or absent file parses to — is treated as no
    /// session at all, so a reader never observes a partial session.
    pub fn from_loaded(found: Option<Session>) -> (st: Self)
        ensures
            st.wf(),
            match found {
                Some(s) => if s.wf() {
                    st.session() == Some(s)
                } else {
                    st.session() is None
                },
                None => st.session() is None,
            },
    {
        match found {
            Option::None => SessionStore { current: Option::None },
            Option::Some(s) => {
                if s.access_token.as_str().unicode_len() == 0 {
                    SessionStore { current: Option::None }
                } else {
                    SessionStore { current: Option::Some(s) }
                }
            },
        }
    }

    /// Non-blocking read of the stored session; no freshness promise.
    pub fn get_session(&self) -> (r: Option<Session>)
        ensures
            r == self.session(),
    {
        match &self.current {
            Option::None => Option::None,
            Option::Some(s) => Option::Some(s.clone()),
        }
    }

    /// Replaces the stored session with a well-formed one.
    pub fn persist(&mut self, s: Session)
        requires
            s.wf(),
        ensures
            final(self).session() == Some(s),
            final(self).wf(),
    {
        self.current = Option::Some(s);
    }

    /// Removes the stored session; idempotent, an empty store stays empty.
    pub fn sign_out(&mut self)
        ensures
            *final(self) == old(self).after_sign_out(),
            final(self).session() is None,
            final(self).wf(),
    {
        self.current = Option::None;
    }
}

/// Signing out leaves nothing for `get_session` to find, and signing out
/// of an already signed-out store changes nothing and is no error.
pub proof fn lemma_sign_out_idempotent(st: SessionStore)
    ensures
        st.after_sign_out().session() is None,
        st.after_sign_out().after_sign_out() == st.after_sign_out(),
{
}

} // verus!
