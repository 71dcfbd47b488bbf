use vstd::prelude::*;

verus! {

/// Process-wide holder of the token in use right now: unset at process
/// start, set at most once, read many times. Once set, the value never
/// changes for the remainder of the process, so every collaborator that
/// asks for the current token sees the same one.
pub struct SessionTokenProvider {
    token: Option<String>,
}

impl View for SessionTokenProvider {
    type V = Option<Seq<char>>;

    closed spec fn view(&self) -> Option<Seq<char>> {
        match self.token {
            Some(t) => Some(t@),
            None => None,
        }
    }
}

impl SessionTokenProvider {
    /// A provider with no token resolved yet.
    pub fn new() -> (p: SessionTokenProvider)
        ensures
            p@ is None,
    {
        SessionTokenProvider { token: None }
    }

    /// Whether a token has been resolved for this process.
    pub fn is_set(&self) -> (r: bool)
        ensures
            r == (self@ is Some),
    {
        self.token.is_some()
    }

    /// The token every outbound request should bear, or the empty sentinel
    /// when none has been resolved: a request made with the empty token is
    /// rejected by the remote server, not by this client.
    pub fn get_token(&self) -> (r: String)
        ensures
            self@ matches Some(t) ==> r@ == t,
            self@ is None ==> r@ == Seq::<char>::empty(),
    {
        match &self.token {
            Some(t) => t.clone(),
            None => String::new(),
        }
    }

    /// Assign the resolved token at most once; a second call changes
    /// nothing and reports that it assigned nothing, so the token in use
    /// can never change mid-process.
    pub fn set_once(&mut self, token: String) -> (assigned: bool)
        ensures
            old(self)@ is None ==> final(self)@ == Some(token@) && assigned,
            old(self)@ is Some ==> final(self)@ == old(self)@ && !assigned,
    {
        if self.token.is_some() {
            false
        } else {
            self.token = Some(token);
            true
        }
    }
}

} // verus!
