use vstd::prelude::*;

verus! {

/// Durable persistence of exactly one cached token.
///
/// The store models the single credential file kept at a well-known path
/// under the user's configuration directory: `None` is an absent file (a
/// normal, expected state, not a failure), `Some` is its content. The
/// process that owns the store mirrors every change to disk: it writes the
/// file after [`CredentialStore::save`] and deletes it after
/// [`CredentialStore::clear`]. At most one cached credential exists at a
/// time; writing a new one always supersedes the old.
pub struct CredentialStore {
    cached: Option<String>,
}

/// The store's contents after a token is saved: the new token alone,
/// whatever was cached before.
pub open spec fn store_after_save(prev: Option<Seq<char>>, token: Seq<char>) -> Option<Seq<char>> {
    Some(token)
}

/// The store's contents after it is cleared: nothing, whatever was cached
/// before.
pub open spec fn store_after_clear(prev: Option<Seq<char>>) -> Option<Seq<char>> {
    None
}

impl View for CredentialStore {
    type V = Option<Seq<char>>;

    closed spec fn view(&self) -> Option<Seq<char>> {
        match self.cached {
            Some(t) => Some(t@),
            None => None,
        }
    }
}

impl CredentialStore {
    /// An uninitialized store: no credential has ever been written.
    pub fn new() -> (s: CredentialStore)
        ensures
            s@ is None,
    {
        CredentialStore { cached: None }
    }

    /// The store as found on disk at process start: `contents` is the
    /// credential file's text, or `None` when the file does not exist.
    pub fn from_contents(contents: Option<String>) -> (s: CredentialStore)
        ensures
            contents matches Some(t) ==> s@ == Some(t@),
            contents is None ==> s@ is None,
    {
        CredentialStore { cached: contents }
    }

    /// The cached token, if one is stored. An empty result is the normal
    /// state of a store never written to, not an error.
    pub fn load(&self) -> (r: Option<String>)
        ensures
            r matches Some(t) ==> self@ == Some(t@),
            r is None ==> self@ is None,
    {
        match &self.cached {
            Some(t) => Some(t.clone()),
            None => None,
        }
    }

    /// Replace whatever was cached with `token`; subsequent loads return
    /// the new value and the superseded one is gone.
    pub fn save(&mut self, token: &str)
        ensures
            final(self)@ == store_after_save(old(self)@, token@),
    {
        self.cached = Some(token.to_owned());
    }

    /// Delete the cached token if present. Clearing an empty store is a
    /// no-op, not an error; the result says whether there was anything to
    /// clear, for user messaging.
    pub fn clear(&mut self) -> (was_present: bool)
        ensures
            final(self)@ == store_after_clear(old(self)@),
            was_present == (old(self)@ is Some),
    {
        let was_present = self.cached.is_some();
        self.cached = None;
        was_present
    }
}

/// Cache round-trip: saving a token and then loading returns exactly that
/// token, and clearing and then loading returns nothing, whatever the
/// store held before.
pub proof fn lemma_cache_round_trip(prev: Option<Seq<char>>, token: Seq<char>)
    ensures
        store_after_save(prev, token) == Some(token),
        store_after_clear(prev) is None,
{
}

/// Supersession: after one token is saved over another, only the second
/// is retrievable; no trace of the first remains.
pub proof fn lemma_save_supersedes(prev: Option<Seq<char>>, t1: Seq<char>, t2: Seq<char>)
    ensures
        store_after_save(store_after_save(prev, t1), t2) == Some(t2),
        t1 != t2 ==> store_after_save(store_after_save(prev, t1), t2) != Some(t1),
{
}

} // verus!
