//! Credential gate: checks a supplied token against a credential store by
//! exact match and resolves every ambiguous outcome to "deny".

use vstd::prelude::*;

verus! {

/// One issued credential: an opaque key and whether it is still active.
#[derive(Debug)]
pub struct Credential {
    pub api_key: String,
    pub active: bool,
}

/// A read-only table of credentials, looked up by exact key match.
#[derive(Debug)]
pub struct CredentialStore {
    creds: Vec<Credential>,
}

/// The `active` flag of the first credential whose key matches `token`,
/// or `None` when no credential matches.
pub open spec fn lookup_from(creds: Seq<Credential>, token: Seq<char>, i: int) -> Option<bool>
    decreases creds.len() - i,
{
    if i < 0 || i >= creds.len() {
        None
    } else if creds[i].api_key@ == token {
        Some(creds[i].active)
    } else {
        lookup_from(creds, token, i + 1)
    }
}

pub open spec fn lookup(creds: Seq<Credential>, token: Seq<char>) -> Option<bool> {
    lookup_from(creds, token, 0)
}

impl View for CredentialStore {
    type V = Seq<Credential>;

    closed spec fn view(&self) -> Seq<Credential> {
        self.creds@
    }
}

/// The token is present in the store and its credential is active.
pub open spec fn token_active(creds: Seq<Credential>, token: Seq<char>) -> bool {
    lookup(creds, token) == Some(true)
}

impl CredentialStore {
    /// An empty credential table.
    pub fn new() -> (r: CredentialStore)
        ensures
            r@ == Seq::<Credential>::empty(),
    {
        CredentialStore { creds: Vec::new() }
    }

    /// Append one credential row.
    pub fn add(&mut self, api_key: String, active: bool)
        ensures
            final(self)@ == old(self)@.push(Credential { api_key, active }),
    {
        self.creds.push(Credential { api_key, active });
    }

    /// Whether `token` names a stored, active credential. A token that is
    /// absent, or present with its active flag cleared, is denied.
    pub fn authenticate(&self, token: &String) -> (r: bool)
        ensures
            r == token_active(self@, token@),
            lookup(self@, token@) is None ==> r == false,
            lookup(self@, token@) == Some(false) ==> r == false,
    {
        let n = self.creds.len();
        let mut i: usize = 0;
        while i < n
            invariant
                n == self.creds.len(),
                0 <= i <= n,
                lookup(self@, token@) == lookup_from(self@, token@, i as int),
            decreases n - i,
        {
            if self.creds[i].api_key == *token {
                return self.creds[i].active;
            }
            i = i + 1;
        }
        false
    }
}

} // verus!
