//! Account resolution for sign-in through an outside identity provider.
//! The network exchange itself happens outside this crate; what is verified
//! here is the pure part — choosing the primary address among the ones the
//! provider returned, and building the user row for a first sign-in.

use vstd::prelude::*;
use vstd::string::StringExecFns;

use crate::models::NewUser;

verus! {

/// The authorisation URL handed to the client for the GitHub flow.
pub struct GithubAuthUrl {
    pub url: String,
}

/// The authorisation code posted back by the client for the GitHub flow.
pub struct GithubAuthCode {
    pub code: String,
}

/// The query parameters of the GitHub callback.
pub struct GithubCallbackParams {
    pub code: String,
    pub state: Option<String>,
}

/// The authorisation URL handed to the client for the Google flow.
pub struct GoogleAuthUrl {
    pub url: String,
}

/// The authorisation code posted back by the client for the Google flow.
pub struct GoogleAuthCode {
    pub code: String,
}

/// One address from the provider's address list.
pub struct EmailEntry {
    pub email: String,
    pub primary: bool,
}

/// The entry as mathematical values.
pub struct EmailEntryV {
    pub email: Seq<char>,
    pub primary: bool,
}

impl View for EmailEntry {
    type V = EmailEntryV;

    open spec fn view(&self) -> EmailEntryV {
        EmailEntryV { email: self.email@, primary: self.primary }
    }
}

impl DeepView for EmailEntry {
    type V = EmailEntryV;

    open spec fn deep_view(&self) -> EmailEntryV {
        self.view()
    }
}

/// Picks the first address marked primary, if any.
pub fn primary_email(entries: &Vec<EmailEntry>) -> (r: Option<String>)
    ensures
        r matches Some(e) ==> exists|i: int|
            0 <= i < entries.deep_view().len() && (#[trigger] entries.deep_view()[i]).primary
                && entries.deep_view()[i].email == e@ && (forall|j: int|
                0 <= j < i ==> !(#[trigger] entries.deep_view()[j]).primary),
        (r is None) <==> (forall|i: int|
            0 <= i < entries.deep_view().len() ==> !(#[trigger] entries.deep_view()[i]).primary),
{
    let n = entries.len();
    let mut i: usize = 0;
    while i < n
        invariant
            0 <= i <= n,
            n == entries.deep_view().len(),
            n == entries@.len(),
            forall|k: int| 0 <= k < i ==> !(#[trigger] entries.deep_view()[k]).primary,
        decreases n - i,
    {
        let entry = &entries[i];
        proof {
            assert(entries.deep_view()[i as int] == entries@[i as int]@);
        }
        if entry.primary {
            return Some(entry.email.clone());
        }
        i += 1;
    }
    None
}

/// The user row created for an account first seen through an outside
/// identity provider: no usable password hash, default role and status.
pub fn oauth_new_user(email: String, username: String, full_name: Option<String>) -> (r: NewUser)
    ensures
        r@.email == email@,
        r@.username == username@,
        r@.password_hash == Seq::<char>::empty(),
        r@.full_name == (match full_name {
            Some(n) => Some(n@),
            None => None::<Seq<char>>,
        }),
        r@.role == "user"@,
        r@.status == "active"@,
{
    NewUser {
        username,
        email,
        password_hash: String::new(),
        full_name,
        role: String::from_str("user"),
        status: String::from_str("active"),
    }
}

} // verus!
