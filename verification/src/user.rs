//! User records: a username, an optional plaintext password (present only
//! until the one-time hash migration), the set of filename prefixes that route
//! uploads into this user's private scope, and the stored password hash.
use vstd::prelude::*;

use crate::files::{path_join, user_folder_chars};
use crate::password::{hash_password_string, password_verifies, verify_password_hash};

verus! {

/// Mathematical image of a [`User`]: every field as a sequence of characters.
pub struct UserView {
    pub username: Seq<char>,
    pub password: Option<Seq<char>>,
    pub file_prefixes: Seq<Seq<char>>,
    pub hashed_password: Option<Seq<char>>,
}

/// One user record, as loaded from a per-user configuration file.
#[derive(Debug)]
pub struct User {
    username: String,
    password: Option<String>,
    file_prefixes: Vec<String>,
    hashed_password: Option<String>,
}

impl View for User {
    type V = UserView;

    closed spec fn view(&self) -> UserView {
        UserView {
            username: self.username@,
            password: self.password.deep_view(),
            file_prefixes: self.file_prefixes.deep_view(),
            hashed_password: self.hashed_password.deep_view(),
        }
    }
}

/// Whether the record accepts `plain` as its password: there must be a stored
/// hash, and argon2's verification must accept `plain` against it. A record
/// without a stored hash accepts nothing.
pub open spec fn password_accepted(u: UserView, plain: Seq<char>) -> bool {
    match u.hashed_password {
        Some(h) => password_verifies(plain, h),
        None => false,
    }
}

/// The relation between a record before and after a successful hash
/// migration: the plaintext is gone, a hash that verifies against the old
/// plaintext is stored, and everything else is unchanged.
pub open spec fn hash_migrated(pre: UserView, post: UserView) -> bool {
    &&& pre.password is Some
    &&& post.username == pre.username
    &&& post.file_prefixes == pre.file_prefixes
    &&& post.password is None
    &&& match post.hashed_password {
        Some(h) => password_verifies(pre.password->0, h),
        None => false,
    }
}

impl User {
    /// Builds a record from its parts.
    pub fn new(
        username: String,
        password: Option<String>,
        file_prefixes: Vec<String>,
        hashed_password: Option<String>,
    ) -> (u: User)
        ensures
            u@ == (UserView {
                username: username@,
                password: password.deep_view(),
                file_prefixes: file_prefixes.deep_view(),
                hashed_password: hashed_password.deep_view(),
            }),
    {
        User { username, password, file_prefixes, hashed_password }
    }

    /// The username, the record's immutable key.
    pub fn username(&self) -> (r: String)
        ensures
            r@ == self@.username,
    {
        self.username.clone()
    }

    /// The filename prefixes that route an upload into this user's scope.
    pub fn prefixes(&self) -> (r: &Vec<String>)
        ensures
            r.deep_view() == self@.file_prefixes,
    {
        &self.file_prefixes
    }

    /// The stored password hash, if the record has been migrated.
    pub fn hashed_password(&self) -> (r: &Option<String>)
        ensures
            r.deep_view() == self@.hashed_password,
    {
        &self.hashed_password
    }

    /// Whether `unknown` is this record's password. Verification never
    /// panics: a record without a stored hash, or with a malformed one,
    /// rejects every candidate.
    pub fn check_password(&self, unknown: &str) -> (r: bool)
        ensures
            r == password_accepted(self@, unknown@),
    {
        match &self.hashed_password {
            Some(h) => verify_password_hash(unknown, h.as_str()),
            None => false,
        }
    }

    /// The path of this user's private storage folder.
    pub fn get_path_to_user_folder(&self) -> (r: String)
        ensures
            r@ == user_folder_chars(self@.username),
    {
        let mut p = String::from_str("storage/uploads/user/");
        p.append(self.username.as_str());
        p
    }

    /// The path of `filename` inside this user's private storage folder.
    pub fn get_path_to_user_file(&self, filename: &str) -> (r: String)
        ensures
            r@ == path_join(user_folder_chars(self@.username), filename@),
    {
        let mut p = self.get_path_to_user_folder();
        p.append("/");
        p.append(filename);
        p
    }

    /// The one-time migration: if the record still carries a plaintext
    /// password, hash it, store the hash and discard the plaintext. Returns
    /// true exactly when the record changed; on false the record is as
    /// before (no plaintext to migrate, or hashing failed).
    pub fn hash_password(&mut self) -> (r: bool)
        ensures
            r ==> hash_migrated(old(self)@, final(self)@),
            !r ==> final(self)@ == old(self)@,
    {
        let hashed = match &self.password {
            Some(plain) => hash_password_string(plain.as_str()),
            None => None,
        };
        match hashed {
            Some(h) => {
                self.hashed_password = Some(h);
                self.password = None;
                true
            },
            None => false,
        }
    }
}

/// Whether a directory entry name under the users folder is a user
/// configuration file: not hidden, and carrying the configuration extension.
pub open spec fn user_config_name(n: Seq<char>) -> bool {
    &&& !(n.len() > 0 && n[0] == '.')
    &&& n.len() >= 5
    &&& n.subrange(n.len() - 5, n.len() as int) == ".toml"@
}

/// Decides whether a directory entry name is one user's configuration file.
/// Hidden entries and entries without the configuration extension are
/// skipped by the startup load.
pub fn is_user_config_name(name: &str) -> (r: bool)
    ensures
        r == user_config_name(name@),
{
    proof {
        reveal_strlit(".toml");
    }
    let len = name.unicode_len();
    if len == 0 {
        return false;
    }
    if name.get_char(0) == '.' {
        return false;
    }
    if len < 5 {
        return false;
    }
    let ext_ok = name.get_char(len - 5) == '.' && name.get_char(len - 4) == 't' && name.get_char(
        len - 3,
    ) == 'o' && name.get_char(len - 2) == 'm' && name.get_char(len - 1) == 'l';
    proof {
        let n = name@;
        let sub = n.subrange(n.len() - 5, n.len() as int);
        assert(sub.len() == 5);
        assert(sub[0] == n[n.len() - 5] && sub[1] == n[n.len() - 4] && sub[2] == n[n.len() - 3]
            && sub[3] == n[n.len() - 2] && sub[4] == n[n.len() - 1]);
        if ext_ok {
            assert(sub =~= ".toml"@);
        } else {
            assert(sub != ".toml"@);
        }
    }
    ext_ok
}

impl Clone for User {
    /// A clone is indistinguishable from the original record.
    fn clone(&self) -> (r: Self)
        ensures
            r@ == self@,
    {
        let username = self.username.clone();
        let password = self.password.clone();
        let file_prefixes = self.file_prefixes.clone();
        let hashed_password = self.hashed_password.clone();
        proof {
            assert forall|i: int| 0 <= i < self.file_prefixes@.len() implies file_prefixes@[i]
                == self.file_prefixes@[i] by {
                assert(cloned::<String>(self.file_prefixes@[i], file_prefixes@[i]));
            }
            assert(file_prefixes@ =~= self.file_prefixes@);
            assert(file_prefixes.deep_view() =~= self.file_prefixes.deep_view());
        }
        User { username, password, file_prefixes, hashed_password }
    }
}

/// A freshly migrated record accepts the plaintext it was migrated from as
/// its password.
pub proof fn lemma_hash_then_check(pre: UserView, post: UserView)
    requires
        hash_migrated(pre, post),
    ensures
        password_accepted(post, pre.password->0),
{
}

} // verus!
