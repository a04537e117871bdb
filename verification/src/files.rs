//! File scopes and paths, the bearer-token request guard, the listing
//! paginator, and download path resolution.
use vstd::prelude::*;

use crate::session::{auth_error, auth_next, AuthError, SessionTable};
use crate::upload::{filename_safe, ValidationError};
use crate::user::User;

verus! {

/// Storage scope for an uploaded or listed file: either the shared
/// directory or a per-user directory.
#[derive(Debug, PartialEq, Eq, Structural, Clone, Copy)]
pub enum FileScope {
    Common,
    User,
}

impl Default for FileScope {
    /// The default scope is the shared one.
    fn default() -> (r: Self)
        ensures
            r == FileScope::Common,
    {
        FileScope::Common
    }
}

/// The shared storage directory.
pub open spec fn common_folder_chars() -> Seq<char> {
    "storage/uploads/common"@
}

/// The private storage directory of the user named `username`.
pub open spec fn user_folder_chars(username: Seq<char>) -> Seq<char> {
    "storage/uploads/user/"@ + username
}

/// A directory and a file name, joined by the path separator.
pub open spec fn path_join(dir: Seq<char>, name: Seq<char>) -> Seq<char> {
    dir + "/"@ + name
}

impl FileScope {
    /// The path of the shared storage directory.
    pub fn get_path_to_common_folder() -> (r: String)
        ensures
            r@ == common_folder_chars(),
    {
        String::from_str("storage/uploads/common")
    }

    /// The path of `filename` inside the shared storage directory.
    pub fn get_path_to_common_file(filename: &str) -> (r: String)
        ensures
            r@ == path_join(common_folder_chars(), filename@),
    {
        let mut p = Self::get_path_to_common_folder();
        p.append("/");
        p.append(filename);
        p
    }

    /// The path of `filename` in this scope. Resolving the user scope
    /// demands a concrete user: calling it without one is a programming
    /// error, not a runtime failure path.
    pub fn get_path_to_file(&self, filename: &str, user: Option<&User>) -> (r: String)
        requires
            *self is User ==> user is Some,
        ensures
            *self is Common ==> r@ == path_join(common_folder_chars(), filename@),
            *self is User ==> (user matches Some(u) && r@ == path_join(
                user_folder_chars(u@.username),
                filename@,
            )),
    {
        match self {
            FileScope::Common => Self::get_path_to_common_file(filename),
            FileScope::User => user.unwrap().get_path_to_user_file(filename),
        }
    }
}

/// An authenticated request context: the user a presented bearer token
/// belongs to, and the token itself.
#[derive(Debug)]
pub struct UserToken {
    pub user: User,
    pub token: String,
}

/// Tokens the table issues are 64 characters; anything shorter in a bearer
/// header is rejected before any table lookup.
pub const MIN_TOKEN_CHARS: usize = 64;

/// The token carried by an `Authorization` header value, if the value uses
/// the bearer scheme.
pub open spec fn bearer_token(header: Seq<char>) -> Option<Seq<char>> {
    if header.len() >= 7 && header.subrange(0, 7) == "Bearer "@ {
        Some(header.skip(7))
    } else {
        None
    }
}

impl UserToken {
    /// Authenticates a request from its `Authorization` header value: the
    /// header must be present, use the bearer scheme, and carry a token of
    /// at least the issued length; the token must then name a live session.
    /// An expired session found here is pruned from the table.
    pub fn from_request(header: Option<&str>, sessions: &mut SessionTable, now: u64) -> (r: Result<
        UserToken,
        AuthError,
    >)
        ensures
            header is None ==> r == Err::<UserToken, AuthError>(AuthError::TokenMissing)
                && final(sessions)@ == old(sessions)@,
            header matches Some(h) ==> match bearer_token(h@) {
                None => r == Err::<UserToken, AuthError>(AuthError::TokenMalformed)
                    && final(sessions)@ == old(sessions)@,
                Some(t) => if t.len() < MIN_TOKEN_CHARS {
                    r == Err::<UserToken, AuthError>(AuthError::TokenMalformed) && final(sessions)@
                        == old(sessions)@
                } else {
                    final(sessions)@ == auth_next(old(sessions)@, t, now) && match auth_error(
                        old(sessions)@,
                        t,
                        now,
                    ) {
                        Some(e) => r matches Err(got) && got == e,
                        None => r matches Ok(ut) && ut.user@ == old(sessions)@[t].user
                            && ut.token@ == t,
                    }
                },
            },
    {
        let h = match header {
            None => {
                return Err(AuthError::TokenMissing);
            },
            Some(h) => h,
        };
        let hlen = h.unicode_len();
        proof {
            reveal_strlit("Bearer ");
        }
        if hlen < 7 {
            return Err(AuthError::TokenMalformed);
        }
        let is_bearer = h.get_char(0) == 'B' && h.get_char(1) == 'e' && h.get_char(2) == 'a'
            && h.get_char(3) == 'r' && h.get_char(4) == 'e' && h.get_char(5) == 'r' && h.get_char(
            6,
        ) == ' ';
        proof {
            let sub = h@.subrange(0, 7);
            assert(sub.len() == 7);
            assert(sub[0] == h@[0] && sub[1] == h@[1] && sub[2] == h@[2] && sub[3] == h@[3]
                && sub[4] == h@[4] && sub[5] == h@[5] && sub[6] == h@[6]);
        }
        if !is_bearer {
            proof {
                assert(h@.subrange(0, 7) != "Bearer "@);
            }
            return Err(AuthError::TokenMalformed);
        }
        proof {
            assert(h@.subrange(0, 7) =~= "Bearer "@);
        }
        let token = h.substring_char(7, hlen);
        proof {
            assert(token@ =~= h@.skip(7));
        }
        if token.unicode_len() < MIN_TOKEN_CHARS {
            return Err(AuthError::TokenMalformed);
        }
        match sessions.authenticate(token, now) {
            Ok(u) => Ok(UserToken { user: u, token: String::from_str(token) }),
            Err(e) => Err(e),
        }
    }
}

/// How many files one listing page holds.
pub const MAX_FILES: u64 = 10;

/// One page of a directory listing, with continuation cursors.
pub struct ListResponse {
    pub files: Vec<String>,
    pub next_cursor: Option<u64>,
    pub prev_cursor: Option<u64>,
}

/// A directory entry is visible unless it starts with the hidden-file marker.
pub open spec fn is_visible_name(n: Seq<char>) -> bool {
    !(n.len() > 0 && n[0] == '.')
}

/// The visible entries, kept in directory order.
pub open spec fn visible_files(entries: Seq<Seq<char>>) -> Seq<Seq<char>>
    decreases entries.len(),
{
    if entries.len() == 0 {
        Seq::empty()
    } else {
        let rest = visible_files(entries.drop_last());
        if is_visible_name(entries.last()) {
            rest.push(entries.last())
        } else {
            rest
        }
    }
}

/// Pages through the visible entries of a directory listing: skips `cursor`
/// visible entries, returns up to [`MAX_FILES`] of them, a forward cursor
/// when more remain, and a backward cursor when `cursor` allows one. The
/// entries come in whatever order the directory yields; no sorted or stable
/// order across calls is promised.
pub fn list(entries: &Vec<String>, cursor: u64) -> (r: ListResponse)
    ensures
        ({
            let v = visible_files(entries.deep_view());
            let lo = if cursor as int <= v.len() {
                cursor as int
            } else {
                v.len() as int
            };
            let hi = if cursor as int + MAX_FILES as int <= v.len() {
                cursor as int + MAX_FILES as int
            } else {
                v.len() as int
            };
            &&& r.files.deep_view() == v.subrange(lo, hi)
            &&& r.next_cursor == if v.len() > cursor + MAX_FILES {
                Some((cursor + MAX_FILES) as u64)
            } else {
                None::<u64>
            }
            &&& r.prev_cursor == if cursor >= MAX_FILES {
                Some((cursor - MAX_FILES) as u64)
            } else {
                None::<u64>
            }
        }),
{
    let mut visible: Vec<String> = Vec::new();
    let n = entries.len();
    let mut i: usize = 0;
    while i < n
        invariant
            i <= n,
            n == entries@.len(),
            visible.deep_view() == visible_files(entries.deep_view().subrange(0, i as int)),
        decreases n - i,
    {
        let name = &entries[i];
        let hidden = name.as_str().unicode_len() > 0 && name.as_str().get_char(0) == '.';
        if !hidden {
            visible.push(name.clone());
        }
        proof {
            let dv = entries.deep_view();
            assert(dv.subrange(0, i + 1 as int).drop_last() =~= dv.subrange(0, i as int));
            assert(dv.subrange(0, i + 1 as int).last() == dv[i as int]);
            assert(visible.deep_view() =~= visible_files(dv.subrange(0, i + 1 as int)));
        }
        i += 1;
    }
    proof {
        assert(entries.deep_view().subrange(0, n as int) =~= entries.deep_view());
    }
    let vlen: u64 = visible.len() as u64;
    let lo: u64 = if cursor < vlen {
        cursor
    } else {
        vlen
    };
    let more = vlen > lo && vlen - lo > MAX_FILES;
    let hi: u64 = if more {
        lo + MAX_FILES
    } else {
        vlen
    };
    let mut files: Vec<String> = Vec::new();
    let mut j: u64 = lo;
    while j < hi
        invariant
            lo <= j <= hi,
            hi <= vlen,
            vlen == visible@.len(),
            files.deep_view() == visible.deep_view().subrange(lo as int, j as int),
        decreases hi - j,
    {
        let name = visible[j as usize].clone();
        files.push(name);
        proof {
            let vv = visible.deep_view();
            assert(vv.subrange(lo as int, j + 1 as int).drop_last() =~= vv.subrange(
                lo as int,
                j as int,
            ));
            assert(vv.subrange(lo as int, j + 1 as int).last() == vv[j as int]);
            assert(files.deep_view() =~= vv.subrange(lo as int, j + 1 as int));
        }
        j += 1;
    }
    let next_cursor = if more {
        Some(cursor + MAX_FILES)
    } else {
        None
    };
    let prev_cursor = if cursor >= MAX_FILES {
        Some(cursor - MAX_FILES)
    } else {
        None
    };
    proof {
        let v = visible_files(entries.deep_view());
        assert(files.deep_view() =~= v.subrange(
            if cursor as int <= v.len() {
                cursor as int
            } else {
                v.len() as int
            },
            if cursor as int + MAX_FILES as int <= v.len() {
                cursor as int + MAX_FILES as int
            } else {
                v.len() as int
            },
        ));
    }
    ListResponse { files, next_cursor, prev_cursor }
}

/// A download request: the file to fetch and the scope it lives in.
pub struct DownloadData {
    pub filename: String,
    pub scope: FileScope,
}

/// Resolves the path of a requested download for the authenticated `user`,
/// after the scope resolver's safety check on the name: an unsafe name is a
/// client error in every scope. Whether the file exists is the caller's
/// concern.
pub fn download_file(form: &DownloadData, user: &User) -> (r: Result<String, ValidationError>)
    ensures
        !filename_safe(form.filename@) ==> r == Err::<String, ValidationError>(
            ValidationError::InvalidFilename,
        ),
        filename_safe(form.filename@) && form.scope is Common ==> (r matches Ok(p) && p@
            == path_join(common_folder_chars(), form.filename@)),
        filename_safe(form.filename@) && form.scope is User ==> (r matches Ok(p) && p@
            == path_join(user_folder_chars(user@.username), form.filename@)),
{
    match crate::upload::sanitize_filename(form.filename.as_str()) {
        None => Err(ValidationError::InvalidFilename),
        Some(name) => Ok(form.scope.get_path_to_file(name.as_str(), Some(user))),
    }
}

} // verus!
