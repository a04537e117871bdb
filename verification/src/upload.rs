//! Upload handling: filename safety, scope guessing from the filename-prefix
//! convention, and resolution of the destination path.
use vstd::prelude::*;

use vstd::hash_map::StringHashMap;

use crate::files::{common_folder_chars, path_join, user_folder_chars, FileScope};
use crate::state::AppState;
use crate::text::{dec_chars, u64_to_string};
use crate::user::User;

verus! {

/// Longest accepted upload filename, in characters.
pub const MAX_FILENAME_CHARS: usize = 64;

/// Rejections for a client-supplied filename, surfaced with their reason.
#[derive(Debug, PartialEq, Eq, Structural, Clone, Copy)]
pub enum ValidationError {
    MissingFilename,
    FilenameTooLong,
    InvalidFilename,
}

/// Characters that may not occur in a stored filename: path separators, the
/// null byte and every other control character, and shell-special
/// punctuation.
pub open spec fn forbidden_char(c: char) -> bool {
    ||| c == '/'
    ||| c == '\\'
    ||| c == '<'
    ||| c == '>'
    ||| c == '|'
    ||| c == ':'
    ||| c == '('
    ||| c == ')'
    ||| c == '&'
    ||| c == ';'
    ||| c == '#'
    ||| c == '?'
    ||| c == '*'
    ||| (c as u32) < 32
    ||| c as u32 == 127
}

/// Whether the name contains the path-traversal sequence `..`.
pub open spec fn has_dot_dot(s: Seq<char>) -> bool {
    exists|i: int| 0 <= i && i + 1 < s.len() && #[trigger] s[i] == '.' && s[i + 1] == '.'
}

/// Whether a client-supplied filename is safe to resolve and store:
/// nonempty, free of forbidden characters, and free of `..`.
pub open spec fn filename_safe(s: Seq<char>) -> bool {
    &&& s.len() > 0
    &&& !has_dot_dot(s)
    &&& forall|i: int| 0 <= i < s.len() ==> !forbidden_char(#[trigger] s[i])
}

/// A filename containing a path separator, a null byte, or the traversal
/// sequence `..` fails the safety check — and with it every resolving path,
/// whatever the scope.
pub proof fn lemma_unsafe_names_rejected(s: Seq<char>)
    requires
        has_dot_dot(s) || exists|i: int|
            0 <= i < s.len() && (#[trigger] s[i] == '/' || s[i] == '\\' || s[i] == '\u{0}'),
    ensures
        !filename_safe(s),
{
    if !has_dot_dot(s) {
        let i = choose|i: int|
            0 <= i < s.len() && (#[trigger] s[i] == '/' || s[i] == '\\' || s[i] == '\u{0}');
        assert(forbidden_char(s[i]));
    }
}

/// Checks a filename against the safety rules. A safe name is returned
/// unchanged; an unsafe one is rejected, never truncated or repaired.
pub fn sanitize_filename(given: &str) -> (r: Option<String>)
    ensures
        filename_safe(given@) ==> (r matches Some(name) && name@ == given@),
        !filename_safe(given@) ==> r is None,
{
    let len = given.unicode_len();
    if len == 0 {
        return None;
    }
    let mut i: usize = 0;
    while i < len
        invariant
            i <= len,
            len == given@.len(),
            forall|j: int| 0 <= j < i ==> !forbidden_char(#[trigger] given@[j]),
            forall|j: int| 0 <= j < i && j + 1 < len ==> !(#[trigger] given@[j] == '.' && given@[j
                + 1] == '.'),
        decreases len - i,
    {
        let c = given.get_char(i);
        if c == '/' || c == '\\' || c == '<' || c == '>' || c == '|' || c == ':' || c == '(' || c
            == ')' || c == '&' || c == ';' || c == '#' || c == '?' || c == '*' || (c as u32) < 32
            || c as u32 == 127 {
            return None;
        }
        if c == '.' && i + 1 < len {
            if given.get_char(i + 1) == '.' {
                proof {
                    assert(has_dot_dot(given@));
                }
                return None;
            }
        }
        i += 1;
    }
    Some(String::from_str(given))
}

/// The index of the first underscore in `s` at or after `i`, or -1.
pub open spec fn first_underscore_from(s: Seq<char>, i: int) -> int
    decreases s.len() - i,
{
    if i < 0 || i >= s.len() {
        -1
    } else if s[i] == '_' {
        i
    } else {
        first_underscore_from(s, i + 1)
    }
}

/// The index of the first underscore in `s`, or -1 if there is none.
pub open spec fn first_underscore(s: Seq<char>) -> int {
    first_underscore_from(s, 0)
}

/// The prefix that scope guessing looks up — the characters up to and
/// including the first underscore — provided that underscore exists and the
/// text before it is nonempty.
pub open spec fn guessed_prefix(s: Seq<char>) -> Option<Seq<char>> {
    let i = first_underscore(s);
    if i <= 0 {
        None
    } else {
        Some(s.subrange(0, i + 1))
    }
}

/// The index of the first underscore of `s`, as an exec value.
fn find_underscore(s: &str) -> (r: Option<usize>)
    ensures
        match r {
            Some(i) => 0 <= i < s@.len() && first_underscore(s@) == i as int,
            None => first_underscore(s@) == -1,
        },
{
    let len = s.unicode_len();
    let mut i: usize = 0;
    while i < len
        invariant
            i <= len,
            len == s@.len(),
            first_underscore(s@) == first_underscore_from(s@, i as int),
        decreases len - i,
    {
        if s.get_char(i) == '_' {
            return Some(i);
        }
        i += 1;
    }
    None
}

/// Guesses the scope a filename belongs to by the prefix convention: the
/// text up to the first underscore, with the underscore, is looked up in the
/// prefix index. A registered prefix routes to that user's scope; no
/// underscore, an empty prefix, or an unregistered one routes to the shared
/// scope. This is a naming convention, not an authorization check: any
/// authenticated client can pick a filename whose prefix attributes the file
/// to another user's scope.
pub fn guess_scope_from_filename<'a>(filename: &str, prefixes: &'a StringHashMap<User>) -> (r: (
    FileScope,
    Option<&'a User>,
))
    ensures
        ({
            match guessed_prefix(filename@) {
                Some(p) => {
                    if prefixes@.contains_key(p) {
                        r.0 is User && (r.1 matches Some(u) && u@ == prefixes@[p]@)
                    } else {
                        r.0 is Common && r.1 is None
                    }
                },
                None => r.0 is Common && r.1 is None,
            }
        }),
{
    let len = filename.unicode_len();
    match find_underscore(filename) {
        None => (FileScope::Common, None),
        Some(i) => {
            if i == 0 {
                (FileScope::Common, None)
            } else {
                proof {
                    assert(i < len);
                }
                let prefix = filename.substring_char(0, i + 1);
                proof {
                    assert(prefix@ =~= filename@.subrange(0, i + 1 as int));
                }
                match prefixes.get(prefix) {
                    Some(u) => (FileScope::User, Some(u)),
                    None => (FileScope::Common, None),
                }
            }
        },
    }
}

/// An upload request: the filename the client declared for the file, if any.
pub struct UploadData {
    pub filename: Option<String>,
}

/// The name an upload is stored under: the upload timestamp in milliseconds,
/// a dash, and the client's filename.
pub open spec fn stored_name_chars(filename: Seq<char>, ts_millis: u64) -> Seq<char> {
    dec_chars(ts_millis as nat) + seq!['-'] + filename
}

/// The destination path of an upload: the stored name, inside the folder of
/// the scope the filename's prefix routes to.
pub open spec fn upload_dest_chars(
    filename: Seq<char>,
    prefixes: Map<Seq<char>, User>,
    ts_millis: u64,
) -> Seq<char> {
    let stored = stored_name_chars(filename, ts_millis);
    match guessed_prefix(filename) {
        Some(p) => if prefixes.contains_key(p) {
            path_join(user_folder_chars(prefixes[p]@.username), stored)
        } else {
            path_join(common_folder_chars(), stored)
        },
        None => path_join(common_folder_chars(), stored),
    }
}

/// Decides an upload: rejects a missing, over-long or unsafe filename with
/// its reason, and otherwise resolves the destination path from the guessed
/// scope and the timestamped stored name. Persisting the bytes at that path
/// is the caller's concern.
pub fn upload(form: &UploadData, state: &AppState, ts_millis: u64) -> (r: Result<
    String,
    ValidationError,
>)
    ensures
        form.filename is None ==> r == Err::<String, ValidationError>(
            ValidationError::MissingFilename,
        ),
        form.filename matches Some(n) ==> (if n@.len() > MAX_FILENAME_CHARS {
            r == Err::<String, ValidationError>(ValidationError::FilenameTooLong)
        } else if !filename_safe(n@) {
            r == Err::<String, ValidationError>(ValidationError::InvalidFilename)
        } else {
            r matches Ok(p) && p@ == upload_dest_chars(n@, state.prefix_map@, ts_millis)
        }),
{
    let name = match &form.filename {
        None => {
            return Err(ValidationError::MissingFilename);
        },
        Some(n) => n,
    };
    if name.as_str().unicode_len() > MAX_FILENAME_CHARS {
        return Err(ValidationError::FilenameTooLong);
    }
    let safe = match sanitize_filename(name.as_str()) {
        None => {
            return Err(ValidationError::InvalidFilename);
        },
        Some(s) => s,
    };
    let (scope, owner) = guess_scope_from_filename(safe.as_str(), &state.prefix_map);
    let mut stored = u64_to_string(ts_millis);
    stored.append("-");
    stored.append(safe.as_str());
    proof {
        reveal_strlit("-");
        assert(stored@ =~= stored_name_chars(name@, ts_millis));
    }
    let path = scope.get_path_to_file(stored.as_str(), owner);
    Ok(path)
}

} // verus!
