//! Validation of the run's inputs: account names and the destination path.
//!
//! Validation failures are the only fatal errors of a run: everything that
//! comes later is scoped to one account or one repository.

use vstd::prelude::*;
use vstd::string::StrSliceExecFns;

verus! {

/// The errors that abort a run before any network or process activity.
#[derive(Clone, Copy, Debug, PartialEq, Eq, Structural)]
pub enum ValidationError {
    /// An account name holds a character outside `A-Z a-z 0-9 _ -`, or is empty.
    InvalidUsername,
    /// The destination directory is not an absolute path.
    PathNotAbsolute,
    /// The provider label is not one of the supported providers.
    InvalidProvider,
}

/// The characters an account name may consist of: ASCII letters, digits,
/// underscore and dash.
pub open spec fn valid_username_char(c: char) -> bool {
    ('a' <= c && c <= 'z') || ('A' <= c && c <= 'Z') || ('0' <= c && c <= '9') || c == '_'
        || c == '-'
}

/// A well-formed account name: non-empty, every character allowed.
pub open spec fn valid_username(s: Seq<char>) -> bool {
    s.len() > 0 && forall|i: int| 0 <= i < s.len() ==> valid_username_char(s[i])
}

/// An absolute destination path: non-empty and rooted at `/`.
pub open spec fn absolute_path(s: Seq<char>) -> bool {
    s.len() > 0 && s[0] == '/'
}

/// Checks one account name against the allowed character set.
pub fn validate_username(username: &str) -> (r: Result<(), ValidationError>)
    ensures
        r is Ok <==> valid_username(username@),
        r is Err ==> r == Err::<(), ValidationError>(ValidationError::InvalidUsername),
{
    let n = username.unicode_len();
    if n == 0 {
        return Err(ValidationError::InvalidUsername);
    }
    let mut i: usize = 0;
    while i < n
        invariant
            0 <= i <= n,
            n == username@.len(),
            forall|j: int| 0 <= j < i ==> valid_username_char(username@[j]),
        decreases n - i,
    {
        let c = username.get_char(i);
        let ok = ('a' <= c && c <= 'z') || ('A' <= c && c <= 'Z') || ('0' <= c && c <= '9')
            || c == '_' || c == '-';
        if !ok {
            assert(!valid_username_char(username@[i as int]));
            return Err(ValidationError::InvalidUsername);
        }
        i = i + 1;
    }
    Ok(())
}

/// Checks that the destination directory is given as an absolute path.
pub fn validate_path(path_str: &str) -> (r: Result<(), ValidationError>)
    ensures
        r is Ok <==> absolute_path(path_str@),
        r is Err ==> r == Err::<(), ValidationError>(ValidationError::PathNotAbsolute),
{
    if path_str.unicode_len() == 0 {
        return Err(ValidationError::PathNotAbsolute);
    }
    if path_str.get_char(0) == '/' {
        Ok(())
    } else {
        Err(ValidationError::PathNotAbsolute)
    }
}

} // verus!
