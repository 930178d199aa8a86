//! Remote path handling: the directory chosen for an upload is normalized to
//! carry no trailing separator, and the remote path of a file is that
//! directory, a single separator, and the file's name.

use vstd::prelude::*;
use vstd::string::{StringExecFns, StrSliceExecFns};

verus! {

/// The remote directory used when the caller names none.
pub const DEFAULT_REMOTE_DIR: &'static str = "/pan_upload";

/// `s` without its trailing `'/'` characters.
pub open spec fn trim_trailing_slashes(s: Seq<char>) -> Seq<char>
    decreases s.len(),
{
    if s.len() > 0 && s.last() == '/' {
        trim_trailing_slashes(s.drop_last())
    } else {
        s
    }
}

/// The remote path an upload resolves to: the normalized directory, one
/// separator, and the file name.
pub open spec fn resolved_path(remote_dir: Seq<char>, file_name: Seq<char>) -> Seq<char> {
    trim_trailing_slashes(remote_dir) + seq!['/'] + file_name
}

/// Resolve the remote path for `file_name` under `remote_dir`, trimming any
/// trailing separators from the directory first.
pub fn resolve_remote_path(remote_dir: &str, file_name: &str) -> (r: String)
    ensures
        r@ == resolved_path(remote_dir@, file_name@),
{
    let n = remote_dir.unicode_len();
    let mut end = n;
    proof {
        assert(remote_dir@.take(n as int) =~= remote_dir@);
    }
    while end > 0 && remote_dir.get_char(end - 1) == '/'
        invariant
            0 <= end <= n,
            n == remote_dir@.len(),
            trim_trailing_slashes(remote_dir@) == trim_trailing_slashes(
                remote_dir@.take(end as int),
            ),
        decreases end,
    {
        proof {
            let t = remote_dir@.take(end as int);
            assert(t.last() == remote_dir@[end - 1]);
            assert(t.drop_last() =~= remote_dir@.take(end - 1));
        }
        end = end - 1;
    }
    proof {
        let t = remote_dir@.take(end as int);
        if end > 0 {
            assert(t.last() == remote_dir@[end - 1]);
        }
        assert(trim_trailing_slashes(t) == t);
        reveal_strlit("/");
    }
    let trimmed = remote_dir.substring_char(0, end);
    let r = String::from_str(trimmed).concat("/").concat(file_name);
    assert(r@ =~= resolved_path(remote_dir@, file_name@));
    r
}

/// The directory an upload goes to: the caller's choice, or the default when
/// the caller names none.
pub fn effective_remote_dir(remote_dir: &str) -> (r: &str)
    ensures
        remote_dir@.len() == 0 ==> r@ == DEFAULT_REMOTE_DIR@,
        remote_dir@.len() != 0 ==> r@ == remote_dir@,
{
    if remote_dir.unicode_len() == 0 {
        DEFAULT_REMOTE_DIR
    } else {
        remote_dir
    }
}

} // verus!
