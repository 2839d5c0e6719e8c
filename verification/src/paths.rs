//! The one piece of path handling the launcher decides itself: a leading `~`
//! component of a command-line path stands for the home directory.

use vstd::prelude::*;
use vstd::string::*;

verus! {

/// The path with a leading `~` component replaced by `home`; any other path
/// is unchanged.
pub open spec fn spec_expand_home(path: Seq<char>, home: Seq<char>) -> Seq<char> {
    if path.len() >= 1 && path[0] == '~' && (path.len() == 1 || path[1] == '/') {
        home + path.skip(1)
    } else {
        path
    }
}

/// Replaces a leading `~` component of `path` by `home`.
pub fn expand_home(path: &str, home: &str) -> (r: String)
    ensures
        r@ == spec_expand_home(path@, home@),
{
    let n: usize = path.unicode_len();
    if n >= 1 && path.get_char(0) == '~' && (n == 1 || path.get_char(1) == '/') {
        let mut s: String = String::from_str(home);
        let rest: &str = path.substring_char(1, n);
        s.append(rest);
        proof {
            assert(s@ =~= spec_expand_home(path@, home@));
        }
        s
    } else {
        String::from_str(path)
    }
}

} // verus!
