//! What the bot learns when it starts: when its data was last updated, and
//! where its source is kept.

use crate::number::{decimal_i64, parse_i64, ParseError};
use crate::text::{trim, trimmed};
use vstd::prelude::*;
use vstd::string::*;
use vstd::utf8::encode_utf8;

verus! {

/// The second at which the data was last updated, as the stamp that is
/// kept with the data tells it: a count of seconds since the Unix epoch
/// in decimal notation, with any white space around it.
pub fn neofetch_updated(stamp: &str) -> (updated: Result<i64, ParseError>)
    ensures
        match decimal_i64(encode_utf8(trimmed(stamp@))) {
            Ok(n) => updated == Ok::<i64, ParseError>(n as i64) && i64::MIN <= n <= i64::MAX,
            Err(e) => updated == Err::<i64, ParseError>(e),
        },
{
    parse_i64(trim(stamp))
}

/// Whether `url` ends in `.git`.
pub open spec fn ends_in_git(url: Seq<char>) -> bool {
    url.len() >= 4 && url.subrange(url.len() - 4, url.len() as int) == ".git"@
}

/// `url` without any `.git` at its end: where one `.git` follows another,
/// all of them are left off.
pub open spec fn without_git(url: Seq<char>) -> Seq<char>
    decreases url.len(),
{
    if ends_in_git(url) {
        without_git(url.subrange(0, url.len() - 4))
    } else {
        url
    }
}

/// Whether the first `end` characters of `url` end in `.git`.
fn ends_in_git_at(url: &str, end: usize) -> (ends: bool)
    requires
        end <= url@.len(),
    ensures
        ends == ends_in_git(url@.subrange(0, end as int)),
{
    proof {
        reveal_strlit(".git");
    }
    if end < 4 {
        return false;
    }
    let ends = url.get_char(end - 4) == '.' && url.get_char(end - 3) == 'g' && url.get_char(
        end - 2,
    ) == 'i' && url.get_char(end - 1) == 't';
    proof {
        let head = url@.subrange(0, end as int);
        let tail = head.subrange(head.len() - 4, head.len() as int);
        assert(tail.len() == 4);
        assert(tail[0] == url@[end - 4] && tail[1] == url@[end - 3] && tail[2] == url@[end - 2]
            && tail[3] == url@[end - 1]);
        if ends {
            assert(tail =~= ".git"@);
        }
    }
    ends
}

/// The address under which the repository is shown: the address of its
/// remote, without the `.git` that the remote's address ends in.
pub fn repository_url(remote: &str) -> (url: String)
    ensures
        url@ == without_git(remote@),
{
    let mut end = remote.unicode_len();
    assert(remote@.subrange(0, end as int) =~= remote@);
    loop
        invariant
            end <= remote@.len(),
            without_git(remote@.subrange(0, end as int)) == without_git(remote@),
        decreases end,
    {
        if !ends_in_git_at(remote, end) {
            return String::from_str(remote.substring_char(0, end));
        }
        assert(remote@.subrange(0, end as int).subrange(0, end - 4) =~= remote@.subrange(
            0,
            end - 4,
        ));
        end = end - 4;
    }
}

} // verus!
