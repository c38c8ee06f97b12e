//! The project root is the top level of the git work tree that the program
//! is started in, as `git rev-parse --show-toplevel` prints it.

use vstd::prelude::*;
use vstd::string::*;
use vstd::utf8::{decode_utf8, valid_utf8};

verus! {

/// Why the output of `git rev-parse --show-toplevel` gives no project root.
#[derive(Debug, Clone, Copy, PartialEq, Eq)]
pub enum ResolveError {
    /// git exited unsuccessfully.
    GitFailed,
    /// git printed something that is not UTF-8.
    NotUtf8,
}

/// Whether `c` has the Unicode property White_Space.
pub open spec fn is_white_space(c: char) -> bool {
    let n = c as u32;
    ||| 0x9 <= n <= 0xd
    ||| n == 0x20
    ||| n == 0x85
    ||| n == 0xa0
    ||| n == 0x1680
    ||| 0x2000 <= n <= 0x200a
    ||| n == 0x2028
    ||| n == 0x2029
    ||| n == 0x202f
    ||| n == 0x205f
    ||| n == 0x3000
}

/// `s` without its trailing white space.
pub open spec fn trim_end(s: Seq<char>) -> Seq<char>
    decreases s.len(),
{
    if s.len() > 0 && is_white_space(s.last()) {
        trim_end(s.drop_last())
    } else {
        s
    }
}

/// Exactly these code points are white space: the controls TAB, LF, VT,
/// FF, CR and NEL, SPACE, NO-BREAK SPACE, OGHAM SPACE MARK, the eleven spaces
/// from EN QUAD to HAIR SPACE, LINE SEPARATOR, PARAGRAPH SEPARATOR, NARROW
/// NO-BREAK SPACE, MEDIUM MATHEMATICAL SPACE and IDEOGRAPHIC SPACE. Letters
/// and digits of any script are not.
pub proof fn white_space_code_points(c: char)
    ensures
        is_white_space(c) <==> ({
            let n = c as u32;
            ||| n == 0x9 || n == 0xa || n == 0xb || n == 0xc || n == 0xd
            ||| n == 0x20 || n == 0x85 || n == 0xa0 || n == 0x1680
            ||| n == 0x2000 || n == 0x2001 || n == 0x2002 || n == 0x2003 || n == 0x2004
            ||| n == 0x2005 || n == 0x2006 || n == 0x2007 || n == 0x2008 || n == 0x2009
            ||| n == 0x200a
            ||| n == 0x2028 || n == 0x2029 || n == 0x202f || n == 0x205f || n == 0x3000
        }),
{
}

/// Trimming keeps a prefix of the text and drops only white space: what it
/// drops is all white space, and what it keeps is empty or ends in a
/// character that is not white space. Text that ends in such a character is
/// kept whole.
pub proof fn trim_end_drops_only_trailing_white_space(s: Seq<char>)
    ensures
        trim_end(s).len() <= s.len(),
        trim_end(s) == s.subrange(0, trim_end(s).len() as int),
        forall|i: int| trim_end(s).len() <= i < s.len() ==> is_white_space(#[trigger] s[i]),
        trim_end(s).len() == 0 || !is_white_space(trim_end(s).last()),
        s.len() > 0 && !is_white_space(s.last()) ==> trim_end(s) == s,
    decreases s.len(),
{
    if s.len() > 0 && is_white_space(s.last()) {
        let rest = s.drop_last();
        trim_end_drops_only_trailing_white_space(rest);
        let t = trim_end(rest);
        assert(t == s.subrange(0, t.len() as int)) by {
            assert(rest.subrange(0, t.len() as int) =~= s.subrange(0, t.len() as int));
        }
        assert forall|i: int| t.len() <= i < s.len() implies is_white_space(#[trigger] s[i]) by {
            if i < rest.len() {
                assert(s[i] == rest[i]);
            }
        }
    } else {
        assert(s.subrange(0, s.len() as int) =~= s);
    }
}

fn white_space(c: char) -> (r: bool)
    ensures
        r == is_white_space(c),
{
    let n = c as u32;
    (0x9 <= n && n <= 0xd) || n == 0x20 || n == 0x85 || n == 0xa0 || n == 0x1680 || (0x2000 <= n
        && n <= 0x200a) || n == 0x2028 || n == 0x2029 || n == 0x202f || n == 0x205f || n == 0x3000
}

/// `String::from_utf8`: the string that `bytes` encode in UTF-8, if they are
/// valid UTF-8.
#[verifier::external_body]
fn string_from_utf8(bytes: Vec<u8>) -> (r: Option<String>)
    ensures
        r is Some <==> valid_utf8(bytes@),
        r matches Some(s) ==> s@ == decode_utf8(bytes@),
{
    String::from_utf8(bytes).ok()
}

/// `text` without its trailing white space.
pub fn trimmed_end(text: &str) -> (r: String)
    ensures
        r@ == trim_end(text@),
{
    let mut end = text.unicode_len();
    proof {
        assert(text@.subrange(0, end as int) =~= text@);
    }
    while end > 0 && white_space(text.get_char(end - 1))
        invariant
            end <= text@.len(),
            trim_end(text@.subrange(0, end as int)) == trim_end(text@),
        decreases end,
    {
        proof {
            let prefix = text@.subrange(0, end as int);
            assert(prefix.drop_last() =~= text@.subrange(0, end - 1));
        }
        end = end - 1;
    }
    proof {
        let prefix = text@.subrange(0, end as int);
        if end > 0 {
            assert(prefix.last() == text@[end - 1]);
        }
    }
    String::from_str(text.substring_char(0, end))
}

/// The project root that git's output gives: git must have succeeded and
/// printed UTF-8, and the root is that text without its trailing white space.
pub fn git_toplevel(success: bool, stdout: Vec<u8>) -> (r: Result<String, ResolveError>)
    ensures
        !success ==> r == Err::<String, ResolveError>(ResolveError::GitFailed),
        success && !valid_utf8(stdout@) ==> r == Err::<String, ResolveError>(ResolveError::NotUtf8),
        success && valid_utf8(stdout@) ==> (r matches Ok(root) && root@ == trim_end(
            decode_utf8(stdout@),
        )),
{
    if !success {
        return Err(ResolveError::GitFailed);
    }
    match string_from_utf8(stdout) {
        Some(text) => Ok(trimmed_end(text.as_str())),
        None => Err(ResolveError::NotUtf8),
    }
}

} // verus!
